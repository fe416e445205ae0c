//! Driver logic for a chain of shift-register linked seven-segment displays.
pub mod display;
pub mod lookup;
pub mod segments;
pub mod transfer;

pub use display::{Display, DisplayData, CHAIN_LENGTH, DATA_LENGTH};
pub use lookup::{Interp, NibbleSplit};
pub use segments::{char_pattern, SEG_DP};
pub use transfer::{TransferAction, TransferEvent, TransferPhase};
