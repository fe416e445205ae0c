use hexchain::{TransferAction, TransferEvent, TransferPhase};

#[test]
fn show_sequence_happy_path() {
    let p = TransferPhase::Idle;
    let (p, a) = p.step(TransferEvent::Show);
    assert_eq!((p, a), (TransferPhase::Rendering, TransferAction::Render));
    let (p, a) = p.step(TransferEvent::Rendered);
    assert_eq!((p, a), (TransferPhase::Transmitting, TransferAction::LatchLowAndSend));
    let (p, a) = p.step(TransferEvent::ChannelComplete);
    assert_eq!((p, a), (TransferPhase::Draining, TransferAction::AwaitFlush));
    let (p, a) = p.step(TransferEvent::Flushed);
    assert_eq!((p, a), (TransferPhase::Idle, TransferAction::LatchHighAndRelease));
}

#[test]
fn flush_failure_is_reported() {
    let (p, a) = TransferPhase::Draining.step(TransferEvent::FlushFailed);
    assert_eq!((p, a), (TransferPhase::Idle, TransferAction::Fail));
}

#[test]
fn out_of_order_events_are_ignored() {
    assert_eq!(
        TransferPhase::Idle.step(TransferEvent::Flushed),
        (TransferPhase::Idle, TransferAction::Ignore)
    );
    assert_eq!(
        TransferPhase::Transmitting.step(TransferEvent::Show),
        (TransferPhase::Transmitting, TransferAction::Ignore)
    );
    assert_eq!(
        TransferPhase::Rendering.step(TransferEvent::FlushFailed),
        (TransferPhase::Rendering, TransferAction::Ignore)
    );
    assert_eq!(
        TransferPhase::Draining.step(TransferEvent::ChannelComplete),
        (TransferPhase::Draining, TransferAction::Ignore)
    );
}
