use loopers::gui_channel::{GuiSender, UpdateOutcome};

#[test]
fn disconnected_sender_discards_any_number_of_updates() {
    let sender: GuiSender<u64> = GuiSender::disconnected();
    assert!(!sender.is_connected());
    for v in 0..10_000u64 {
        assert_eq!(sender.send_update(v), UpdateOutcome::Discarded);
    }
}

#[test]
fn connected_sender_delivers_to_the_receiving_half() {
    let (sender, receiver): (GuiSender<u64>, crossbeam_channel::Receiver<u64>) = GuiSender::new();
    assert!(sender.is_connected());
    assert_eq!(sender.send_update(7), UpdateOutcome::Delivered);
    assert_eq!(sender.send_update(8), UpdateOutcome::Delivered);
    assert_eq!(receiver.try_recv(), Ok(7));
    assert_eq!(receiver.try_recv(), Ok(8));
    assert!(receiver.try_recv().is_err());
}

#[test]
fn connected_sender_reports_closed_when_receiver_is_gone() {
    let (sender, receiver): (GuiSender<u64>, crossbeam_channel::Receiver<u64>) = GuiSender::new();
    drop(receiver);
    assert_eq!(sender.send_update(1), UpdateOutcome::Closed);
}

#[test]
fn duplicate_keeps_the_variant_and_the_channel() {
    let disconnected: GuiSender<u64> = GuiSender::disconnected();
    assert!(!disconnected.duplicate().is_connected());

    let (sender, receiver): (GuiSender<u64>, crossbeam_channel::Receiver<u64>) = GuiSender::new();
    let copy = sender.duplicate();
    assert!(copy.is_connected());
    assert_eq!(copy.send_update(42), UpdateOutcome::Delivered);
    assert_eq!(receiver.try_recv(), Ok(42));
}
