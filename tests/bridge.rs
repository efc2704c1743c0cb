use std::sync::mpsc::{sync_channel, SyncSender, TrySendError};

use track_overlay::bridge::{Arrival, Bridge, HandOff, SendOutcome};

fn offer(bridge: &mut Bridge, tx: &SyncSender<u32>, msg: u32) -> Option<HandOff> {
    match bridge.on_message() {
        Arrival::DropDisabled => None,
        Arrival::Send => {
            let outcome = match tx.try_send(msg) {
                Ok(()) => SendOutcome::Sent,
                Err(TrySendError::Full(_)) => SendOutcome::Full,
                Err(TrySendError::Disconnected(_)) => SendOutcome::Disconnected,
            };
            Some(bridge.on_send_outcome(outcome))
        }
    }
}

#[test]
fn new_bridge_is_active() {
    let b = Bridge::new();
    assert!(b.is_active());
    assert_eq!(b.on_message(), Arrival::Send);
}

#[test]
fn second_message_is_dropped_while_first_waits() {
    let (tx, rx) = sync_channel::<u32>(1);
    let mut b = Bridge::new();
    assert_eq!(offer(&mut b, &tx, 1), Some(HandOff::Delivered));
    assert_eq!(offer(&mut b, &tx, 2), Some(HandOff::DroppedFull));
    assert!(b.is_active());
    assert_eq!(rx.try_recv().unwrap(), 1);
    assert!(rx.try_recv().is_err());
    assert_eq!(offer(&mut b, &tx, 3), Some(HandOff::Delivered));
    assert_eq!(rx.try_recv().unwrap(), 3);
}

#[test]
fn gone_receiver_disables_bridge_for_good() {
    let (tx, rx) = sync_channel::<u32>(1);
    drop(rx);
    let mut b = Bridge::new();
    assert_eq!(offer(&mut b, &tx, 1), Some(HandOff::Disabled));
    assert!(!b.is_active());
    assert_eq!(offer(&mut b, &tx, 2), None);
    assert_eq!(b.on_message(), Arrival::DropDisabled);
}

#[test]
fn outcomes_map_to_hand_offs() {
    let mut b = Bridge::new();
    assert_eq!(b.on_send_outcome(SendOutcome::Sent), HandOff::Delivered);
    assert_eq!(b.on_send_outcome(SendOutcome::Full), HandOff::DroppedFull);
    assert!(b.is_active());
    assert_eq!(b.on_send_outcome(SendOutcome::Disconnected), HandOff::Disabled);
    assert!(!b.is_active());
    assert_eq!(b.on_send_outcome(SendOutcome::Sent), HandOff::Delivered);
    assert!(!b.is_active());
}
