use futures::SlotCore;

#[test]
fn slot_hands_one_value_through() {
    let mut slot: SlotCore<u32> = SlotCore::new();
    assert!(matches!(slot.consume(), None));
    assert!(matches!(slot.produce(5), Ok(false)));
    assert!(matches!(slot.produce(6), Err(6)));
    assert!(matches!(slot.consume(), Some((5, false))));
    assert!(matches!(slot.consume(), None));
}

#[test]
fn slot_on_full_fires_on_the_transition() {
    let mut slot: SlotCore<u32> = SlotCore::new();
    let (token, fire_now) = slot.register_on_full().expect("no callback was pending");
    assert!(!fire_now);
    assert!(matches!(slot.register_on_full(), Err(())));
    assert!(matches!(slot.produce(1), Ok(true)));
    let (token2, fire_now2) = slot.register_on_full().expect("the callback fired and left");
    assert!(fire_now2);
    assert_ne!(token, token2);
}

#[test]
fn slot_on_empty_fires_on_the_transition() {
    let mut slot: SlotCore<u32> = SlotCore::new();
    let (_, fire_now) = slot.register_on_empty().expect("no callback was pending");
    assert!(fire_now);
    assert!(matches!(slot.produce(1), Ok(false)));
    let (_, pending) = slot.register_on_empty().expect("the inline one was never stored");
    assert!(!pending);
    assert!(matches!(slot.consume(), Some((1, true))));
    assert!(matches!(slot.consume(), None));
}

#[test]
fn slot_cancel_removes_only_the_named_callback() {
    let mut slot: SlotCore<u32> = SlotCore::new();
    let (token, _) = slot.register_on_full().expect("no callback was pending");
    slot.cancel(token + 1);
    assert!(matches!(slot.register_on_full(), Err(())));
    slot.cancel(token);
    let (_, fire_now) = slot.register_on_full().expect("the cancelled one is gone");
    assert!(!fire_now);
    assert!(matches!(slot.produce(2), Ok(true)));
}
