use parallel_download::request::RequestSlot;

#[test]
fn call_runs_then_publishes() {
    let mut slot: RequestSlot<u32, String> = RequestSlot::new();
    assert!(!slot.is_running());
    assert_eq!(slot.take_result(), None);
    slot.begin();
    assert!(slot.is_running());
    assert_eq!(slot.take_result(), None);
    slot.publish(Ok(5));
    assert!(!slot.is_running());
    assert_eq!(slot.take_result(), Some(Ok(5)));
    assert_eq!(slot.take_result(), None);
}

#[test]
fn second_call_clears_previous_result() {
    let mut slot: RequestSlot<u32, String> = RequestSlot::new();
    slot.begin();
    slot.publish(Err("refused".to_string()));
    slot.begin();
    assert!(slot.is_running());
    assert_eq!(slot.take_result(), None);
    slot.publish(Ok(1));
    assert_eq!(slot.take_result(), Some(Ok(1)));
}
