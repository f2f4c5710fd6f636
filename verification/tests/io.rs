use astrid_sdk::io::{poll, ready_indices, Pollable, MAX_POLLABLES_PER_CALL};

#[test]
fn poll_rejects_empty_input_before_calling_the_host() {
    let error = poll(&[]).expect_err("empty poll set should fail");
    assert!(error.message().contains("at least one"));
}

#[test]
fn poll_rejects_oversized_sets() {
    let owned: Vec<Pollable> = (0..(MAX_POLLABLES_PER_CALL as u32 + 1)).map(Pollable::new).collect();
    let refs: Vec<&Pollable> = owned.iter().collect();
    let error = poll(&refs).unwrap_err();
    assert!(error.message().contains("at most 256"));
    assert!(poll(&refs[..MAX_POLLABLES_PER_CALL]).is_ok());
}

#[test]
fn poll_passes_handles_in_order() {
    let a = Pollable::new(7);
    let b = Pollable::new(3);
    assert_eq!(poll(&[&a, &b]).unwrap(), vec![7, 3]);
    assert_eq!(ready_indices(vec![0, 1]), vec![0usize, 1]);
}
