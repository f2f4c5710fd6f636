use astrid_sdk::compute::{ExecutionMode, GroupRequest, Parallelism, WorkDescriptor};

#[test]
fn builders_preserve_explicit_policy() {
    let request = GroupRequest::new("linux-vcpu", 1024, 8192).parallel(Parallelism::AtMost(8));
    assert_eq!(request.mode, ExecutionMode::Parallel);
    assert_eq!(request.parallelism, Parallelism::AtMost(8));

    let automatic = GroupRequest::new("linux-vcpu", 1024, 8192).auto_memory();
    assert_eq!(automatic.initial_memory_pages, 1024);
    assert_eq!(automatic.maximum_memory_pages, 0);

    let descriptor = WorkDescriptor::new(64, 4096, 7).on_worker(3).with_fuel(1_000_000);
    assert_eq!(descriptor.worker_index, Some(3));
    assert_eq!(descriptor.fuel, Some(1_000_000));
}

#[test]
fn new_group_request_is_deterministic_single_worker() {
    let request = GroupRequest::new("w", 1, 2);
    assert_eq!(request.worker, "w");
    assert_eq!(request.mode, ExecutionMode::Deterministic);
    assert_eq!(request.parallelism, Parallelism::Exact(1));
    let back = request.parallel(Parallelism::Auto).deterministic();
    assert_eq!(back.mode, ExecutionMode::Deterministic);
    assert_eq!(back.parallelism, Parallelism::Exact(1));
    assert_eq!(back.maximum_memory_pages, 2);
}

#[test]
fn work_descriptor_defaults() {
    let d = WorkDescriptor::new(64, 128, 9);
    assert_eq!((d.offset, d.length, d.tag), (64, 128, 9));
    assert_eq!(d.worker_index, None);
    assert_eq!(d.fuel, None);
}
