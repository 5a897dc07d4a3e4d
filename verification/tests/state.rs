use sierra::vulkan::epochs::QueueEpochs;
use sierra::vulkan::physical::{Feature, RequestedFeatures};
use sierra::vulkan::resources::{resource_allocated, resource_freed, ResourceCounter};

#[test]
fn epochs_close_releases_older_cbufs() {
    let mut q: QueueEpochs<u32> = QueueEpochs::new();
    q.submit(vec![1, 2]);
    let e0 = q.next_epoch();
    assert_eq!(e0, 0);
    q.submit(vec![3]);
    let e1 = q.next_epoch();
    assert_eq!(e1, 1);
    q.submit(vec![4]);
    assert_eq!(q.close_epoch(e0), vec![1, 2]);
    assert_eq!(q.close_epoch(e1), vec![3]);
    assert_eq!(q.close_epoch(e1), Vec::<u32>::new());
    let e2 = q.next_epoch();
    assert_eq!(e2, 2);
    assert_eq!(q.close_epoch(e2), vec![4]);
}

#[test]
fn epochs_close_many_at_once() {
    let mut q: QueueEpochs<u32> = QueueEpochs::new();
    q.submit(vec![1]);
    q.next_epoch();
    q.submit(vec![2]);
    q.next_epoch();
    q.submit(vec![3]);
    let last = q.next_epoch();
    assert_eq!(q.close_epoch(last), vec![3, 2, 1]);
}

#[test]
fn epochs_recycle_and_drain() {
    let mut q: QueueEpochs<u32> = QueueEpochs::new();
    q.submit(vec![5, 6]);
    let e = q.next_epoch();
    let released = q.close_epoch(e);
    q.recycle(released);
    let mut out = vec![9];
    q.drain_cbuf(&mut out);
    assert_eq!(out, vec![9, 5, 6]);
    let mut again = Vec::new();
    q.drain_cbuf(&mut again);
    assert!(again.is_empty());
}

#[test]
fn requested_features_take_and_check() {
    let mut f = RequestedFeatures::new(&[
        Feature::BufferDeviceAddress,
        Feature::ScalarBlockLayout,
        Feature::BufferDeviceAddress,
        Feature::DynamicRendering,
    ]);
    assert!(f.check(Feature::ScalarBlockLayout));
    assert!(f.take(Feature::ScalarBlockLayout));
    assert!(!f.check(Feature::ScalarBlockLayout));
    assert!(!f.take(Feature::ScalarBlockLayout));
    assert!(f.take(Feature::BufferDeviceAddress));
    assert!(f.check(Feature::BufferDeviceAddress));
    assert!(f.take(Feature::BufferDeviceAddress));
    assert!(!f.check(Feature::BufferDeviceAddress));
    assert!(!f.take(Feature::SurfacePresentation));
    assert!(f.take(Feature::DynamicRendering));
    f.assert_empty();
}

#[test]
fn resource_counter_counts() {
    let mut c = ResourceCounter::new();
    resource_allocated(&mut c);
    resource_allocated(&mut c);
    resource_freed(&mut c);
    assert_eq!(c.allocated_count(), 2);
    assert_eq!(c.freed_count(), 1);
}

#[test]
fn queue_epochs_count_calls() {
    let mut q: QueueEpochs<u32> = QueueEpochs::new();
    for k in 0..5u64 {
        assert_eq!(q.next_epoch(), k);
    }
    assert_eq!(q.current_epoch(), 5);
}
