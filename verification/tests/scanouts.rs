use virtio_gpu::protocol::VIRTIO_GPU_MAX_SCANOUTS;
use virtio_gpu::scanout::AssociatedScanouts;

#[test]
fn test_virtio_gpu_associated_scanouts() {
    let mut scanouts = AssociatedScanouts::default();

    assert!(!scanouts.has_any_enabled());
    assert_eq!(scanouts.iter_enabled().into_iter().next(), None);

    scanouts.enable(1);
    assert!(scanouts.has_any_enabled());
    scanouts.disable(1);
    assert!(!scanouts.has_any_enabled());

    (0..VIRTIO_GPU_MAX_SCANOUTS).for_each(|scanout| scanouts.enable(scanout));
    assert!(scanouts.has_any_enabled());
    assert_eq!(
        scanouts.iter_enabled().into_iter().collect::<Vec<u32>>(),
        (0..VIRTIO_GPU_MAX_SCANOUTS).collect::<Vec<u32>>()
    );

    (0..VIRTIO_GPU_MAX_SCANOUTS)
        .filter(|&i| i % 2 == 0)
        .for_each(|scanout| scanouts.disable(scanout));
    assert_eq!(
        scanouts.iter_enabled().into_iter().collect::<Vec<u32>>(),
        (1..VIRTIO_GPU_MAX_SCANOUTS)
            .step_by(2)
            .collect::<Vec<u32>>()
    );

    (0..VIRTIO_GPU_MAX_SCANOUTS)
        .filter(|&i| i % 2 != 0)
        .for_each(|scanout| scanouts.disable(scanout));
    assert!(!scanouts.has_any_enabled());
}

#[test]
fn new_is_default() {
    assert_eq!(AssociatedScanouts::new(), AssociatedScanouts::default());
}

#[test]
fn disable_undoes_enable() {
    let mut scanouts = AssociatedScanouts::new();
    scanouts.enable(3);
    scanouts.enable(15);
    let before = scanouts;
    scanouts.enable(7);
    assert_ne!(scanouts, before);
    scanouts.disable(7);
    assert_eq!(scanouts, before);
}

#[test]
fn enable_twice_is_enable_once() {
    let mut scanouts = AssociatedScanouts::new();
    scanouts.enable(5);
    scanouts.enable(5);
    assert_eq!(scanouts.iter_enabled(), vec![5]);
}

#[test]
fn disable_of_a_disabled_scanout_enables_it() {
    let mut scanouts = AssociatedScanouts::new();
    scanouts.disable(2);
    assert_eq!(scanouts.iter_enabled(), vec![2]);
    scanouts.disable(2);
    assert!(!scanouts.has_any_enabled());
}

#[test]
fn scanouts_beyond_the_device_count_but_are_not_listed() {
    let mut scanouts = AssociatedScanouts::new();
    scanouts.enable(31);
    assert!(scanouts.has_any_enabled());
    assert_eq!(scanouts.iter_enabled(), Vec::<u32>::new());
}
