use std::sync::{Arc, Mutex};

use virtio_gpu::gpu::{
    DeviceIdentity, GpuCmd, GpuError, JobState, SafeGpu, VirtGpuDriver, VirtGpuFeatures,
    CMD_GET_DISPLAY_INFO, CMD_RESOURCE_CREATE_2D, CMD_RESOURCE_UNREF, CONTROL_QUEUE,
    CURSOR_QUEUE, DISPLAY_QUEUE, MAX_BUFFER_SIZE, QUEUE_CAPACITY, SUPPORTED_FEATURES,
    VIRTIO_GPU_DEVICE_ID, VIRTIO_GPU_F_EDID, VIRTIO_GPU_F_VIRGL, VIRTIO_GPU_VENDOR_ID,
};
use virtio_gpu::security::{init, zk_verify};

fn ready_driver() -> VirtGpuDriver {
    let mut d = VirtGpuDriver::init();
    d.mark_ready(VirtGpuFeatures::empty());
    d
}

#[test]
fn get_display_info_job_lifecycle() {
    let mut d = ready_driver();
    assert_eq!(d.submit_cmd(GpuCmd::GetDisplayInfo, 0), Ok(1));
    assert_eq!(d.status(1), Ok(JobState::Submitted));
    assert_eq!(d.on_completion(CONTROL_QUEUE, None), Ok(1));
    assert_eq!(d.status(1), Ok(JobState::Completed));
    assert_eq!(d.queue_len(CONTROL_QUEUE), Some(0));
}

#[test]
fn shared_display_submissions_get_distinct_ids() {
    let shared = Arc::new(Mutex::new(ready_driver()));
    let first = Arc::clone(&shared);
    let second = Arc::clone(&shared);
    let a = first.lock().unwrap().submit_cmd(GpuCmd::ResourceCreate2d, DISPLAY_QUEUE).unwrap();
    let b = second.lock().unwrap().submit_cmd(GpuCmd::ResourceCreate2d, DISPLAY_QUEUE).unwrap();
    assert_ne!(a, b);
    let mut ids = vec![a, b];
    ids.sort();
    assert_eq!(ids, vec![1, 2]);
    let d = shared.lock().unwrap();
    assert_eq!(d.queue_len(DISPLAY_QUEUE), Some(2));
    assert_eq!(d.status(1), Ok(JobState::Submitted));
    assert_eq!(d.status(2), Ok(JobState::Submitted));
}

#[test]
fn oversized_buffer_rejected_without_submission() {
    let mut d = ready_driver();
    let buffer = vec![0u8; 2 * 1024 * 1024];
    assert_eq!(d.render_safe(&buffer, CMD_RESOURCE_CREATE_2D), Err(GpuError::BufferTooLarge));
    for q in 0..3 {
        assert_eq!(d.queue_len(q), Some(0));
    }
    assert_eq!(d.status(1), Err(GpuError::UnknownJob));
}

#[test]
fn oversized_buffer_rejected_before_ready() {
    let mut d = VirtGpuDriver::init();
    let buffer = vec![0u8; MAX_BUFFER_SIZE + 1];
    assert_eq!(d.render_safe(&buffer, CMD_RESOURCE_CREATE_2D), Err(GpuError::BufferTooLarge));
}

#[test]
fn buffer_at_limit_is_accepted() {
    let mut d = ready_driver();
    let buffer = vec![7u8; MAX_BUFFER_SIZE];
    assert_eq!(d.render_safe(&buffer, CMD_RESOURCE_CREATE_2D), Ok(1));
    assert_eq!(d.queue_len(DISPLAY_QUEUE), Some(1));
}

#[test]
fn invalid_queue_rejected_without_mutation() {
    let mut d = ready_driver();
    for q in [3usize, 4, 100, usize::MAX] {
        assert_eq!(d.submit_cmd(GpuCmd::GetDisplayInfo, q), Err(GpuError::InvalidQueue));
    }
    for q in 0..3 {
        assert_eq!(d.queue_len(q), Some(0));
    }
    assert_eq!(d.queue_len(3), None);
    assert_eq!(d.status(1), Err(GpuError::UnknownJob));
    assert_eq!(d.submit_cmd(GpuCmd::GetDisplayInfo, CURSOR_QUEUE), Ok(1));
}

#[test]
fn not_initialized_rejects_submit_and_render() {
    let mut d = VirtGpuDriver::init();
    assert!(!d.is_ready());
    for q in 0..5 {
        assert_eq!(d.submit_cmd(GpuCmd::GetDisplayInfo, q), Err(GpuError::NotInitialized));
    }
    assert_eq!(d.render_safe(&[1, 2, 3], CMD_RESOURCE_CREATE_2D), Err(GpuError::NotInitialized));
    assert_eq!(d.render_safe(&[], 0xdead), Err(GpuError::NotInitialized));
    assert_eq!(d.queue_len(DISPLAY_QUEUE), Some(0));
}

#[test]
fn job_ids_increase_across_queues() {
    let mut d = ready_driver();
    let mut last = 0usize;
    for i in 0..9usize {
        let id = d.submit_cmd(GpuCmd::GetDisplayInfo, i % 3).unwrap();
        assert!(id > last);
        last = id;
    }
    assert_eq!(last, 9);
    assert_eq!(d.on_completion(1, None), Ok(2));
    assert_eq!(d.submit_cmd(GpuCmd::ResourceUnref, 1), Ok(10));
}

#[test]
fn unknown_job_status() {
    let mut d = ready_driver();
    assert_eq!(d.status(0), Err(GpuError::UnknownJob));
    assert_eq!(d.status(1), Err(GpuError::UnknownJob));
    d.submit_cmd(GpuCmd::GetDisplayInfo, 0).unwrap();
    assert_eq!(d.status(2), Err(GpuError::UnknownJob));
    assert_eq!(d.status(usize::MAX), Err(GpuError::UnknownJob));
}

#[test]
fn queue_full_after_capacity() {
    let mut d = ready_driver();
    for i in 0..QUEUE_CAPACITY {
        assert_eq!(d.submit_cmd(GpuCmd::ResourceCreate2d, DISPLAY_QUEUE), Ok(i + 1));
    }
    assert_eq!(d.submit_cmd(GpuCmd::ResourceCreate2d, DISPLAY_QUEUE), Err(GpuError::QueueFull));
    assert_eq!(d.status(QUEUE_CAPACITY + 1), Err(GpuError::UnknownJob));
    assert_eq!(d.submit_cmd(GpuCmd::ResourceCreate2d, CONTROL_QUEUE), Ok(QUEUE_CAPACITY + 1));
    assert_eq!(d.on_completion(DISPLAY_QUEUE, None), Ok(1));
    assert_eq!(d.submit_cmd(GpuCmd::ResourceCreate2d, DISPLAY_QUEUE), Ok(QUEUE_CAPACITY + 2));
}

#[test]
fn completions_follow_submission_order() {
    let mut d = ready_driver();
    assert_eq!(d.submit_cmd(GpuCmd::ResourceCreate2d, DISPLAY_QUEUE), Ok(1));
    assert_eq!(d.submit_cmd(GpuCmd::GetDisplayInfo, CONTROL_QUEUE), Ok(2));
    assert_eq!(d.submit_cmd(GpuCmd::ResourceCreate2d, DISPLAY_QUEUE), Ok(3));
    assert_eq!(d.on_completion(DISPLAY_QUEUE, Some(5)), Ok(1));
    assert_eq!(d.on_completion(DISPLAY_QUEUE, None), Ok(3));
    assert_eq!(d.status(1), Ok(JobState::Failed(5)));
    assert_eq!(d.status(2), Ok(JobState::Submitted));
    assert_eq!(d.status(3), Ok(JobState::Completed));
    assert_eq!(d.on_completion(DISPLAY_QUEUE, None), Err(GpuError::UnknownJob));
    assert_eq!(d.on_completion(3, None), Err(GpuError::InvalidQueue));
}

#[test]
fn render_safe_routes_and_validates_commands() {
    let mut d = ready_driver();
    assert_eq!(d.render_safe(&[], CMD_GET_DISPLAY_INFO), Ok(1));
    assert_eq!(d.queue_len(CONTROL_QUEUE), Some(1));
    assert_eq!(d.render_safe(&[1], CMD_RESOURCE_CREATE_2D), Ok(2));
    assert_eq!(d.queue_len(DISPLAY_QUEUE), Some(1));
    assert_eq!(d.render_safe(&[1], CMD_RESOURCE_UNREF), Err(GpuError::UnsupportedCommand));
    assert_eq!(d.render_safe(&[1], 0x0200), Err(GpuError::UnsupportedCommand));
    assert_eq!(d.render_safe(&[], CMD_RESOURCE_CREATE_2D), Err(GpuError::UnsupportedCommand));
    assert_eq!(d.status(3), Err(GpuError::UnknownJob));
}

#[test]
fn command_codes_round_trip() {
    for cmd in [GpuCmd::GetDisplayInfo, GpuCmd::ResourceCreate2d, GpuCmd::ResourceUnref] {
        assert_eq!(GpuCmd::from_tag(cmd.code()), Some(cmd));
    }
    assert_eq!(GpuCmd::GetDisplayInfo.code(), 0x0100);
    assert_eq!(GpuCmd::from_tag(0), None);
    assert!(!GpuCmd::ResourceUnref.allowed_through_gate());
    assert_eq!(GpuCmd::ResourceCreate2d.gate_queue(), DISPLAY_QUEUE);
}

#[test]
fn probe_matches_vendor_and_device() {
    let ok = DeviceIdentity { vendor_id: VIRTIO_GPU_VENDOR_ID, device_id: VIRTIO_GPU_DEVICE_ID };
    assert!(VirtGpuDriver::probe(&ok));
    assert!(VirtGpuDriver::probe(&DeviceIdentity { vendor_id: 0x1AF4, device_id: 0x1050 }));
    assert!(!VirtGpuDriver::probe(&DeviceIdentity { vendor_id: 0x1AF4, device_id: 0x1000 }));
    assert!(!VirtGpuDriver::probe(&DeviceIdentity { vendor_id: 0x8086, device_id: 0x1050 }));
}

#[test]
fn mark_ready_keeps_supported_features_once() {
    let mut d = VirtGpuDriver::init();
    assert_eq!(d.features().bits(), 0);
    d.mark_ready(VirtGpuFeatures::from_bits_truncate(VIRTIO_GPU_F_EDID | 0x100));
    assert!(d.is_ready());
    assert_eq!(d.features().bits(), VIRTIO_GPU_F_EDID);
    d.mark_ready(VirtGpuFeatures::from_bits_truncate(SUPPORTED_FEATURES));
    assert_eq!(d.features().bits(), VIRTIO_GPU_F_EDID);
    let all = VirtGpuFeatures::from_bits_truncate(u64::MAX);
    assert_eq!(all.bits(), 7);
    assert!(all.contains(VirtGpuFeatures::from_bits_truncate(VIRTIO_GPU_F_VIRGL)));
    assert!(!d.features().contains(all));
}

#[test]
fn security_layer_accepts_proofs() {
    init();
    assert!(zk_verify(&[]));
    assert!(zk_verify(&[1, 2, 3]));
}
