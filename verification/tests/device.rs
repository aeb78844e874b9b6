use gpucmd::device::{
    create_instance, create_logical_device, find_queue_family, select_device, HostDescription,
    PhysicalDeviceInfo, QueueCaps,
};
use gpucmd::error::GpuError;

fn caps(graphics: bool, compute: bool, transfer: bool) -> QueueCaps {
    QueueCaps {
        graphics,
        compute,
        transfer,
    }
}

fn one_device(families: Vec<QueueCaps>) -> PhysicalDeviceInfo {
    PhysicalDeviceInfo {
        queue_families: families,
        host_visible_memory: true,
        device_local_memory: true,
        memory_budget: 1 << 30,
    }
}

#[test]
fn instance_without_backend_fails() {
    let host = HostDescription {
        backend_present: false,
        devices: vec![],
    };
    assert_eq!(create_instance(host).err(), Some(GpuError::NoBackend));
}

#[test]
fn instance_with_backend_keeps_devices() {
    let host = HostDescription {
        backend_present: true,
        devices: vec![one_device(vec![caps(true, true, true)])],
    };
    let instance = create_instance(host).unwrap();
    assert_eq!(instance.devices.len(), 1);
}

#[test]
fn select_device_takes_first_enumerated() {
    let host = HostDescription {
        backend_present: true,
        devices: vec![
            one_device(vec![caps(true, false, false)]),
            one_device(vec![caps(false, true, false)]),
        ],
    };
    let instance = create_instance(host).unwrap();
    assert_eq!(select_device(&instance).unwrap(), 0);
}

#[test]
fn select_device_without_devices_fails() {
    let host = HostDescription {
        backend_present: true,
        devices: vec![],
    };
    let instance = create_instance(host).unwrap();
    assert_eq!(select_device(&instance).err(), Some(GpuError::NoDevice));
}

#[test]
fn queue_family_first_superset_wins() {
    let device = one_device(vec![
        caps(false, false, true),
        caps(false, true, false),
        caps(true, true, true),
        caps(true, true, false),
    ]);
    let wanted = QueueCaps {
        graphics: true,
        compute: false,
        transfer: false,
    };
    assert_eq!(find_queue_family(&device, wanted).unwrap(), 2);
}

#[test]
fn queue_family_graphics_serves_transfer() {
    // A family reporting graphics work serves transfers even without the
    // transfer flag set.
    let device = one_device(vec![caps(true, false, false)]);
    let wanted = QueueCaps {
        graphics: false,
        compute: false,
        transfer: true,
    };
    assert_eq!(find_queue_family(&device, wanted).unwrap(), 0);
}

#[test]
fn queue_family_without_capability_fails() {
    let device = one_device(vec![caps(true, false, false), caps(false, false, true)]);
    assert_eq!(
        find_queue_family(&device, QueueCaps::compute_only()).err(),
        Some(GpuError::NoCapableQueue)
    );
}

#[test]
fn error_messages_name_their_cause() {
    assert_eq!(
        GpuError::NoBackend.message(),
        "no compatible driver or runtime on this host"
    );
    assert_eq!(GpuError::Timeout.message(), "the wait elapsed before completion");
    assert!(GpuError::DeviceLost.message().contains("lost"));
}

#[test]
fn logical_device_on_reported_family() {
    let device = one_device(vec![caps(true, true, true)]);
    let ctx = create_logical_device(&device, 0).unwrap();
    assert_eq!(ctx.queue_family_index, 0);
    assert!(ctx.queue_caps.graphics);
    assert!(!ctx.lost);
}

#[test]
fn logical_device_on_unreported_family_fails() {
    let device = one_device(vec![caps(true, true, true)]);
    assert_eq!(
        create_logical_device(&device, 1).err(),
        Some(GpuError::DeviceCreationFailed)
    );
}
