//! Tests for device queries.

use purr_core::dev::{Device, DeviceType, FeatureStatus, SystemCapabilities, SystemInfo};

fn device(id: i32, tpe: DeviceType) -> Device {
    Device {
        id,
        name: format!("device-{}", id),
        description: "probed".to_string(),
        vram_free: 256,
        vram_total: 1024,
        tpe,
        caps: None,
    }
}

fn info() -> SystemInfo {
    SystemInfo {
        vulkan_available: FeatureStatus::Disabled,
        cuda_available: FeatureStatus::EnabledButNotAvailable,
        coreml_available: FeatureStatus::Disabled,
        metal_available: FeatureStatus::Available(Some(1)),
        system_info: SystemCapabilities { avx: true, avx2: true, fma: false, f16c: false },
        devices: vec![
            device(0, DeviceType::Cpu),
            device(1, DeviceType::Gpu),
            device(2, DeviceType::Accel),
            device(3, DeviceType::Gpu),
        ],
    }
}

#[test]
fn test_device_filters() {
    let info = info();
    let accel: Vec<i32> = info.devices_can_accelerate().iter().map(|d| d.id).collect();
    assert_eq!(accel, vec![1, 2, 3]);
    let gpus: Vec<i32> = info.gpus().iter().map(|d| d.id).collect();
    assert_eq!(gpus, vec![1, 3]);
    let accels: Vec<i32> = info.accelerators_exclude_cpu().iter().map(|d| d.id).collect();
    assert_eq!(accels, vec![2]);
    let cpus: Vec<i32> = info.cpus().iter().map(|d| d.id).collect();
    assert_eq!(cpus, vec![0]);
}

#[test]
fn test_device_type_from_repr() {
    assert_eq!(DeviceType::from_repr(0), Some(DeviceType::Cpu));
    assert_eq!(DeviceType::from_repr(1), Some(DeviceType::Gpu));
    assert_eq!(DeviceType::from_repr(2), Some(DeviceType::Accel));
    assert_eq!(DeviceType::from_repr(3), None);
}
