//! Device and capability information for acceleration: which backends
//! are available, what the CPU supports, and which devices can run
//! inference. Probing the hardware is the embedding application's job;
//! the queries over the probed data live here.

use vstd::prelude::*;

verus! {

/// Availability of one acceleration backend.
#[derive(Debug, Clone, Copy, PartialEq, Eq, PartialOrd, Ord)]
pub enum FeatureStatus {
    /// The backend was not compiled in.
    Disabled,
    /// The backend was compiled in but no device is available.
    EnabledButNotAvailable,
    /// The backend is available, with its device count when known.
    Available(Option<u8>),
}

/// CPU instruction-set capabilities relevant to inference.
#[derive(Debug, Clone, Copy, PartialEq, Eq, Structural)]
pub struct SystemCapabilities {
    /// AVX support.
    pub avx: bool,
    /// AVX2 support.
    pub avx2: bool,
    /// Fused multiply-add support.
    pub fma: bool,
    /// Half-precision conversion support.
    pub f16c: bool,
}

/// The kind of a compute device.
#[derive(Debug, Clone, Copy, PartialEq, Eq, Structural)]
pub enum DeviceType {
    /// A CPU device.
    Cpu,
    /// A GPU device.
    Gpu,
    /// A non-GPU accelerator (TPU, NPU).
    Accel,
}

impl DeviceType {
    /// The device type a backend reports under the given code: 0 is CPU,
    /// 1 is GPU, 2 is an accelerator, anything else is unknown.
    pub fn from_repr(code: u8) -> (r: Option<DeviceType>)
        ensures
            r == (if code == 0 {
                Some(DeviceType::Cpu)
            } else if code == 1 {
                Some(DeviceType::Gpu)
            } else if code == 2 {
                Some(DeviceType::Accel)
            } else {
                None::<DeviceType>
            }),
    {
        if code == 0 {
            Some(DeviceType::Cpu)
        } else if code == 1 {
            Some(DeviceType::Gpu)
        } else if code == 2 {
            Some(DeviceType::Accel)
        } else {
            None
        }
    }
}

/// Capabilities one device reports.
#[derive(Debug, Clone, Copy, PartialEq, Eq, Structural)]
pub struct DeviceCaps {
    /// Asynchronous operation support.
    pub async_support: bool,
    /// Host-buffer support.
    pub host_buffer: bool,
    /// Support for wrapping host pointers in buffers.
    pub buffer_from_host_ptr: bool,
    /// Event support.
    pub events: bool,
}

/// One compute device as probed from the inference backend.
#[derive(Debug)]
pub struct Device {
    /// Device index.
    pub id: i32,
    /// Device name.
    pub name: String,
    /// Device description.
    pub description: String,
    /// Free device memory in bytes.
    pub vram_free: usize,
    /// Total device memory in bytes.
    pub vram_total: usize,
    /// The kind of device.
    pub tpe: DeviceType,
    /// The device's capabilities, when reported.
    pub caps: Option<DeviceCaps>,
}

impl Clone for Device {
    fn clone(&self) -> (r: Self)
        ensures
            r == *self,
    {
        Device {
            id: self.id,
            name: self.name.clone(),
            description: self.description.clone(),
            vram_free: self.vram_free,
            vram_total: self.vram_total,
            tpe: self.tpe,
            caps: self.caps,
        }
    }
}

/// The devices capable of acceleration: GPUs and other accelerators.
pub open spec fn spec_accelerators(devices: Seq<Device>) -> Seq<Device> {
    devices.filter(|d: Device| d.tpe is Gpu || d.tpe is Accel)
}

/// The GPU devices.
pub open spec fn spec_gpus(devices: Seq<Device>) -> Seq<Device> {
    devices.filter(|d: Device| d.tpe is Gpu)
}

/// The non-GPU accelerator devices.
pub open spec fn spec_accels(devices: Seq<Device>) -> Seq<Device> {
    devices.filter(|d: Device| d.tpe is Accel)
}

/// The CPU devices.
pub open spec fn spec_cpus(devices: Seq<Device>) -> Seq<Device> {
    devices.filter(|d: Device| d.tpe is Cpu)
}

/// Acceleration status of the system: backend availability, CPU
/// capabilities, and the probed devices.
#[derive(Debug, Clone)]
pub struct SystemInfo {
    /// Vulkan backend availability.
    pub vulkan_available: FeatureStatus,
    /// CUDA backend availability.
    pub cuda_available: FeatureStatus,
    /// CoreML backend availability.
    pub coreml_available: FeatureStatus,
    /// Metal backend availability.
    pub metal_available: FeatureStatus,
    /// CPU capabilities.
    pub system_info: SystemCapabilities,
    /// The probed devices.
    pub devices: Vec<Device>,
}

impl SystemInfo {
    /// Returns the devices capable of acceleration, in probe order.
    pub fn devices_can_accelerate(&self) -> (r: Vec<Device>)
        ensures
            r@ == spec_accelerators(self.devices@),
    {
        let mut r: Vec<Device> = Vec::new();
        proof {
            reveal_with_fuel(Seq::<Device>::filter, 1);
        }
        let mut i: usize = 0;
        while i < self.devices.len()
            invariant
                i <= self.devices@.len(),
                r@ == spec_accelerators(self.devices@.take(i as int)),
            decreases self.devices@.len() - i,
        {
            let d = &self.devices[i];
            match d.tpe {
                DeviceType::Gpu => r.push(d.clone()),
                DeviceType::Accel => r.push(d.clone()),
                DeviceType::Cpu => {},
            }
            proof {
                reveal_with_fuel(Seq::<Device>::filter, 2);
                assert(self.devices@.take(i as int + 1).drop_last() =~= self.devices@.take(
                    i as int,
                ));
                assert(self.devices@.take(i as int + 1).last() == self.devices@[i as int]);
            }
            i = i + 1;
        }
        proof {
            assert(self.devices@.take(self.devices@.len() as int) =~= self.devices@);
        }
        r
    }

    /// Returns the GPU devices, in probe order.
    pub fn gpus(&self) -> (r: Vec<Device>)
        ensures
            r@ == spec_gpus(self.devices@),
    {
        let mut r: Vec<Device> = Vec::new();
        proof {
            reveal_with_fuel(Seq::<Device>::filter, 1);
        }
        let mut i: usize = 0;
        while i < self.devices.len()
            invariant
                i <= self.devices@.len(),
                r@ == spec_gpus(self.devices@.take(i as int)),
            decreases self.devices@.len() - i,
        {
            let d = &self.devices[i];
            if let DeviceType::Gpu = d.tpe {
                r.push(d.clone());
            }
            proof {
                reveal_with_fuel(Seq::<Device>::filter, 2);
                assert(self.devices@.take(i as int + 1).drop_last() =~= self.devices@.take(
                    i as int,
                ));
                assert(self.devices@.take(i as int + 1).last() == self.devices@[i as int]);
            }
            i = i + 1;
        }
        proof {
            assert(self.devices@.take(self.devices@.len() as int) =~= self.devices@);
        }
        r
    }

    /// Returns the non-GPU accelerator devices, in probe order.
    pub fn accelerators_exclude_cpu(&self) -> (r: Vec<Device>)
        ensures
            r@ == spec_accels(self.devices@),
    {
        let mut r: Vec<Device> = Vec::new();
        proof {
            reveal_with_fuel(Seq::<Device>::filter, 1);
        }
        let mut i: usize = 0;
        while i < self.devices.len()
            invariant
                i <= self.devices@.len(),
                r@ == spec_accels(self.devices@.take(i as int)),
            decreases self.devices@.len() - i,
        {
            let d = &self.devices[i];
            if let DeviceType::Accel = d.tpe {
                r.push(d.clone());
            }
            proof {
                reveal_with_fuel(Seq::<Device>::filter, 2);
                assert(self.devices@.take(i as int + 1).drop_last() =~= self.devices@.take(
                    i as int,
                ));
                assert(self.devices@.take(i as int + 1).last() == self.devices@[i as int]);
            }
            i = i + 1;
        }
        proof {
            assert(self.devices@.take(self.devices@.len() as int) =~= self.devices@);
        }
        r
    }

    /// Returns the CPU devices, in probe order.
    pub fn cpus(&self) -> (r: Vec<Device>)
        ensures
            r@ == spec_cpus(self.devices@),
    {
        let mut r: Vec<Device> = Vec::new();
        proof {
            reveal_with_fuel(Seq::<Device>::filter, 1);
        }
        let mut i: usize = 0;
        while i < self.devices.len()
            invariant
                i <= self.devices@.len(),
                r@ == spec_cpus(self.devices@.take(i as int)),
            decreases self.devices@.len() - i,
        {
            let d = &self.devices[i];
            if let DeviceType::Cpu = d.tpe {
                r.push(d.clone());
            }
            proof {
                reveal_with_fuel(Seq::<Device>::filter, 2);
                assert(self.devices@.take(i as int + 1).drop_last() =~= self.devices@.take(
                    i as int,
                ));
                assert(self.devices@.take(i as int + 1).last() == self.devices@[i as int]);
            }
            i = i + 1;
        }
        proof {
            assert(self.devices@.take(self.devices@.len() as int) =~= self.devices@);
        }
        r
    }
}

} // verus!
