//! The logical device.

use ash::vk;
use vstd::prelude::*;

use super::extensions;
use super::features;
use super::features::Features;
use super::instance;
use super::queue;
use super::queue::{DeviceQueueCreateInfo, Families, FamilyProperties, QueueError, Queues};

verus! {

/// The logical device, by its raw handle, and its queues.
#[derive(Clone, Copy, Debug, PartialEq, Eq, Structural)]
pub struct Device {
    pub queues: Queues,
    pub handle: u64,
}

/// What creating the device takes.
#[derive(Debug, PartialEq, Eq)]
pub struct DeviceCreateInfo {
    pub queue_create_infos: Vec<DeviceQueueCreateInfo>,
    pub enabled_extension_names: Vec<String>,
    pub required_features: Features,
}

/// What creating the memory allocator of the device takes.
#[derive(Clone, Copy, Debug, PartialEq, Eq, Structural)]
pub struct AllocatorCreateInfo {
    pub vulkan_api_version: u32,
    /// The raw bits of `vk_mem::AllocatorCreateFlags`.
    pub flags: u32,
}

/// Why the device could not be created or used.
#[derive(Debug)]
pub enum Error {
    /// The driver refused to create the device.
    Create(vk::Result),
    Queue(QueueError),
    /// The memory allocator could not be created.
    Allocator(vk::Result),
    /// The driver refused a debug name.
    SetDebugName(vk::Result),
    /// Waiting for the device to go idle failed.
    WaitIdle(vk::Result),
}

/// The allocator's flags: dedicated allocations, binding with extension
/// chains, buffer device addresses, memory priorities.
pub const ALLOCATOR_FLAGS: u32 = 0x66;

/// The raw bits of `vk_mem::AllocatorCreateFlags` for `KHR_DEDICATED_ALLOCATION`,
/// `KHR_BIND_MEMORY2`, `BUFFER_DEVICE_ADDRESS` and `EXT_MEMORY_PRIORITY` together.
/// Trusted: that `vk-mem` gives them the bits 2, 4, 32 and 64.
#[verifier::external_body]
fn vma_allocator_flags() -> (flags: u32)
    ensures
        flags == ALLOCATOR_FLAGS,
{
    (vk_mem::AllocatorCreateFlags::KHR_DEDICATED_ALLOCATION
        | vk_mem::AllocatorCreateFlags::KHR_BIND_MEMORY2
        | vk_mem::AllocatorCreateFlags::BUFFER_DEVICE_ADDRESS
        | vk_mem::AllocatorCreateFlags::EXT_MEMORY_PRIORITY).bits()
}

impl Device {
    /// What creating the device on an adapter takes, given the queue families
    /// the adapter reports: the queues to create, one request for each family
    /// that was assigned a role; the required extensions; the required
    /// features. With it comes the assignment of the roles.
    ///
    /// Fails where the roles cannot be assigned.
    pub fn create_info(family_props: &Vec<FamilyProperties>) -> (info: Result<
        (DeviceCreateInfo, Families),
        Error,
    >)
        requires
            family_props.len() <= u32::MAX,
        ensures
            match queue::selection(family_props@) {
                Err(e) => info == Err::<(DeviceCreateInfo, Families), Error>(Error::Queue(e)),
                Ok(families) => info matches Ok((create_info, assigned)) && assigned == families
                    && create_info.queue_create_infos@ == Queues::requests(families)
                    && extensions::spells(
                    create_info.enabled_extension_names@,
                    extensions::device::spec_required(),
                ) && create_info.required_features == features::spec_required(),
            },
    {
        let (queue_create_infos, queue_families) = match Queues::create_infos(family_props) {
            Ok(infos) => infos,
            Err(e) => { return Err(Error::Queue(e)); },
        };
        let create_info = DeviceCreateInfo {
            queue_create_infos,
            enabled_extension_names: extensions::device::required(),
            required_features: features::required(),
        };
        Ok((create_info, queue_families))
    }

    /// What creating the memory allocator of the device takes.
    pub fn allocator_create_info() -> (info: AllocatorCreateInfo)
        ensures
            info == (AllocatorCreateInfo {
                vulkan_api_version: instance::VK_API_VERSION,
                flags: ALLOCATOR_FLAGS,
            }),
    {
        AllocatorCreateInfo {
            vulkan_api_version: instance::api_version(),
            flags: vma_allocator_flags(),
        }
    }

    /// Takes over the device the driver created, or says why there is none:
    /// the driver refused the device, or its allocator could not be created.
    ///
    /// `allocator` is what creating the allocator came to, and it is there
    /// where the device was created; `queues` are the queues of the device
    /// for graphics, compute and transfer, there where both were created.
    pub fn new(
        families: &Families,
        created: Result<u64, vk::Result>,
        allocator: Option<Result<(), vk::Result>>,
        queues: Option<(u64, u64, u64)>,
    ) -> (device: Result<Self, Error>)
        requires
            created.is_ok() ==> allocator.is_some(),
            created.is_ok() && (allocator matches Some(Ok(_))) ==> queues.is_some(),
        ensures
            device == match created {
                Err(code) => Err::<Self, Error>(Error::Create(code)),
                Ok(handle) => match allocator.unwrap() {
                    Err(code) => Err(Error::Allocator(code)),
                    Ok(_) => Ok(
                        Device {
                            queues: Queues {
                                graphics: queue::Queue {
                                    queue: queues.unwrap().0,
                                    family: families.graphics,
                                },
                                compute: queue::Queue {
                                    queue: queues.unwrap().1,
                                    family: families.compute,
                                },
                                transfer: queue::Queue {
                                    queue: queues.unwrap().2,
                                    family: families.transfer,
                                },
                            },
                            handle,
                        },
                    ),
                },
            },
    {
        let handle = match created {
            Ok(handle) => handle,
            Err(code) => { return Err(Error::Create(code)); },
        };
        match allocator.unwrap() {
            Ok(_) => {},
            Err(code) => { return Err(Error::Allocator(code)); },
        }
        let (graphics, compute, transfer) = queues.unwrap();
        let queues = Queues::new(families, graphics, compute, transfer);
        Ok(Device { queues, handle })
    }

    /// What giving an object its debug name came to, as an error of the device
    /// where it failed.
    pub fn set_debug_name(&self, named: Result<(), vk::Result>) -> (outcome: Result<(), Error>)
        ensures
            outcome == match named {
                Ok(_) => Ok::<(), Error>(()),
                Err(code) => Err(Error::SetDebugName(code)),
            },
    {
        match named {
            Ok(_) => Ok(()),
            Err(code) => Err(Error::SetDebugName(code)),
        }
    }

    /// What waiting for the device to go idle came to, as an error of the
    /// device where it failed.
    pub fn wait_idle(&self, waited: Result<(), vk::Result>) -> (outcome: Result<(), Error>)
        ensures
            outcome == match waited {
                Ok(_) => Ok::<(), Error>(()),
                Err(code) => Err(Error::WaitIdle(code)),
            },
    {
        match waited {
            Ok(_) => Ok(()),
            Err(code) => Err(Error::WaitIdle(code)),
        }
    }
}

} // verus!
