//! The rendering context: instance, adapter, device and surface.

pub mod device;
pub mod extensions;
pub mod features;
pub mod instance;
pub mod physical_device;
pub mod properties;
pub mod queue;
pub mod surface;

use ash::vk;
use vstd::prelude::*;

use crate::destroy::Command;

verus! {

/// The rendering context: what was acquired, in the order of acquisition,
/// to render to a window.
#[derive(Clone, Copy, Debug, PartialEq, Eq, Structural)]
pub struct Context {
    pub device: device::Device,
    pub surface: surface::Surface,
    pub physical_device: physical_device::PhysicalDevice,
    pub instance: instance::Instance,
}

/// Why there is no context, or why it could not be used.
#[derive(Debug)]
pub enum Error {
    Instance(instance::InstanceError),
    PhysicalDevice(physical_device::PhysicalDeviceError),
    Surface(surface::Error),
    Device(device::Error),
}

impl Context {
    /// What the four stages of acquisition come to together: the context,
    /// or the error of the first stage that failed.
    pub open spec fn acquired(
        instance: Result<instance::Instance, instance::InstanceError>,
        surface_handle: Option<Result<surface::Handle, surface::Error>>,
        selected: Option<
            Result<
                (physical_device::PhysicalDevice, surface::Config),
                physical_device::PhysicalDeviceError,
            >,
        >,
        device: Option<Result<device::Device, device::Error>>,
    ) -> Result<Self, Error> {
        match instance {
            Err(e) => Err(Error::Instance(e)),
            Ok(instance) => match surface_handle.unwrap() {
                Err(e) => Err(Error::Surface(e)),
                Ok(handle) => match selected.unwrap() {
                    Err(e) => Err(Error::PhysicalDevice(e)),
                    Ok((physical_device, config)) => match device.unwrap() {
                        Err(e) => Err(Error::Device(e)),
                        Ok(device) => Ok(
                            Context {
                                device,
                                surface: surface::Surface { config, handle },
                                physical_device,
                                instance,
                            },
                        ),
                    },
                },
            },
        }
    }

    /// Puts the context together from what its four stages came to: the
    /// instance, the surface of the window, the selection of the adapter with
    /// the configuration negotiated for it, and the device.
    ///
    /// A stage is attempted where all before it succeeded, and what it came
    /// to is there where it was attempted. The error of the first stage that
    /// failed is the error of the whole.
    pub fn new(
        instance: Result<instance::Instance, instance::InstanceError>,
        surface_handle: Option<Result<surface::Handle, surface::Error>>,
        selected: Option<
            Result<
                (physical_device::PhysicalDevice, surface::Config),
                physical_device::PhysicalDeviceError,
            >,
        >,
        device: Option<Result<device::Device, device::Error>>,
    ) -> (context: Result<Self, Error>)
        requires
            instance.is_ok() ==> surface_handle.is_some(),
            instance.is_ok() && (surface_handle matches Some(Ok(_))) ==> selected.is_some(),
            instance.is_ok() && (surface_handle matches Some(Ok(_))) && (selected matches Some(
                Ok(_),
            )) ==> device.is_some(),
        ensures
            context == Self::acquired(instance, surface_handle, selected, device),
    {
        let instance = match instance {
            Ok(instance) => instance,
            Err(e) => { return Err(Error::Instance(e)); },
        };
        let surface_handle = match surface_handle.unwrap() {
            Ok(handle) => handle,
            Err(e) => { return Err(Error::Surface(e)); },
        };
        let (physical_device, surface_config) = match selected.unwrap() {
            Ok(found) => found,
            Err(e) => { return Err(Error::PhysicalDevice(e)); },
        };
        let surface = surface::Surface::new(surface_config, surface_handle);
        let device = match device.unwrap() {
            Ok(device) => device,
            Err(e) => { return Err(Error::Device(e)); },
        };
        Ok(Context { device, surface, physical_device, instance })
    }

    /// Brings the surface's extent up to date with what the surface now
    /// reports; see [`surface::Surface::refresh_capabilities`].
    pub fn refresh_surface_capabilities(
        &mut self,
        capabilities: Result<surface::SurfaceCapabilities, vk::Result>,
        requested: surface::Extent2D,
    ) -> (usable: Result<bool, Error>)
        requires
            capabilities matches Ok(c) ==> c.has_ordered_bounds(),
        ensures
            match capabilities {
                Ok(c) => usable == Ok::<bool, Error>(c.chosen_extent(requested).is_usable())
                    && *final(self) == old(self).with_extent(c.chosen_extent(requested)),
                Err(code) => usable == Err::<bool, Error>(
                    Error::Surface(surface::Error::GetConfigOptions(code)),
                ) && *final(self) == *old(self),
            },
    {
        match self.surface.refresh_capabilities(capabilities, requested) {
            Ok(usable) => Ok(usable),
            Err(e) => Err(Error::Surface(e)),
        }
    }

    /// This context with another extent negotiated for its surface.
    pub open spec fn with_extent(self, extent: surface::Extent2D) -> Self {
        Context {
            surface: surface::Surface {
                config: surface::Config { extent, ..self.surface.config },
                ..self.surface
            },
            ..self
        }
    }

    /// The commands that give the context up, in the reverse of the order
    /// of acquisition: the allocator and the device, the surface, the
    /// instance.
    pub open spec fn releases(&self) -> Seq<Command> {
        seq![
            Command::DestroyAllocator,
            Command::DestroyDevice,
            Command::DestroySurface(self.surface.handle.surface),
            Command::DestroyInstance,
        ]
    }

    /// Lists the commands that give the context up.
    pub fn teardown(&self) -> (commands: Vec<Command>)
        ensures
            commands@ == self.releases(),
    {
        let mut commands: Vec<Command> = Vec::new();
        commands.push(Command::DestroyAllocator);
        commands.push(Command::DestroyDevice);
        commands.push(Command::DestroySurface(self.surface.handle.surface));
        commands.push(Command::DestroyInstance);
        commands
    }
}

} // verus!
