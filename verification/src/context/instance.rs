//! The API instance.

use ash::vk;
use ash::LoadingError;
use vstd::prelude::*;

use super::extensions;

verus! {

/// The API version the renderer is written against: 1.3.
pub const VK_API_VERSION: u32 = 0x0040_3000;

/// `ash::vk::API_VERSION_1_3`. Trusted: that `ash` packs version 1.3.0 of
/// variant 0 as major version shifted by 22 bits, minor by 12.
#[verifier::external_body]
fn ash_api_version() -> (version: u32)
    ensures
        version == VK_API_VERSION,
{
    vk::API_VERSION_1_3
}

/// The API version the renderer is written against.
pub fn api_version() -> (version: u32)
    ensures
        version == VK_API_VERSION,
{
    ash_api_version()
}

/// An API instance, by its raw handle.
#[derive(Clone, Copy, Debug, PartialEq, Eq, Structural)]
pub struct Instance {
    pub handle: u64,
}

/// What creating the instance takes.
#[derive(Debug, PartialEq, Eq)]
pub struct InstanceCreateInfo {
    pub application_name: String,
    pub api_version: u32,
    pub enabled_extension_names: Vec<String>,
}

/// Why there is no instance.
#[derive(Debug)]
pub enum InstanceError {
    /// The driver could not be loaded.
    LoadEntry(LoadingError),
    /// The driver refused to create the instance.
    Create(vk::Result),
}

/// The name the renderer gives itself towards the driver.
pub fn application_name() -> (name: &'static str)
    ensures
        name@ == "RAYGE Renderer"@,
{
    "RAYGE Renderer"
}

impl Instance {
    /// What creating the instance takes: the renderer's name, the API version
    /// and the required instance extensions.
    pub fn create_info() -> (info: InstanceCreateInfo)
        ensures
            info.application_name@ == "RAYGE Renderer"@,
            info.api_version == VK_API_VERSION,
            extensions::spells(
                info.enabled_extension_names@,
                extensions::instance::spec_required(),
            ),
    {
        InstanceCreateInfo {
            application_name: application_name().to_owned(),
            api_version: api_version(),
            enabled_extension_names: extensions::instance::required(),
        }
    }

    /// Takes over the instance the driver created, or says why there is none:
    /// the entry points did not load, or the driver refused.
    ///
    /// `created` is what creating the instance came to; it is there where the
    /// entry points loaded, since only then creation is attempted.
    pub fn new(
        loaded: Result<(), LoadingError>,
        created: Option<Result<u64, vk::Result>>,
    ) -> (instance: Result<Self, InstanceError>)
        requires
            loaded.is_ok() ==> created.is_some(),
        ensures
            instance == match loaded {
                Err(e) => Err::<Self, InstanceError>(InstanceError::LoadEntry(e)),
                Ok(_) => match created.unwrap() {
                    Err(code) => Err(InstanceError::Create(code)),
                    Ok(handle) => Ok(Instance { handle }),
                },
            },
    {
        match loaded {
            Err(e) => Err(InstanceError::LoadEntry(e)),
            Ok(_) => match created.unwrap() {
                Err(code) => Err(InstanceError::Create(code)),
                Ok(handle) => Ok(Instance { handle }),
            },
        }
    }
}

} // verus!
