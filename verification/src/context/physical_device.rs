//! The adapter: which one of those the driver offers the renderer runs on.

use ash::vk;
use vstd::prelude::*;

use super::extensions;
use super::features;
use super::features::Features;
use super::properties::Properties;
use super::surface;
use super::surface::{Config, Extent2D, PresentMode, SurfaceCapabilities, SurfaceFormat};

verus! {

/// The selected adapter, by its raw handle, and its cached properties.
#[derive(Clone, Copy, Debug, PartialEq, Eq, Structural)]
pub struct PhysicalDevice {
    pub properties: Properties,
    pub handle: u64,
}

/// What the driver and the surface report of one adapter.
#[derive(Debug)]
pub struct Candidate {
    /// The adapter's raw handle.
    pub handle: u64,
    /// The listing of its device extensions: each entry its name, or nothing
    /// where the driver's text does not end.
    pub extensions: Result<Vec<Option<String>>, vk::Result>,
    pub features: Features,
    pub capabilities: Result<SurfaceCapabilities, vk::Result>,
    pub surface_formats: Result<Vec<SurfaceFormat>, vk::Result>,
    pub present_modes: Result<Vec<PresentMode>, vk::Result>,
    pub properties: Properties,
}

/// Why no adapter was selected.
#[derive(Debug)]
pub enum PhysicalDeviceError {
    /// The driver failed to list the adapters.
    Enumerate(vk::Result),
    DeviceExtensions(extensions::device::Error),
    Surface(surface::Error),
    /// No adapter passed all three gates.
    NoSuitableCandidate,
}

impl Candidate {
    /// Whether the trial of this adapter gets as far as the surface: the
    /// adapter passes the gates of extensions and features.
    pub open spec fn reaches_surface(&self) -> bool {
        &&& extensions::device::spec_supported_by(self.extensions) == Ok::<
            bool,
            extensions::device::Error,
        >(true)
        &&& self.features.suffice()
    }

    /// Whether this adapter can be tried: where its trial gets as far as
    /// choosing an extent, the bounds of the extent are ordered; see
    /// [`SurfaceCapabilities::has_ordered_bounds`].
    pub open spec fn negotiable(&self) -> bool {
        self.reaches_surface() && surface::Handle::chooses_extent(
            self.capabilities,
            self.surface_formats,
            self.present_modes,
        ) ==> self.capabilities.unwrap().has_ordered_bounds()
    }

    /// Whether this adapter can be tried.
    pub fn is_negotiable(&self) -> (possible: bool)
        ensures
            possible == self.negotiable(),
    {
        match extensions::device::supported_by(&self.extensions) {
            Ok(true) => {},
            _ => { return true; },
        }
        if !features::supported_by(&self.features) {
            return true;
        }
        surface::Handle::can_negotiate(
            &self.capabilities,
            &self.surface_formats,
            &self.present_modes,
        )
    }

    /// What trying this adapter comes to, for a window of extent `requested`.
    ///
    /// The gates apply in order: the required device extensions, the required
    /// features, the negotiation with the surface. A gate that is not passed
    /// ends the trial without an adapter; one whose report failed ends it with
    /// that error; later gates are then not looked at.
    pub open spec fn tried(&self, requested: Extent2D) -> Result<
        Option<(PhysicalDevice, Config)>,
        PhysicalDeviceError,
    > {
        match extensions::device::spec_supported_by(self.extensions) {
            Err(e) => Err(PhysicalDeviceError::DeviceExtensions(e)),
            Ok(false) => Ok(None),
            Ok(true) => if !self.features.suffice() {
                Ok(None)
            } else {
                match surface::Handle::spec_get_config(
                    self.capabilities,
                    self.surface_formats,
                    self.present_modes,
                    requested,
                ) {
                    Err(e) => Err(PhysicalDeviceError::Surface(e)),
                    Ok(None) => Ok(None),
                    Ok(Some(config)) => Ok(
                        Some(
                            (
                                PhysicalDevice { properties: self.properties, handle: self.handle },
                                config,
                            ),
                        ),
                    ),
                }
            },
        }
    }
}

/// What selection comes to over the adapters from `from` on: the outcome of
/// the first trial that ends with an adapter or an error.
pub open spec fn first_fit(candidates: Seq<Candidate>, from: int, requested: Extent2D) -> Result<
    (PhysicalDevice, Config),
    PhysicalDeviceError,
>
    decreases candidates.len() - from,
{
    if from < 0 || from >= candidates.len() {
        Err(PhysicalDeviceError::NoSuitableCandidate)
    } else {
        match candidates[from].tried(requested) {
            Err(e) => Err(e),
            Ok(Some(found)) => Ok(found),
            Ok(None) => first_fit(candidates, from + 1, requested),
        }
    }
}

/// Whether selection can be carried out over the adapters from `from` on:
/// every adapter that selection gets to can be tried. Selection gets to an
/// adapter where every trial before it ended without an adapter and without
/// an error.
pub open spec fn selectable(candidates: Seq<Candidate>, from: int, requested: Extent2D) -> bool
    decreases candidates.len() - from,
{
    if from < 0 || from >= candidates.len() {
        true
    } else {
        &&& candidates[from].negotiable()
        &&& candidates[from].tried(requested) == Ok::<
            Option<(PhysicalDevice, Config)>,
            PhysicalDeviceError,
        >(None) ==> selectable(candidates, from + 1, requested)
    }
}

impl PhysicalDevice {
    /// Whether selection can be carried out over these adapters: see
    /// [`selectable`]. Over a listing that failed it always can.
    pub fn can_select(
        surface: &surface::Handle,
        candidates: &Result<Vec<Candidate>, vk::Result>,
        requested: Extent2D,
    ) -> (possible: bool)
        ensures
            possible == (candidates matches Ok(list) ==> selectable(list@, 0, requested)),
    {
        let list = match candidates {
            Ok(list) => list,
            Err(_) => { return true; },
        };
        let mut i: usize = 0;
        while i < list.len()
            invariant
                i <= list.len(),
                *candidates == Ok::<Vec<Candidate>, vk::Result>(*list),
                selectable(list@, 0, requested) == selectable(list@, i as int, requested),
            decreases list.len() - i,
        {
            if !list[i].is_negotiable() {
                return false;
            }
            match Self::try_create(surface, &list[i], requested) {
                Ok(None) => {},
                _ => { return true; },
            }
            i += 1;
        }
        true
    }

    /// Selects the adapter to run on: the first, in the order the driver lists
    /// them, that passes all gates. Adapters are not compared with each other.
    ///
    /// A listing that failed is an error; so is a failed report of an adapter
    /// that is tried before one passes. Where none passes there is no suitable
    /// candidate.
    pub fn new(
        surface: &surface::Handle,
        candidates: &Result<Vec<Candidate>, vk::Result>,
        requested: Extent2D,
    ) -> (selected: Result<(Self, Config), PhysicalDeviceError>)
        requires
            candidates matches Ok(list) ==> selectable(list@, 0, requested),
        ensures
            selected == match *candidates {
                Err(code) => Err::<(Self, Config), PhysicalDeviceError>(
                    PhysicalDeviceError::Enumerate(code),
                ),
                Ok(list) => first_fit(list@, 0, requested),
            },
    {
        let possible_physical_devices = match candidates {
            Ok(list) => list,
            Err(code) => { return Err(PhysicalDeviceError::Enumerate(*code)); },
        };
        let mut i: usize = 0;
        while i < possible_physical_devices.len()
            invariant
                i <= possible_physical_devices.len(),
                *candidates == Ok::<Vec<Candidate>, vk::Result>(*possible_physical_devices),
                selectable(possible_physical_devices@, i as int, requested),
                first_fit(possible_physical_devices@, 0, requested) == first_fit(
                    possible_physical_devices@,
                    i as int,
                    requested,
                ),
            decreases possible_physical_devices.len() - i,
        {
            match Self::try_create(surface, &possible_physical_devices[i], requested) {
                Err(e) => { return Err(e); },
                Ok(Some(result)) => { return Ok(result); },
                Ok(None) => {},
            }
            i += 1;
        }
        Err(PhysicalDeviceError::NoSuitableCandidate)
    }

    /// Tries one adapter: see [`Candidate::tried`].
    pub fn try_create(
        surface: &surface::Handle,
        candidate: &Candidate,
        requested: Extent2D,
    ) -> (found: Result<Option<(Self, Config)>, PhysicalDeviceError>)
        requires
            candidate.negotiable(),
        ensures
            found == candidate.tried(requested),
    {
        match extensions::device::supported_by(&candidate.extensions) {
            Err(e) => { return Err(PhysicalDeviceError::DeviceExtensions(e)); },
            Ok(false) => { return Ok(None); },
            Ok(true) => {},
        }
        if !features::supported_by(&candidate.features) {
            return Ok(None);
        }
        match surface.get_config(
            &candidate.capabilities,
            &candidate.surface_formats,
            &candidate.present_modes,
            requested,
        ) {
            Err(e) => Err(PhysicalDeviceError::Surface(e)),
            Ok(None) => Ok(None),
            Ok(Some(surface_config)) => {
                let physical_device = PhysicalDevice {
                    properties: candidate.properties,
                    handle: candidate.handle,
                };
                Ok(Some((physical_device, surface_config)))
            },
        }
    }
}

/// Where every adapter lists its extensions without error and none passes
/// the feature gate, there is no suitable candidate, whatever the surface
/// reports.
pub proof fn lemma_insufficient_features_never_selected(
    candidates: Seq<Candidate>,
    from: int,
    requested: Extent2D,
)
    requires
        forall|i: int|
            0 <= i < candidates.len() ==> extensions::device::spec_supported_by(
                (#[trigger] candidates[i]).extensions,
            ).is_ok() && !candidates[i].features.suffice(),
    ensures
        first_fit(candidates, from, requested) == Err::<
            (PhysicalDevice, Config),
            PhysicalDeviceError,
        >(PhysicalDeviceError::NoSuitableCandidate),
    decreases candidates.len() - from,
{
    if 0 <= from < candidates.len() {
        lemma_insufficient_features_never_selected(candidates, from + 1, requested);
    }
}

/// Selection is first fit: an adapter that passes all gates is selected where
/// every adapter listed before it ends its trial without an adapter and
/// without an error.
pub proof fn lemma_first_fit_selects(candidates: Seq<Candidate>, i: int, requested: Extent2D)
    requires
        0 <= i < candidates.len(),
        candidates[i].tried(requested) matches Ok(Some(_)),
        forall|j: int|
            0 <= j < i ==> (#[trigger] candidates[j]).tried(requested) == Ok::<
                Option<(PhysicalDevice, Config)>,
                PhysicalDeviceError,
            >(None),
    ensures
        first_fit(candidates, 0, requested) == Ok::<(PhysicalDevice, Config), PhysicalDeviceError>(
            candidates[i].tried(requested).unwrap().unwrap(),
        ),
{
    lemma_first_fit_from(candidates, 0, i, requested);
}

/// The step of [`lemma_first_fit_selects`] from any place up to the adapter
/// that passes.
proof fn lemma_first_fit_from(candidates: Seq<Candidate>, from: int, i: int, requested: Extent2D)
    requires
        0 <= from <= i < candidates.len(),
        candidates[i].tried(requested) matches Ok(Some(_)),
        forall|j: int|
            from <= j < i ==> (#[trigger] candidates[j]).tried(requested) == Ok::<
                Option<(PhysicalDevice, Config)>,
                PhysicalDeviceError,
            >(None),
    ensures
        first_fit(candidates, from, requested) == Ok::<
            (PhysicalDevice, Config),
            PhysicalDeviceError,
        >(candidates[i].tried(requested).unwrap().unwrap()),
    decreases i - from,
{
    if from < i {
        lemma_first_fit_from(candidates, from + 1, i, requested);
    }
}

} // verus!
