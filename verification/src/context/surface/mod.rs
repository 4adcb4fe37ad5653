//! The presentation target and the configuration negotiated for it.

pub mod conf;

use ash::vk;
use raw_window_handle::HandleError;
use vstd::prelude::*;

verus! {

/// A width and a height in pixels.
#[derive(Clone, Copy, Debug, PartialEq, Eq, Structural)]
pub struct Extent2D {
    pub width: u32,
    pub height: u32,
}

/// A pixel format and a colour space, by the raw values of `ash::vk::Format`
/// and `ash::vk::ColorSpaceKHR`.
#[derive(Clone, Copy, Debug, PartialEq, Eq, Structural)]
pub struct SurfaceFormat {
    pub format: i32,
    pub color_space: i32,
}

/// A present mode, by the raw value of `ash::vk::PresentModeKHR`.
#[derive(Clone, Copy, Debug, PartialEq, Eq, Structural)]
pub struct PresentMode {
    pub raw: i32,
}

/// What a surface reports of itself for one adapter, as far as negotiation
/// reads it.
#[derive(Clone, Copy, Debug, PartialEq, Eq, Structural)]
pub struct SurfaceCapabilities {
    pub min_image_count: u32,
    /// The most images a chain may hold; 0 where there is no limit.
    pub max_image_count: u32,
    /// The extent the surface has; a width of [`UNDEFINED_EXTENT`] where the
    /// client decides.
    pub current_extent: Extent2D,
    pub min_image_extent: Extent2D,
    pub max_image_extent: Extent2D,
}

/// The negotiated configuration of a presentable image chain.
#[derive(Clone, Copy, Debug, PartialEq, Eq, Structural)]
pub struct Config {
    pub present_mode: PresentMode,
    pub extent: Extent2D,
    pub image_count: u32,
}

/// The windowing system a window handle belongs to, as far as surface
/// creation tells them apart.
#[derive(Clone, Copy, Debug, PartialEq, Eq, Structural)]
pub enum Platform {
    Win32 { hwnd: isize, hinstance: Option<isize> },
    Other,
}

/// What creating a surface for a Win32 window takes.
#[derive(Clone, Copy, Debug, PartialEq, Eq, Structural)]
pub struct Win32SurfaceCreateInfo {
    pub hwnd: isize,
    pub hinstance: isize,
}

/// Why a surface could not be created or queried.
#[derive(Debug)]
pub enum Error {
    /// The window gave no native handle.
    GetHandle(HandleError),
    /// The driver refused to create the surface.
    Create(vk::Result),
    /// No surface can be created for this windowing system.
    UnsupportedPlatform,
    /// The driver failed to report capabilities, formats, present modes or
    /// presentation support.
    GetConfigOptions(vk::Result),
}

/// The width by which a surface says that the client decides its extent.
pub const UNDEFINED_EXTENT: u32 = 0xFFFF_FFFF;

/// `value`, brought into the range from `min` to `max`.
pub open spec fn spec_clamp(value: u32, min: u32, max: u32) -> u32 {
    if value < min {
        min
    } else if value > max {
        max
    } else {
        value
    }
}

/// The greater of two counts.
pub open spec fn spec_max(a: u32, b: u32) -> u32 {
    if a >= b {
        a
    } else {
        b
    }
}

impl Extent2D {
    /// Whether neither side is zero: an image of this extent can be created.
    pub open spec fn spec_is_usable(&self) -> bool {
        self.width != 0 && self.height != 0
    }

    /// Whether neither side is zero: an image of this extent can be created.
    #[verifier::when_used_as_spec(spec_is_usable)]
    pub fn is_usable(&self) -> (usable: bool)
        ensures
            usable == self.spec_is_usable(),
    {
        self.width != 0 && self.height != 0
    }
}

impl SurfaceCapabilities {
    /// Whether the surface leaves its extent to the client.
    pub open spec fn client_decides_extent(&self) -> bool {
        self.current_extent.width == UNDEFINED_EXTENT
    }

    /// Whether an extent can be chosen: where the client decides, the least
    /// extent does not exceed the greatest on either side.
    pub open spec fn spec_has_ordered_bounds(&self) -> bool {
        self.client_decides_extent() ==> self.min_image_extent.width <= self.max_image_extent.width
            && self.min_image_extent.height <= self.max_image_extent.height
    }

    /// Whether an extent can be chosen from these capabilities.
    #[verifier::when_used_as_spec(spec_has_ordered_bounds)]
    pub fn has_ordered_bounds(&self) -> (ordered: bool)
        ensures
            ordered == self.spec_has_ordered_bounds(),
    {
        self.current_extent.width != UNDEFINED_EXTENT || (self.min_image_extent.width
            <= self.max_image_extent.width && self.min_image_extent.height
            <= self.max_image_extent.height)
    }

    /// The extent negotiated for a window of extent `requested`: the surface's
    /// own where it has one, else the window's, clamped side by side into what
    /// the surface supports.
    pub open spec fn chosen_extent(&self, requested: Extent2D) -> Extent2D {
        if self.client_decides_extent() {
            Extent2D {
                width: spec_clamp(
                    requested.width,
                    self.min_image_extent.width,
                    self.max_image_extent.width,
                ),
                height: spec_clamp(
                    requested.height,
                    self.min_image_extent.height,
                    self.max_image_extent.height,
                ),
            }
        } else {
            self.current_extent
        }
    }

    /// The image count negotiated: the preferred count, clamped into what the
    /// surface supports. Without an upper limit, or with one below the lower
    /// limit, it is the greater of preferred count and lower limit.
    pub open spec fn chosen_image_count(&self) -> u32 {
        if self.max_image_count == 0 || self.max_image_count < self.min_image_count {
            spec_max(conf::PREFERRED_IMAGE_COUNT, self.min_image_count)
        } else {
            spec_clamp(conf::PREFERRED_IMAGE_COUNT, self.min_image_count, self.max_image_count)
        }
    }
}

/// A presentation target, by the raw handle of its surface.
#[derive(Clone, Copy, Debug, PartialEq, Eq, Structural)]
pub struct Handle {
    pub surface: u64,
}

/// A presentation target together with the configuration negotiated for it.
#[derive(Clone, Copy, Debug, PartialEq, Eq, Structural)]
pub struct Surface {
    pub config: Config,
    pub handle: Handle,
}

/// What creating a surface for `window` takes, or why none can be created.
///
/// A window that gave no handle, or one of a windowing system other than
/// Win32, is refused. A Win32 window must come with its module instance.
pub fn create_surface(window: Result<Platform, HandleError>) -> (request: Result<
    Win32SurfaceCreateInfo,
    Error,
>)
    requires
        window matches Ok(Platform::Win32 { hwnd, hinstance }) ==> hinstance.is_some(),
    ensures
        match window {
            Err(e) => request == Err::<Win32SurfaceCreateInfo, Error>(Error::GetHandle(e)),
            Ok(Platform::Win32 { hwnd, hinstance }) => request == Ok::<
                Win32SurfaceCreateInfo,
                Error,
            >(Win32SurfaceCreateInfo { hwnd, hinstance: hinstance.unwrap() }),
            Ok(Platform::Other) => request == Err::<Win32SurfaceCreateInfo, Error>(
                Error::UnsupportedPlatform,
            ),
        },
{
    match window {
        Err(e) => Err(Error::GetHandle(e)),
        Ok(Platform::Win32 { hwnd, hinstance }) => Ok(
            Win32SurfaceCreateInfo { hwnd, hinstance: hinstance.unwrap() },
        ),
        Ok(Platform::Other) => Err(Error::UnsupportedPlatform),
    }
}

impl Handle {
    /// Takes over the surface the driver created, or says that it created none.
    pub fn new(created: Result<u64, vk::Result>) -> (handle: Result<Self, Error>)
        ensures
            match created {
                Ok(surface) => handle == Ok::<Self, Error>(Handle { surface }),
                Err(code) => handle == Err::<Self, Error>(Error::Create(code)),
            },
    {
        match created {
            Ok(surface) => Ok(Handle { surface }),
            Err(code) => Err(Error::Create(code)),
        }
    }

    /// The configuration negotiated with one adapter, from what the surface
    /// reported for it and the extent of the window.
    ///
    /// A report that failed is an error: the capabilities first, then the
    /// formats, then the present modes. An adapter that does not offer the
    /// renderer's format gets no configuration.
    pub fn get_config(
        &self,
        capabilities: &Result<SurfaceCapabilities, vk::Result>,
        surface_formats: &Result<Vec<SurfaceFormat>, vk::Result>,
        present_modes: &Result<Vec<PresentMode>, vk::Result>,
        requested: Extent2D,
    ) -> (config: Result<Option<Config>, Error>)
        requires
            Self::chooses_extent(*capabilities, *surface_formats, *present_modes)
                ==> capabilities.unwrap().has_ordered_bounds(),
        ensures
            config == Self::spec_get_config(
                *capabilities,
                *surface_formats,
                *present_modes,
                requested,
            ),
    {
        let capabilities = Self::get_capabilities(*capabilities)?;
        let surface_formats = match surface_formats {
            Ok(formats) => formats,
            Err(code) => { return Err(Error::GetConfigOptions(*code)); },
        };
        let present_modes = match present_modes {
            Ok(modes) => modes,
            Err(code) => { return Err(Error::GetConfigOptions(*code)); },
        };
        Ok(
            match Self::choose_best_surface_format(surface_formats) {
                Some(_) => {
                    let extent = Self::choose_extent(&capabilities, requested);
                    let image_count = Self::choose_image_count(&capabilities);
                    let present_mode = Self::choose_best_present_mode(present_modes);
                    Some(Config { present_mode, extent, image_count })
                },
                None => None,
            },
        )
    }

    /// Whether negotiation gets as far as choosing an extent: all three
    /// reports succeeded and the renderer's format is among those offered.
    pub open spec fn chooses_extent(
        capabilities: Result<SurfaceCapabilities, vk::Result>,
        surface_formats: Result<Vec<SurfaceFormat>, vk::Result>,
        present_modes: Result<Vec<PresentMode>, vk::Result>,
    ) -> bool {
        &&& capabilities.is_ok()
        &&& present_modes.is_ok()
        &&& surface_formats matches Ok(formats) && formats@.contains(conf::spec_format())
    }

    /// Whether a negotiation can be carried out on these reports: where it
    /// gets as far as choosing an extent, the bounds of the extent are
    /// ordered.
    pub fn can_negotiate(
        capabilities: &Result<SurfaceCapabilities, vk::Result>,
        surface_formats: &Result<Vec<SurfaceFormat>, vk::Result>,
        present_modes: &Result<Vec<PresentMode>, vk::Result>,
    ) -> (possible: bool)
        ensures
            possible == (Self::chooses_extent(*capabilities, *surface_formats, *present_modes)
                ==> capabilities.unwrap().has_ordered_bounds()),
    {
        match (capabilities, surface_formats, present_modes) {
            (Ok(capabilities), Ok(formats), Ok(_)) => {
                Self::choose_best_surface_format(formats).is_none()
                    || capabilities.has_ordered_bounds()
            },
            _ => true,
        }
    }

    /// What negotiation comes to: the error of the first report that failed,
    /// else the configuration negotiated from the three.
    pub open spec fn spec_get_config(
        capabilities: Result<SurfaceCapabilities, vk::Result>,
        surface_formats: Result<Vec<SurfaceFormat>, vk::Result>,
        present_modes: Result<Vec<PresentMode>, vk::Result>,
        requested: Extent2D,
    ) -> Result<Option<Config>, Error> {
        match Self::config_error(capabilities, surface_formats, present_modes) {
            Some(e) => Err(e),
            None => Ok(
                Self::negotiated(
                    capabilities.unwrap(),
                    surface_formats.unwrap()@,
                    present_modes.unwrap()@,
                    requested,
                ),
            ),
        }
    }

    /// The error of negotiation, if one of the three reports failed: that of
    /// the first that did.
    pub open spec fn config_error(
        capabilities: Result<SurfaceCapabilities, vk::Result>,
        surface_formats: Result<Vec<SurfaceFormat>, vk::Result>,
        present_modes: Result<Vec<PresentMode>, vk::Result>,
    ) -> Option<Error> {
        if let Err(code) = capabilities {
            Some(Error::GetConfigOptions(code))
        } else if let Err(code) = surface_formats {
            Some(Error::GetConfigOptions(code))
        } else if let Err(code) = present_modes {
            Some(Error::GetConfigOptions(code))
        } else {
            None
        }
    }

    /// The configuration negotiated from three reports that succeeded.
    pub open spec fn negotiated(
        capabilities: SurfaceCapabilities,
        surface_formats: Seq<SurfaceFormat>,
        present_modes: Seq<PresentMode>,
        requested: Extent2D,
    ) -> Option<Config> {
        if surface_formats.contains(conf::spec_format()) {
            Some(
                Config {
                    present_mode: Self::best_present_mode(present_modes),
                    extent: capabilities.chosen_extent(requested),
                    image_count: capabilities.chosen_image_count(),
                },
            )
        } else {
            None
        }
    }

    /// The present mode chosen among those offered: the preferred one where
    /// it is offered, else the fallback.
    pub open spec fn best_present_mode(present_modes: Seq<PresentMode>) -> PresentMode {
        if present_modes.contains(conf::spec_preferred_present_mode()) {
            conf::spec_preferred_present_mode()
        } else {
            conf::spec_fallback_present_mode()
        }
    }

    /// The capabilities the surface reported, or the error of the report.
    pub fn get_capabilities(capabilities: Result<SurfaceCapabilities, vk::Result>) -> (reported:
        Result<SurfaceCapabilities, Error>)
        ensures
            match capabilities {
                Ok(c) => reported == Ok::<SurfaceCapabilities, Error>(c),
                Err(code) => reported == Err::<SurfaceCapabilities, Error>(
                    Error::GetConfigOptions(code),
                ),
            },
    {
        match capabilities {
            Ok(c) => Ok(c),
            Err(code) => Err(Error::GetConfigOptions(code)),
        }
    }

    /// The renderer's format, if it is among those offered.
    pub fn choose_best_surface_format(formats: &Vec<SurfaceFormat>) -> (chosen: Option<
        SurfaceFormat,
    >)
        ensures
            chosen == if formats@.contains(conf::spec_format()) {
                Some(conf::spec_format())
            } else {
                None
            },
    {
        let wanted = conf::format();
        let mut i: usize = 0;
        while i < formats.len()
            invariant
                i <= formats.len(),
                wanted == conf::spec_format(),
                forall|j: int| 0 <= j < i ==> formats@[j] != wanted,
            decreases formats.len() - i,
        {
            if formats[i] == wanted {
                return Some(wanted);
            }
            i += 1;
        }
        None
    }

    /// The preferred present mode where it is offered, else the fallback.
    pub fn choose_best_present_mode(present_modes: &Vec<PresentMode>) -> (chosen: PresentMode)
        ensures
            chosen == Self::best_present_mode(present_modes@),
    {
        let preferred = conf::preferred_present_mode();
        let mut i: usize = 0;
        while i < present_modes.len()
            invariant
                i <= present_modes.len(),
                preferred == conf::spec_preferred_present_mode(),
                forall|j: int| 0 <= j < i ==> present_modes@[j] != preferred,
            decreases present_modes.len() - i,
        {
            if present_modes[i] == preferred {
                return preferred;
            }
            i += 1;
        }
        conf::fallback_present_mode()
    }

    /// The extent of the images to present: the surface's own where it has
    /// one, else that of the window, clamped into what the surface supports.
    pub fn choose_extent(capabilities: &SurfaceCapabilities, requested: Extent2D) -> (extent:
        Extent2D)
        requires
            capabilities.has_ordered_bounds(),
        ensures
            extent == capabilities.chosen_extent(requested),
    {
        if capabilities.current_extent.width != UNDEFINED_EXTENT {
            return capabilities.current_extent;
        }
        Extent2D {
            width: clamp(
                requested.width,
                capabilities.min_image_extent.width,
                capabilities.max_image_extent.width,
            ),
            height: clamp(
                requested.height,
                capabilities.min_image_extent.height,
                capabilities.max_image_extent.height,
            ),
        }
    }

    /// The number of images to ask for: the preferred count, clamped into what
    /// the surface supports.
    pub fn choose_image_count(capabilities: &SurfaceCapabilities) -> (count: u32)
        ensures
            count == capabilities.chosen_image_count(),
    {
        let min = capabilities.min_image_count;
        let max = capabilities.max_image_count;
        if max == 0 || max < min {
            if conf::PREFERRED_IMAGE_COUNT >= min {
                conf::PREFERRED_IMAGE_COUNT
            } else {
                min
            }
        } else {
            clamp(conf::PREFERRED_IMAGE_COUNT, min, max)
        }
    }

    /// Whether a queue family can present to the surface, or the error of the
    /// query.
    pub fn is_supported_by(&self, support: Result<bool, vk::Result>) -> (supported: Result<
        bool,
        Error,
    >)
        ensures
            match support {
                Ok(b) => supported == Ok::<bool, Error>(b),
                Err(code) => supported == Err::<bool, Error>(Error::GetConfigOptions(code)),
            },
    {
        match support {
            Ok(b) => Ok(b),
            Err(code) => Err(Error::GetConfigOptions(code)),
        }
    }
}

/// `value`, brought into the range from `min` to `max`.
pub fn clamp(value: u32, min: u32, max: u32) -> (clamped: u32)
    requires
        min <= max,
    ensures
        clamped == spec_clamp(value, min, max),
        min <= clamped <= max,
{
    if value < min {
        min
    } else if value > max {
        max
    } else {
        value
    }
}

impl Config {
    /// Takes the extent from fresh capabilities; says whether it is usable.
    pub fn update_with(
        &mut self,
        capabilities: &SurfaceCapabilities,
        requested: Extent2D,
    ) -> (usable: bool)
        requires
            capabilities.has_ordered_bounds(),
        ensures
            *final(self) == (Config {
                extent: capabilities.chosen_extent(requested),
                ..*old(self)
            }),
            usable == capabilities.chosen_extent(requested).is_usable(),
    {
        self.extent = Handle::choose_extent(capabilities, requested);
        self.extent.width != 0 && self.extent.height != 0
    }
}

impl Surface {
    pub fn new(config: Config, handle: Handle) -> (surface: Self)
        ensures
            surface.config == config,
            surface.handle == handle,
    {
        Surface { config, handle }
    }

    /// Brings the extent up to date with what the surface now reports.
    ///
    /// Says whether the new extent is usable. A report that failed is an error
    /// and leaves the configuration as it was.
    pub fn refresh_capabilities(
        &mut self,
        capabilities: Result<SurfaceCapabilities, vk::Result>,
        requested: Extent2D,
    ) -> (usable: Result<bool, Error>)
        requires
            capabilities matches Ok(c) ==> c.has_ordered_bounds(),
        ensures
            final(self).handle == old(self).handle,
            match capabilities {
                Ok(c) => usable == Ok::<bool, Error>(c.chosen_extent(requested).is_usable())
                    && final(self).config == (Config {
                    extent: c.chosen_extent(requested),
                    ..old(self).config
                }),
                Err(code) => usable == Err::<bool, Error>(Error::GetConfigOptions(code))
                    && final(self).config == old(self).config,
            },
    {
        let capabilities = Handle::get_capabilities(capabilities)?;
        Ok(self.config.update_with(&capabilities, requested))
    }
}

/// The image count chosen is never below what the surface asks for, never
/// above its limit where it has one that lies above that, and the preferred
/// count wherever the surface allows it.
pub proof fn lemma_image_count_within_limits(capabilities: SurfaceCapabilities)
    ensures
        capabilities.chosen_image_count() >= capabilities.min_image_count,
        capabilities.max_image_count != 0 && capabilities.min_image_count
            <= capabilities.max_image_count ==> capabilities.chosen_image_count()
            <= capabilities.max_image_count,
        capabilities.min_image_count <= conf::PREFERRED_IMAGE_COUNT && (
        capabilities.max_image_count == 0 || conf::PREFERRED_IMAGE_COUNT
            <= capabilities.max_image_count) ==> capabilities.chosen_image_count()
            == conf::PREFERRED_IMAGE_COUNT,
{
}

/// The extent chosen is the surface's own where it has one; else it lies
/// within what the surface supports, and is the window's extent where that
/// does.
pub proof fn lemma_extent_within_limits(capabilities: SurfaceCapabilities, requested: Extent2D)
    requires
        capabilities.has_ordered_bounds(),
    ensures
        !capabilities.client_decides_extent() ==> capabilities.chosen_extent(requested)
            == capabilities.current_extent,
        capabilities.client_decides_extent() ==> {
            let chosen = capabilities.chosen_extent(requested);
            &&& capabilities.min_image_extent.width <= chosen.width
                <= capabilities.max_image_extent.width
            &&& capabilities.min_image_extent.height <= chosen.height
                <= capabilities.max_image_extent.height
            &&& capabilities.min_image_extent.width <= requested.width
                <= capabilities.max_image_extent.width ==> chosen.width == requested.width
            &&& capabilities.min_image_extent.height <= requested.height
                <= capabilities.max_image_extent.height ==> chosen.height == requested.height
        },
{
}

} // verus!
