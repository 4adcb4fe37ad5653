//! Images and the views through which they are used.

use ash::vk;
use vstd::prelude::*;

use crate::context::device;
use crate::context::surface;
use crate::context::surface::Extent2D;
use crate::context::Context;
use crate::destroy::{Command, Destroy};

verus! {

/// What an image is for, which settles its pixel format.
#[derive(Clone, Copy, Debug, PartialEq, Eq, Structural)]
pub enum Format {
    /// Rendering in high dynamic range: four 32-bit floats a pixel.
    Hdr,
    /// Presenting: the format of the surface.
    Swapchain,
}

/// The part of an image a view shows.
#[derive(Clone, Copy, Debug, PartialEq, Eq, Structural)]
pub struct ImageSubresourceRange {
    /// The raw bits of `ash::vk::ImageAspectFlags`.
    pub aspect_mask: u32,
    pub base_mip_level: u32,
    pub level_count: u32,
    pub base_array_layer: u32,
    pub layer_count: u32,
}

/// What creating the view of an image takes.
#[derive(Clone, Copy, Debug, PartialEq, Eq, Structural)]
pub struct ImageViewCreateInfo {
    /// The raw handle of the image.
    pub image: u64,
    /// The raw value of `ash::vk::ImageViewType`.
    pub view_type: i32,
    /// The raw value of `ash::vk::Format`.
    pub format: i32,
    pub subresource_range: ImageSubresourceRange,
}

/// An image that someone else owns, and the view of it that this value owns,
/// both by their raw handles.
#[derive(Clone, Copy, Debug, PartialEq, Eq, Structural)]
pub struct Image {
    pub format: Format,
    pub handle: u64,
    pub view: u64,
    pub extent: Extent2D,
}

/// Why there is no image.
#[derive(Debug)]
pub enum Error {
    /// The driver refused to create the view.
    CreateView(vk::Result),
    Device(device::Error),
}

/// The pixel format of rendering in high dynamic range.
pub const HDR_FORMAT: i32 = 109;

/// The view type of a plain two-dimensional image.
pub const VIEW_TYPE_2D: i32 = 1;

/// The colour aspect of an image.
pub const ASPECT_COLOR: u32 = 0x1;

/// The count that stands for all mip levels, or all array layers, from the
/// base on.
pub const REMAINING: u32 = 0xFFFF_FFFF;

/// The raw value of `ash::vk::Format::R32G32B32A32_SFLOAT`. Trusted: that
/// `ash` numbers it 109.
#[verifier::external_body]
fn ash_hdr_format() -> (format: i32)
    ensures
        format == HDR_FORMAT,
{
    vk::Format::R32G32B32A32_SFLOAT.as_raw()
}

/// The raw value of `ash::vk::ImageViewType::TYPE_2D`. Trusted: that `ash`
/// numbers it 1.
#[verifier::external_body]
fn ash_view_type_2d() -> (view_type: i32)
    ensures
        view_type == VIEW_TYPE_2D,
{
    vk::ImageViewType::TYPE_2D.as_raw()
}

/// The raw bits of `ash::vk::ImageAspectFlags::COLOR`. Trusted: that `ash`
/// gives it the bit 1.
#[verifier::external_body]
fn ash_aspect_color() -> (aspect: u32)
    ensures
        aspect == ASPECT_COLOR,
{
    vk::ImageAspectFlags::COLOR.as_raw()
}

/// `ash::vk::REMAINING_MIP_LEVELS` and `ash::vk::REMAINING_ARRAY_LAYERS`.
/// Trusted: that in `ash` both have all 32 bits set.
#[verifier::external_body]
fn ash_remaining() -> (counts: (u32, u32))
    ensures
        counts == (REMAINING, REMAINING),
{
    (vk::REMAINING_MIP_LEVELS, vk::REMAINING_ARRAY_LAYERS)
}

impl Format {
    /// The pixel format, by the raw value of `ash::vk::Format`.
    pub open spec fn spec_raw(self) -> i32 {
        match self {
            Format::Hdr => HDR_FORMAT,
            Format::Swapchain => surface::conf::spec_format().format,
        }
    }

    /// The pixel format, by the raw value of `ash::vk::Format`.
    #[verifier::when_used_as_spec(spec_raw)]
    pub fn raw(self) -> (format: i32)
        ensures
            format == self.spec_raw(),
    {
        match self {
            Format::Hdr => ash_hdr_format(),
            Format::Swapchain => surface::conf::format().format,
        }
    }
}

impl Image {
    /// What creating the view of an image takes: a two-dimensional view of
    /// the whole image, in the image's format.
    pub fn view_create_info(format: Format, handle: u64) -> (info: ImageViewCreateInfo)
        ensures
            info == (ImageViewCreateInfo {
                image: handle,
                view_type: VIEW_TYPE_2D,
                format: format.spec_raw(),
                subresource_range: Self::spec_subresource_range(format),
            }),
    {
        ImageViewCreateInfo {
            image: handle,
            view_type: ash_view_type_2d(),
            format: format.raw(),
            subresource_range: Self::subresource_range(format),
        }
    }

    /// Takes over the view the driver created of an image, or says why there
    /// is none: the driver refused, or the view could not be named. What
    /// naming came to counts only where the view was created.
    pub fn new(
        format: Format,
        handle: u64,
        extent: Extent2D,
        view: Result<u64, vk::Result>,
        named: Result<(), device::Error>,
    ) -> (image: Result<Self, Error>)
        ensures
            image == match view {
                Err(code) => Err::<Self, Error>(Error::CreateView(code)),
                Ok(view) => match named {
                    Err(e) => Err(Error::Device(e)),
                    Ok(_) => Ok(Image { format, handle, view, extent }),
                },
            },
    {
        let view = match view {
            Ok(view) => view,
            Err(code) => { return Err(Error::CreateView(code)); },
        };
        match named {
            Ok(_) => Ok(Image { format, handle, view, extent }),
            Err(e) => Err(Error::Device(e)),
        }
    }

    /// The whole of an image: every mip level and every array layer of the
    /// aspect its format has.
    pub open spec fn spec_subresource_range(format: Format) -> ImageSubresourceRange {
        ImageSubresourceRange {
            aspect_mask: Self::spec_aspect_flags(format),
            base_mip_level: 0,
            level_count: REMAINING,
            base_array_layer: 0,
            layer_count: REMAINING,
        }
    }

    /// The whole of an image.
    #[verifier::when_used_as_spec(spec_subresource_range)]
    pub fn subresource_range(format: Format) -> (range: ImageSubresourceRange)
        ensures
            range == Self::spec_subresource_range(format),
    {
        let (level_count, layer_count) = ash_remaining();
        ImageSubresourceRange {
            aspect_mask: Self::aspect_flags(format),
            base_mip_level: 0,
            level_count,
            base_array_layer: 0,
            layer_count,
        }
    }

    /// The aspect of an image of a format: both formats hold colour.
    pub open spec fn spec_aspect_flags(format: Format) -> u32 {
        ASPECT_COLOR
    }

    /// The aspect of an image of a format, by the raw bits of
    /// `ash::vk::ImageAspectFlags`.
    #[verifier::when_used_as_spec(spec_aspect_flags)]
    pub fn aspect_flags(format: Format) -> (aspect: u32)
        ensures
            aspect == Self::spec_aspect_flags(format),
    {
        match format {
            Format::Hdr | Format::Swapchain => ash_aspect_color(),
        }
    }
}

impl Destroy<Context> for Image {
    /// Only the view is released: the image is not this value's to destroy.
    open spec fn releases(&self) -> Seq<Command> {
        seq![Command::DestroyImageView(self.view)]
    }

    fn destroy_with(&mut self, ctx: &Context) -> (commands: Vec<Command>) {
        let mut commands: Vec<Command> = Vec::new();
        commands.push(Command::DestroyImageView(self.view));
        commands
    }
}

} // verus!
