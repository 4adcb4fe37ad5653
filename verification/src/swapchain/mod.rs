//! The presentable image chain and the ring of frames in flight.

pub mod sync_state;

use ash::vk;
use vstd::prelude::*;

use crate::base::image;
use crate::base::image::Image;
use crate::context::surface;
use crate::context::surface::{Extent2D, PresentMode, Surface};
use crate::context::Context;
use crate::destroy::{lemma_releases_of_push, releases_of, Command, Destroy};
use crate::vulkan::{raw_code, status_code};
use sync_state::SyncState;

verus! {

/// The number of frames in flight: double buffering.
pub const BUFFERING: usize = 2;

/// The presentable image chain: its images with their views, and the ring of
/// synchronisation slots through which the frames go.
pub struct Swapchain {
    syncs: [SyncState; BUFFERING],
    frame_idx: usize,
    images: Vec<Image>,
    handle: u64,
}

/// What creating the chain takes.
#[derive(Clone, Copy, Debug, PartialEq, Eq, Structural)]
pub struct SwapchainCreateInfo {
    /// The raw handle of the surface.
    pub surface: u64,
    pub min_image_count: u32,
    /// The raw value of `ash::vk::Format`.
    pub image_format: i32,
    /// The raw value of `ash::vk::ColorSpaceKHR`.
    pub image_color_space: i32,
    pub image_extent: Extent2D,
    pub image_array_layers: u32,
    /// The raw bits of `ash::vk::ImageUsageFlags`.
    pub image_usage: u32,
    /// The raw value of `ash::vk::SharingMode`.
    pub image_sharing_mode: i32,
    /// The raw bits of `ash::vk::SurfaceTransformFlagsKHR`.
    pub pre_transform: u32,
    /// The raw bits of `ash::vk::CompositeAlphaFlagsKHR`.
    pub composite_alpha: u32,
    pub present_mode: PresentMode,
    pub clipped: bool,
}

/// How one frame goes through its slot of the ring: what each step of the
/// frame waits on and what it signals, by raw handles.
#[derive(Clone, Copy, Debug, PartialEq, Eq, Structural)]
pub struct Frame {
    /// The chain the image is acquired from and presented to.
    pub swapchain: u64,
    /// How long acquiring the image may wait, in nanoseconds: without limit.
    pub acquire_timeout: u64,
    /// The fence the host waits on before it uses the slot: the frame that
    /// went through the slot before has then retired.
    pub slot_free: u64,
    /// The semaphore that acquiring the image signals and the submitted work
    /// waits on.
    pub image_available: u64,
    /// The semaphore that the submitted work signals and presenting waits on.
    pub render_complete: u64,
    /// The fence that the submitted work signals when it has retired.
    pub frame_complete: u64,
}

/// What acquiring the next image came to.
#[derive(Clone, Copy, Debug, PartialEq, Eq)]
pub enum Acquired {
    /// The driver gave the image of this index; `suboptimal` where the chain
    /// no longer matches the surface exactly.
    Image { index: u32, suboptimal: bool },
    /// The chain no longer fits the surface at all.
    OutOfDate,
    /// The driver failed otherwise.
    Failed(vk::Result),
}

/// The status code by which the driver says that a chain no longer fits its
/// surface at all.
pub const ERROR_OUT_OF_DATE: i32 = -1_000_001_004;

/// The raw value of `ash::vk::Result::ERROR_OUT_OF_DATE_KHR`. Trusted: that
/// `ash` numbers it -1000001004.
#[verifier::external_body]
fn ash_out_of_date() -> (raw: i32)
    ensures
        raw == ERROR_OUT_OF_DATE,
{
    vk::Result::ERROR_OUT_OF_DATE_KHR.as_raw()
}

impl Acquired {
    /// What the driver's answer to acquiring an image comes to.
    pub open spec fn spec_from_driver(outcome: Result<(u32, bool), vk::Result>) -> Acquired {
        match outcome {
            Ok((index, suboptimal)) => Acquired::Image { index, suboptimal },
            Err(code) => if raw_code(code) == ERROR_OUT_OF_DATE {
                Acquired::OutOfDate
            } else {
                Acquired::Failed(code)
            },
        }
    }

    /// What the driver's answer to acquiring an image comes to: the image
    /// and whether the chain is suboptimal; or that the chain is out of
    /// date, where the driver's status code says so; or the failure.
    pub fn from_driver(outcome: Result<(u32, bool), vk::Result>) -> (acquired: Self)
        ensures
            acquired == Self::spec_from_driver(outcome),
    {
        match outcome {
            Ok((index, suboptimal)) => Acquired::Image { index, suboptimal },
            Err(code) => if status_code(code) == ash_out_of_date() {
                Acquired::OutOfDate
            } else {
                Acquired::Failed(code)
            },
        }
    }
}

/// Why there is no chain, or no image of it.
#[derive(Debug)]
pub enum Error {
    /// The driver refused to create the chain.
    Create(vk::Result),
    /// The driver failed to hand out the images of the chain.
    GetSwapchainImages(vk::Result),
    /// The driver failed to give the next image.
    AcquireNextImage(vk::Result),
    /// The chain no longer fits the surface: it has to be built anew. This is
    /// no failure of the renderer.
    NeedsRecreating,
    Image(image::Error),
    SyncStates(sync_state::Error),
}

/// Images are used as colour attachments.
pub const IMAGE_USAGE_COLOR_ATTACHMENT: u32 = 0x10;

/// One queue family at a time has the images.
pub const SHARING_MODE_EXCLUSIVE: i32 = 0;

/// Images are presented as they are, not turned or mirrored.
pub const TRANSFORM_IDENTITY: u32 = 0x1;

/// The window composes the images as opaque.
pub const COMPOSITE_ALPHA_OPAQUE: u32 = 0x1;

/// The raw bits of `ash::vk::ImageUsageFlags::COLOR_ATTACHMENT`. Trusted: that
/// `ash` gives it the bit 0x10.
#[verifier::external_body]
fn ash_color_attachment() -> (usage: u32)
    ensures
        usage == IMAGE_USAGE_COLOR_ATTACHMENT,
{
    vk::ImageUsageFlags::COLOR_ATTACHMENT.as_raw()
}

/// The raw value of `ash::vk::SharingMode::EXCLUSIVE`. Trusted: that `ash`
/// numbers it 0.
#[verifier::external_body]
fn ash_exclusive() -> (mode: i32)
    ensures
        mode == SHARING_MODE_EXCLUSIVE,
{
    vk::SharingMode::EXCLUSIVE.as_raw()
}

/// The raw bits of `ash::vk::SurfaceTransformFlagsKHR::IDENTITY`. Trusted:
/// that `ash` gives it the bit 1.
#[verifier::external_body]
fn ash_identity() -> (transform: u32)
    ensures
        transform == TRANSFORM_IDENTITY,
{
    vk::SurfaceTransformFlagsKHR::IDENTITY.as_raw()
}

/// The raw bits of `ash::vk::CompositeAlphaFlagsKHR::OPAQUE`. Trusted: that
/// `ash` gives it the bit 1.
#[verifier::external_body]
fn ash_opaque() -> (alpha: u32)
    ensures
        alpha == COMPOSITE_ALPHA_OPAQUE,
{
    vk::CompositeAlphaFlagsKHR::OPAQUE.as_raw()
}

/// The images among the outcomes of wrapping each image of the chain, or the
/// error of the first outcome that is one.
pub open spec fn wrapped(outcomes: Seq<Result<Image, image::Error>>) -> Result<
    Seq<Image>,
    image::Error,
>
    decreases outcomes.len(),
{
    if outcomes.len() == 0 {
        Ok(Seq::empty())
    } else {
        match wrapped(outcomes.drop_last()) {
            Err(e) => Err(e),
            Ok(images) => match outcomes.last() {
                Err(e) => Err(e),
                Ok(image) => Ok(images.push(image)),
            },
        }
    }
}

/// An error among the first outcomes is the error of them all.
pub proof fn lemma_wrapped_error_stays(outcomes: Seq<Result<Image, image::Error>>, n: int)
    requires
        0 <= n <= outcomes.len(),
        wrapped(outcomes.take(n)).is_err(),
    ensures
        wrapped(outcomes) == wrapped(outcomes.take(n)),
    decreases outcomes.len() - n,
{
    if n < outcomes.len() {
        assert(outcomes.take(n + 1).drop_last() =~= outcomes.take(n));
        lemma_wrapped_error_stays(outcomes, n + 1);
    } else {
        assert(outcomes.take(n) =~= outcomes);
    }
}

impl Swapchain {
    /// The slot in use always lies within the ring.
    #[verifier::type_invariant]
    spec fn slot_in_ring(&self) -> bool {
        self.frame_idx < BUFFERING
    }

    /// The ring of synchronisation slots.
    pub closed spec fn syncs(&self) -> Seq<SyncState> {
        self.syncs@
    }

    /// The slot of the ring the next frame goes through.
    pub closed spec fn frame_idx(&self) -> nat {
        self.frame_idx as nat
    }

    /// The images of the chain with their views, in the driver's order.
    pub closed spec fn images(&self) -> Seq<Image> {
        self.images@
    }

    /// The raw handle of the chain.
    pub closed spec fn handle(&self) -> u64 {
        self.handle
    }

    /// What creating the chain for a surface takes: the negotiated count,
    /// extent and present mode, in the renderer's format; images of one
    /// layer, used as colour attachments by one queue family at a time,
    /// presented untransformed and opaque, with hidden pixels clipped.
    pub fn create_info(surface: &Surface) -> (info: SwapchainCreateInfo)
        ensures
            info == Self::spec_create_info(*surface),
    {
        let format = surface::conf::format();
        SwapchainCreateInfo {
            surface: surface.handle.surface,
            min_image_count: surface.config.image_count,
            image_format: format.format,
            image_color_space: format.color_space,
            image_extent: surface.config.extent,
            image_array_layers: 1,
            image_usage: ash_color_attachment(),
            image_sharing_mode: ash_exclusive(),
            pre_transform: ash_identity(),
            composite_alpha: ash_opaque(),
            present_mode: surface.config.present_mode,
            clipped: true,
        }
    }

    /// What creating the chain for a surface takes.
    pub open spec fn spec_create_info(surface: Surface) -> SwapchainCreateInfo {
        SwapchainCreateInfo {
            surface: surface.handle.surface,
            min_image_count: surface.config.image_count,
            image_format: surface::conf::spec_format().format,
            image_color_space: surface::conf::spec_format().color_space,
            image_extent: surface.config.extent,
            image_array_layers: 1,
            image_usage: IMAGE_USAGE_COLOR_ATTACHMENT,
            image_sharing_mode: SHARING_MODE_EXCLUSIVE,
            pre_transform: TRANSFORM_IDENTITY,
            composite_alpha: COMPOSITE_ALPHA_OPAQUE,
            present_mode: surface.config.present_mode,
            clipped: true,
        }
    }

    /// The error of building the chain, if a stage failed: that of the first
    /// that did, in the order ring, chain, images, views.
    pub open spec fn build_error(
        syncs: Result<[SyncState; BUFFERING], sync_state::Error>,
        created: Option<Result<u64, vk::Result>>,
        images: Option<Result<Vec<Result<Image, image::Error>>, vk::Result>>,
    ) -> Option<Error> {
        match syncs {
            Err(e) => Some(Error::SyncStates(e)),
            Ok(_) => match created.unwrap() {
                Err(code) => Some(Error::Create(code)),
                Ok(_) => match images.unwrap() {
                    Err(code) => Some(Error::GetSwapchainImages(code)),
                    Ok(outcomes) => match wrapped(outcomes@) {
                        Err(e) => Some(Error::Image(e)),
                        Ok(_) => None,
                    },
                },
            },
        }
    }

    /// Puts the chain together from what the stages of building it came to:
    /// the ring of slots, the chain itself, and its images, each wrapped with
    /// its view.
    ///
    /// A stage is attempted where all before it succeeded, and what it came
    /// to is there where it was attempted. The error of the first stage that
    /// failed is the error of the whole; of the images, the first in the
    /// driver's order that could not be wrapped. The chain starts at the
    /// first slot of the ring.
    pub fn new(
        syncs: Result<[SyncState; BUFFERING], sync_state::Error>,
        created: Option<Result<u64, vk::Result>>,
        images: Option<Result<Vec<Result<Image, image::Error>>, vk::Result>>,
    ) -> (swapchain: Result<Self, Error>)
        requires
            syncs.is_ok() ==> created.is_some(),
            syncs.is_ok() && (created matches Some(Ok(_))) ==> images.is_some(),
        ensures
            match Self::build_error(syncs, created, images) {
                Some(e) => swapchain == Err::<Self, Error>(e),
                None => swapchain matches Ok(chain) && chain.syncs() == syncs.unwrap()@
                    && chain.frame_idx() == 0 && Ok::<Seq<Image>, image::Error>(chain.images())
                    == wrapped(images.unwrap().unwrap()@) && chain.handle()
                    == created.unwrap().unwrap(),
            },
    {
        let ring = match syncs {
            Ok(ring) => ring,
            Err(e) => { return Err(Error::SyncStates(e)); },
        };
        let handle = match created.unwrap() {
            Ok(handle) => handle,
            Err(code) => { return Err(Error::Create(code)); },
        };
        let mut outcomes = match images.unwrap() {
            Ok(outcomes) => outcomes,
            Err(code) => { return Err(Error::GetSwapchainImages(code)); },
        };
        let ghost all = outcomes@;
        let mut views: Vec<Image> = Vec::new();
        while outcomes.len() > 0
            invariant
                syncs.is_ok(),
                created matches Some(Ok(_)),
                images matches Some(Ok(list)) && list@ == all,
                outcomes@.len() <= all.len(),
                outcomes@ == all.skip(all.len() - outcomes@.len()),
                wrapped(all.take(all.len() - outcomes@.len())) == Ok::<Seq<Image>, image::Error>(
                    views@,
                ),
            decreases outcomes.len(),
        {
            let ghost done = all.len() - outcomes@.len();
            let outcome = outcomes.remove(0);
            proof {
                assert(outcome == all[done]);
                assert(outcomes@ =~= all.skip(done + 1));
                assert(all.take(done + 1).drop_last() =~= all.take(done));
                assert(all.take(done + 1).last() == all[done]);
            }
            match outcome {
                Ok(image) => {
                    views.push(image);
                },
                Err(e) => {
                    proof {
                        lemma_wrapped_error_stays(all, done + 1);
                    }
                    return Err(Error::Image(e));
                },
            }
        }
        proof {
            assert(all.take(all.len() as int) =~= all);
        }
        Ok(Swapchain { syncs: ring, frame_idx: 0, images: views, handle })
    }

    /// The index of the image to render to next, from what acquiring it came
    /// to. A chain that the driver calls suboptimal or out of date needs
    /// recreating, and no image of it is used.
    pub fn get_next_image(&self, acquired: Acquired) -> (image_index: Result<u32, Error>)
        ensures
            image_index == Self::spec_next_image(acquired),
    {
        match acquired {
            Acquired::Failed(code) => Err(Error::AcquireNextImage(code)),
            Acquired::OutOfDate => Err(Error::NeedsRecreating),
            Acquired::Image { index: _, suboptimal: true } => Err(Error::NeedsRecreating),
            Acquired::Image { index, suboptimal: false } => Ok(index),
        }
    }

    /// The index of the image to render to next, or why there is none.
    pub open spec fn spec_next_image(acquired: Acquired) -> Result<u32, Error> {
        match acquired {
            Acquired::Failed(code) => Err(Error::AcquireNextImage(code)),
            Acquired::OutOfDate => Err(Error::NeedsRecreating),
            Acquired::Image { index, suboptimal } => if suboptimal {
                Err(Error::NeedsRecreating)
            } else {
                Ok(index)
            },
        }
    }

    /// How the next frame goes through its slot.
    pub open spec fn spec_frame(&self) -> Frame {
        let sync = self.syncs()[self.frame_idx() as int];
        Frame {
            swapchain: self.handle(),
            acquire_timeout: u64::MAX,
            slot_free: sync.presented.handle,
            image_available: sync.available.handle,
            render_complete: sync.ready.handle,
            frame_complete: sync.presented.handle,
        }
    }

    /// How the next frame goes through its slot: the host waits until the
    /// slot is free; acquiring the image signals that it is available; the
    /// work submitted waits for that, and signals that rendering is complete
    /// and that the frame has retired; presenting waits for rendering to be
    /// complete.
    pub fn frame(&self) -> (frame: Frame)
        ensures
            self.syncs().len() == BUFFERING,
            self.frame_idx() < BUFFERING,
            frame == self.spec_frame(),
    {
        let sync = self.current_sync();
        Frame {
            swapchain: self.handle,
            acquire_timeout: u64::MAX,
            slot_free: sync.presented.handle,
            image_available: sync.available.handle,
            render_complete: sync.ready.handle,
            frame_complete: sync.presented.handle,
        }
    }

    /// The slot the next frame goes through.
    pub fn current_sync(&self) -> (sync: SyncState)
        ensures
            self.syncs().len() == BUFFERING,
            self.frame_idx() < BUFFERING,
            sync == self.syncs()[self.frame_idx() as int],
    {
        proof {
            use_type_invariant(self);
        }
        self.syncs[self.frame_idx]
    }

    /// Whether this is the chain `before` one frame later: the same chain,
    /// at the next slot of the ring; after the last slot comes the first.
    pub open spec fn follows(&self, before: Swapchain) -> bool {
        &&& self.frame_idx() == (before.frame_idx() + 1) % (BUFFERING as nat)
        &&& self.syncs() == before.syncs()
        &&& self.images() == before.images()
        &&& self.handle() == before.handle()
    }

    /// Moves on to the next slot of the ring, once a frame was presented.
    pub fn advance_frame(&mut self)
        ensures
            final(self).follows(*old(self)),
    {
        proof {
            use_type_invariant(&*self);
        }
        self.frame_idx = (self.frame_idx + 1) % BUFFERING;
    }

    /// The slot the next frame goes through, as an index into the ring.
    pub fn frame_index(&self) -> (index: usize)
        ensures
            self.syncs().len() == BUFFERING,
            index == self.frame_idx(),
            index < BUFFERING,
    {
        proof {
            use_type_invariant(self);
        }
        self.frame_idx
    }

    /// The raw handle of the chain.
    pub fn raw(&self) -> (handle: u64)
        ensures
            handle == self.handle(),
    {
        self.handle
    }

    /// The number of images in the chain.
    pub fn image_count(&self) -> (count: usize)
        ensures
            count == self.images().len(),
    {
        self.images.len()
    }

    /// The image of an index, where the chain has one.
    pub fn image(&self, index: usize) -> (image: Option<Image>)
        ensures
            image == if index < self.images().len() {
                Some(self.images()[index as int])
            } else {
                None
            },
    {
        if index < self.images.len() {
            Some(self.images[index])
        } else {
            None
        }
    }
}

impl Destroy<Context> for Swapchain {
    /// The slots of the ring and the views of the images go before the chain
    /// itself.
    open spec fn releases(&self) -> Seq<Command> {
        releases_of::<Context, SyncState>(self.syncs()) + releases_of::<Context, Image>(
            self.images(),
        ) + seq![Command::DestroySwapchain(self.handle())]
    }

    fn destroy_with(&mut self, ctx: &Context) -> (commands: Vec<Command>)
        ensures
            *final(self) == *old(self),
    {
        let mut ring = self.syncs;
        let mut commands = ring.destroy_with(ctx);
        let ghost of_ring = commands@;
        let mut i: usize = 0;
        while i < self.images.len()
            invariant
                i <= self.images.len(),
                *self == *old(self),
                commands@ == of_ring + releases_of::<Context, Image>(self.images@.take(i as int)),
            decreases self.images.len() - i,
        {
            let mut image = self.images[i];
            let mut view = image.destroy_with(ctx);
            commands.append(&mut view);
            proof {
                assert(self.images@.take(i + 1) =~= self.images@.take(i as int).push(
                    self.images@[i as int],
                ));
                lemma_releases_of_push::<Context, Image>(
                    self.images@.take(i as int),
                    self.images@[i as int],
                );
            }
            i += 1;
        }
        proof {
            assert(self.images@.take(i as int) =~= self.images@);
        }
        commands.push(Command::DestroySwapchain(self.handle));
        commands
    }
}

} // verus!
