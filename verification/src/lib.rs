//! Decision core of a Vulkan renderer and of the fixed-step scheduler that
//! drives it.
//!
//! Nothing in this crate calls the driver. Every function takes what the
//! driver answered and says what follows from it: which adapter and which
//! queue families to use, what to negotiate with the surface, what to create
//! and with which parameters, when to rebuild the image chain, and what to
//! destroy in which order. The shell around the crate asks the driver and
//! carries the decisions out.

pub mod base;
pub mod context;
pub mod destroy;
pub mod swapchain;
pub mod time_stepper;
pub mod vulkan;

use ash::vk;
use vstd::prelude::*;

use context::device;
use context::surface::{Extent2D, SurfaceCapabilities};
use context::Context;
use destroy::{Command, Destroy};
use swapchain::{Acquired, Swapchain, SwapchainCreateInfo};

verus! {

/// The renderer: a context, the image chain built on it, and whether the
/// chain waits to be rebuilt.
pub struct Renderer {
    swapchain: Option<Swapchain>,
    needs_resizing: bool,
    ctx: Context,
}

/// Why the renderer could not be built or could not go on.
#[derive(Debug)]
pub enum Error {
    Context(context::Error),
    Device(device::Error),
    Swapchain(swapchain::Error),
}

/// What rebuilding the image chain takes.
#[derive(Debug, PartialEq, Eq)]
pub struct Rebuild {
    /// What has to be carried out before the new chain is created, in this
    /// order; where a command fails, those after it are left out.
    pub commands: Vec<Command>,
    /// What creating the new chain takes.
    pub create_info: SwapchainCreateInfo,
}

/// What taking a frame came to.
#[derive(Debug, PartialEq, Eq)]
pub enum Rendered {
    /// The frame is over; `true` where the chain waits to be rebuilt, so that
    /// no image was presented.
    Done(bool),
    /// The chain has to be rebuilt before the frame can be taken: once this
    /// is carried out and [`Renderer::rebuilt`] has taken note of it, the
    /// frame is to be taken again.
    Rebuild(Rebuild),
}

impl Renderer {
    /// The image chain; none once a chain was released and none took its place.
    pub closed spec fn chain(&self) -> Option<Swapchain> {
        self.swapchain
    }

    /// Whether the chain waits to be rebuilt.
    pub closed spec fn pending(&self) -> bool {
        self.needs_resizing
    }

    /// The context.
    pub closed spec fn context(&self) -> Context {
        self.ctx
    }

    /// Whether frames can be rendered: there is a chain, and it does not wait
    /// to be rebuilt.
    pub open spec fn ready(&self) -> bool {
        self.chain().is_some() && !self.pending()
    }

    /// The commands that release the chain, if there is one.
    pub open spec fn chain_releases(&self) -> Seq<Command> {
        match self.chain() {
            Some(chain) => chain.releases(),
            None => Seq::empty(),
        }
    }

    /// What the renderer asks for when a resize finds a usable extent: the
    /// device goes idle first, then the chain is released.
    pub open spec fn rebuild_commands(&self) -> Seq<Command> {
        seq![Command::WaitIdle] + self.chain_releases()
    }

    /// Puts the renderer together from what building the context and, on it,
    /// the image chain came to. The chain is built where there is a context.
    /// The renderer starts with nothing to rebuild.
    pub fn new(
        ctx: Result<Context, context::Error>,
        swapchain: Option<Result<Swapchain, swapchain::Error>>,
    ) -> (renderer: Result<Self, Error>)
        requires
            ctx.is_ok() ==> swapchain.is_some(),
        ensures
            match ctx {
                Err(e) => renderer == Err::<Self, Error>(Error::Context(e)),
                Ok(context) => match swapchain.unwrap() {
                    Err(e) => renderer == Err::<Self, Error>(Error::Swapchain(e)),
                    Ok(chain) => renderer matches Ok(r) && r.context() == context && r.chain()
                        == Some(chain) && !r.pending(),
                },
            },
    {
        let ctx = match ctx {
            Ok(ctx) => ctx,
            Err(e) => { return Err(Error::Context(e)); },
        };
        let swapchain = match swapchain.unwrap() {
            Ok(swapchain) => swapchain,
            Err(e) => { return Err(Error::Swapchain(e)); },
        };
        Ok(Renderer { swapchain: Some(swapchain), needs_resizing: false, ctx })
    }

    /// Notes that the window changed: the chain waits to be rebuilt.
    pub fn needs_resizing(&mut self)
        ensures
            final(self).pending(),
            final(self).chain() == old(self).chain(),
            final(self).context() == old(self).context(),
    {
        self.needs_resizing = true;
    }

    /// Decides on a rebuild of the chain, from what the surface now reports
    /// and the extent of the window.
    ///
    /// The negotiated extent is brought up to date. Where it is usable, the
    /// chain has to be rebuilt, and the result says what that takes; the
    /// chain stays as it is until [`Renderer::rebuilt`] replaces it. Where
    /// the extent is not usable, as for a minimised window, nothing is
    /// rebuilt and nothing else changes. A report that failed is an error
    /// and changes nothing.
    pub fn resize(
        &mut self,
        capabilities: Result<SurfaceCapabilities, vk::Result>,
        requested: Extent2D,
    ) -> (rebuild: Result<Option<Rebuild>, Error>)
        requires
            capabilities matches Ok(c) ==> c.has_ordered_bounds(),
        ensures
            Self::decides_rebuild(*old(self), *final(self), capabilities, requested, rebuild),
    {
        let is_valid = match self.ctx.refresh_surface_capabilities(capabilities, requested) {
            Ok(usable) => usable,
            Err(e) => { return Err(Error::Context(e)); },
        };
        if is_valid {
            let ctx = self.ctx;
            let mut commands: Vec<Command> = Vec::new();
            commands.push(Command::WaitIdle);
            match &mut self.swapchain {
                Some(chain) => {
                    let mut releases = chain.destroy_with(&ctx);
                    commands.append(&mut releases);
                },
                None => {},
            }
            let create_info = Swapchain::create_info(&self.ctx.surface);
            Ok(Some(Rebuild { commands, create_info }))
        } else {
            Ok(None)
        }
    }

    /// Whether a decision on a rebuild, taken on what the surface reports and
    /// the extent of the window, takes the renderer from `before` to `after`
    /// and comes to `rebuild`.
    ///
    /// A report that failed is an error and changes nothing. Else the
    /// negotiated extent is brought up to date and nothing else changes;
    /// a usable extent asks for a rebuild: the device goes idle, the chain is
    /// released, and the new chain is created for the surface as it then is.
    pub open spec fn decides_rebuild(
        before: Renderer,
        after: Renderer,
        capabilities: Result<SurfaceCapabilities, vk::Result>,
        requested: Extent2D,
        rebuild: Result<Option<Rebuild>, Error>,
    ) -> bool {
        match capabilities {
            Err(code) => {
                &&& rebuild == Err::<Option<Rebuild>, Error>(Self::report_failed(code))
                &&& after == before
            },
            Ok(c) => {
                let extent = c.chosen_extent(requested);
                &&& after.context() == before.context().with_extent(extent)
                &&& after.chain() == before.chain()
                &&& after.pending() == before.pending()
                &&& extent.is_usable() ==> {
                    &&& rebuild matches Ok(Some(plan))
                    &&& plan.commands@ == before.rebuild_commands()
                    &&& plan.create_info == Swapchain::spec_create_info(after.context().surface)
                }
                &&& !extent.is_usable() ==> rebuild == Ok::<Option<Rebuild>, Error>(None)
            },
        }
    }

    /// The decision on a rebuild that stands behind what taking a frame came
    /// to.
    pub open spec fn rebuild_of(outcome: Result<Rendered, Error>) -> Result<
        Option<Rebuild>,
        Error,
    > {
        match outcome {
            Err(e) => Err(e),
            Ok(Rendered::Rebuild(plan)) => Ok(Some(plan)),
            Ok(Rendered::Done(_)) => Ok(None),
        }
    }

    /// The error of a resize for which the surface failed to report.
    pub open spec fn report_failed(code: vk::Result) -> Error {
        Error::Context(context::Error::Surface(context::surface::Error::GetConfigOptions(code)))
    }

    /// Takes note of how a rebuild went.
    ///
    /// `waited` is what waiting for the device to go idle came to; where it
    /// failed nothing was released and nothing changes. `swapchain` is what
    /// building the new chain came to, and it is there where the wait
    /// succeeded: the old chain is then released, the new one takes its
    /// place, and nothing waits to be rebuilt any more. Where no new chain
    /// could be built the renderer is left without one.
    pub fn rebuilt(
        &mut self,
        waited: Result<(), vk::Result>,
        swapchain: Option<Result<Swapchain, swapchain::Error>>,
    ) -> (outcome: Result<(), Error>)
        requires
            waited.is_ok() ==> swapchain.is_some(),
        ensures
            final(self).context() == old(self).context(),
            match waited {
                Err(code) => {
                    &&& outcome == Err::<(), Error>(Error::Device(device::Error::WaitIdle(code)))
                    &&& *final(self) == *old(self)
                },
                Ok(_) => match swapchain.unwrap() {
                    Err(e) => {
                        &&& outcome == Err::<(), Error>(Error::Swapchain(e))
                        &&& final(self).chain().is_none()
                        &&& final(self).pending() == old(self).pending()
                    },
                    Ok(chain) => {
                        &&& outcome.is_ok()
                        &&& final(self).chain() == Some(chain)
                        &&& !final(self).pending()
                    },
                },
            },
    {
        match self.ctx.device.wait_idle(waited) {
            Ok(_) => {},
            Err(e) => { return Err(Error::Device(e)); },
        }
        match swapchain.unwrap() {
            Ok(chain) => {
                self.swapchain = Some(chain);
                self.needs_resizing = false;
                Ok(())
            },
            Err(e) => {
                self.swapchain = None;
                Err(Error::Swapchain(e))
            },
        }
    }

    /// Takes one frame through the chain and says whether the chain waits
    /// to be rebuilt.
    ///
    /// While the renderer is not ready it first decides on a rebuild, as
    /// [`Renderer::resize`] does, from `report`: what the surface now reports
    /// and the extent of the window. Without a usable extent the frame is
    /// over and the chain still waits; with one, the rebuild is asked for,
    /// and no image is acquired before it is done.
    ///
    /// A renderer that is ready takes the frame from `acquired`, what
    /// acquiring its image came to: with an image the frame is rendered and
    /// the ring moves on by one slot; a chain that no longer fits the surface
    /// is marked to be rebuilt, which is no error; any other failure is an
    /// error and changes nothing.
    pub fn render(
        &mut self,
        report: Option<(Result<SurfaceCapabilities, vk::Result>, Extent2D)>,
        acquired: Option<Acquired>,
    ) -> (outcome: Result<Rendered, Error>)
        requires
            !old(self).ready() ==> report.is_some() && (report.unwrap().0 matches Ok(c)
                ==> c.has_ordered_bounds()),
            old(self).ready() ==> acquired.is_some(),
        ensures
            !old(self).ready() ==> {
                &&& Self::decides_rebuild(
                    *old(self),
                    *final(self),
                    report.unwrap().0,
                    report.unwrap().1,
                    Self::rebuild_of(outcome),
                )
                &&& outcome matches Ok(Rendered::Done(needs_resize)) ==> needs_resize
            },
            old(self).ready() ==> {
                &&& final(self).context() == old(self).context()
                &&& match Swapchain::spec_next_image(acquired.unwrap()) {
                    Ok(_) => {
                        &&& outcome == Ok::<Rendered, Error>(Rendered::Done(false))
                        &&& !final(self).pending()
                        &&& final(self).chain() matches Some(chain)
                        &&& chain.follows(old(self).chain().unwrap())
                    },
                    Err(swapchain::Error::NeedsRecreating) => {
                        &&& outcome == Ok::<Rendered, Error>(Rendered::Done(true))
                        &&& final(self).pending()
                        &&& final(self).chain() == old(self).chain()
                    },
                    Err(e) => {
                        &&& outcome == Err::<Rendered, Error>(Error::Swapchain(e))
                        &&& *final(self) == *old(self)
                    },
                }
            },
    {
        if !self.is_ready() {
            let (capabilities, requested) = report.unwrap();
            return match self.resize(capabilities, requested) {
                Err(e) => Err(e),
                Ok(None) => Ok(Rendered::Done(true)),
                Ok(Some(plan)) => Ok(Rendered::Rebuild(plan)),
            };
        }
        match &mut self.swapchain {
            None => Ok(Rendered::Done(true)),
            Some(chain) => match chain.get_next_image(acquired.unwrap()) {
                Ok(_) => {
                    chain.advance_frame();
                    Ok(Rendered::Done(false))
                },
                Err(swapchain::Error::NeedsRecreating) => {
                    self.needs_resizing = true;
                    Ok(Rendered::Done(true))
                },
                Err(e) => Err(Error::Swapchain(e)),
            },
        }
    }

    /// Lists what giving the renderer up takes, in this order: the device
    /// goes idle, the chain is released, then the context. The renderer is
    /// left without a chain.
    pub fn teardown(&mut self) -> (commands: Vec<Command>)
        ensures
            commands@ == old(self).rebuild_commands() + old(self).context().releases(),
            final(self).chain().is_none(),
            final(self).context() == old(self).context(),
            final(self).pending() == old(self).pending(),
    {
        let ctx = self.ctx;
        let mut commands: Vec<Command> = Vec::new();
        commands.push(Command::WaitIdle);
        match &mut self.swapchain {
            Some(chain) => {
                let mut releases = chain.destroy_with(&ctx);
                commands.append(&mut releases);
            },
            None => {},
        }
        self.swapchain = None;
        let mut of_context = ctx.teardown();
        commands.append(&mut of_context);
        commands
    }

    /// Giving the renderer up starts with the wait for the device and ends
    /// with the instance; of the chain, the handle goes after all its slots
    /// and views, and all of the chain goes before the context.
    pub proof fn lemma_teardown_order(self)
        ensures
            ({
                let commands = self.rebuild_commands() + self.context().releases();
                let of_chain = self.chain_releases().len() as int;
                &&& commands.first() == Command::WaitIdle
                &&& commands.last() == Command::DestroyInstance
                &&& commands.subrange(1, 1 + of_chain) == self.chain_releases()
                &&& commands.subrange(1 + of_chain, commands.len() as int)
                    == self.context().releases()
                &&& self.chain() matches Some(chain) ==> self.chain_releases().last()
                    == Command::DestroySwapchain(chain.handle())
            }),
    {
        let commands = self.rebuild_commands() + self.context().releases();
        let of_chain = self.chain_releases().len() as int;
        assert(commands.subrange(1, 1 + of_chain) =~= self.chain_releases());
        assert(commands.subrange(1 + of_chain, commands.len() as int)
            =~= self.context().releases());
    }

    /// Resizes that find no usable extent are idempotent on the context: the
    /// second of two that negotiate the same extent changes nothing.
    pub proof fn lemma_repeated_resize_changes_nothing(ctx: Context, extent: Extent2D)
        ensures
            ctx.with_extent(extent).with_extent(extent) == ctx.with_extent(extent),
    {
    }

    /// Whether frames can be rendered: there is a chain, and it does not wait
    /// to be rebuilt.
    pub fn is_ready(&self) -> (ready: bool)
        ensures
            ready == self.ready(),
    {
        self.swapchain.is_some() && !self.needs_resizing
    }

    /// Whether the chain waits to be rebuilt.
    pub fn is_resize_pending(&self) -> (pending: bool)
        ensures
            pending == self.pending(),
    {
        self.needs_resizing
    }

    /// The context.
    pub fn ctx(&self) -> (ctx: &Context)
        ensures
            *ctx == self.context(),
    {
        &self.ctx
    }

    /// The image chain, if there is one.
    pub fn swapchain(&self) -> (chain: &Option<Swapchain>)
        ensures
            *chain == self.chain(),
    {
        &self.swapchain
    }
}

} // verus!
