//! The synchronisation objects of one frame in flight.

use vstd::prelude::*;

use crate::base::fence;
use crate::base::fence::Fence;
use crate::base::semaphore;
use crate::base::semaphore::Semaphore;
use crate::context::Context;
use crate::destroy::{Command, Destroy};

verus! {

/// The three objects that order one frame: the signal that an image is
/// available, the signal that rendering to it is complete, and the fence
/// that tells the host when the slot is free again.
#[derive(Clone, Copy, Debug, PartialEq, Eq, Structural)]
pub struct SyncState {
    pub available: Semaphore,
    pub ready: Semaphore,
    pub presented: Fence,
}

/// Why the objects of a slot could not be created.
#[derive(Debug)]
pub enum Error {
    Fence(fence::Error),
    Semaphore(semaphore::Error),
}

impl SyncState {
    /// The flags to create the fence of a slot with: signaled, so that the
    /// first frame through the slot finds it free.
    pub fn presented_create_flags() -> (flags: u32)
        ensures
            flags == fence::SIGNALED,
    {
        Fence::create_flags(true)
    }

    /// Puts the slot together from what creating its three objects came to,
    /// or gives the error of the first that failed, in the order available,
    /// ready, presented.
    ///
    /// An object is created where all before it were, and what creating it
    /// came to is there where it was attempted.
    pub fn new(
        available: Result<Semaphore, semaphore::Error>,
        ready: Option<Result<Semaphore, semaphore::Error>>,
        presented: Option<Result<Fence, fence::Error>>,
    ) -> (state: Result<Self, Error>)
        requires
            available.is_ok() ==> ready.is_some(),
            available.is_ok() && (ready matches Some(Ok(_))) ==> presented.is_some(),
        ensures
            state == match available {
                Err(e) => Err::<Self, Error>(Error::Semaphore(e)),
                Ok(available) => match ready.unwrap() {
                    Err(e) => Err(Error::Semaphore(e)),
                    Ok(ready) => match presented.unwrap() {
                        Err(e) => Err(Error::Fence(e)),
                        Ok(presented) => Ok(SyncState { available, ready, presented }),
                    },
                },
            },
    {
        let available = match available {
            Ok(semaphore) => semaphore,
            Err(e) => { return Err(Error::Semaphore(e)); },
        };
        let ready = match ready.unwrap() {
            Ok(semaphore) => semaphore,
            Err(e) => { return Err(Error::Semaphore(e)); },
        };
        let presented = match presented.unwrap() {
            Ok(fence) => fence,
            Err(e) => { return Err(Error::Fence(e)); },
        };
        Ok(SyncState { available, ready, presented })
    }
}

impl Destroy<Context> for SyncState {
    /// The two semaphores, then the fence.
    open spec fn releases(&self) -> Seq<Command> {
        seq![
            Command::DestroySemaphore(self.available.handle),
            Command::DestroySemaphore(self.ready.handle),
            Command::DestroyFence(self.presented.handle),
        ]
    }

    fn destroy_with(&mut self, ctx: &Context) -> (commands: Vec<Command>) {
        let mut commands = self.available.destroy_with(ctx);
        let mut ready = self.ready.destroy_with(ctx);
        let mut presented = self.presented.destroy_with(ctx);
        commands.append(&mut ready);
        commands.append(&mut presented);
        assert(commands@ =~= old(self).releases());
        commands
    }
}

} // verus!
