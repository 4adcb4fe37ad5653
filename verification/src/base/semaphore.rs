//! Semaphores: signals from one piece of device work to the next.

use ash::vk;
use vstd::prelude::*;

use crate::context::device;
use crate::context::Context;
use crate::destroy::{Command, Destroy};

verus! {

/// A semaphore, by its raw handle.
#[derive(Clone, Copy, Debug, PartialEq, Eq, Structural)]
pub struct Semaphore {
    pub handle: u64,
}

/// Why there is no semaphore.
#[derive(Debug)]
pub enum Error {
    /// The driver refused to create it.
    Create(vk::Result),
    Device(device::Error),
}

impl Semaphore {
    /// Takes over the semaphore the driver created, or says why there is
    /// none: the driver refused, or the semaphore could not be named. What
    /// naming came to counts only where the semaphore was created.
    pub fn new(created: Result<u64, vk::Result>, named: Result<(), device::Error>) -> (semaphore:
        Result<Self, Error>)
        ensures
            semaphore == match created {
                Err(code) => Err::<Self, Error>(Error::Create(code)),
                Ok(handle) => match named {
                    Err(e) => Err(Error::Device(e)),
                    Ok(_) => Ok(Semaphore { handle }),
                },
            },
    {
        let handle = match created {
            Ok(handle) => handle,
            Err(code) => { return Err(Error::Create(code)); },
        };
        match named {
            Ok(_) => Ok(Semaphore { handle }),
            Err(e) => Err(Error::Device(e)),
        }
    }
}

impl Destroy<Context> for Semaphore {
    open spec fn releases(&self) -> Seq<Command> {
        seq![Command::DestroySemaphore(self.handle)]
    }

    fn destroy_with(&mut self, ctx: &Context) -> (commands: Vec<Command>) {
        let mut commands: Vec<Command> = Vec::new();
        commands.push(Command::DestroySemaphore(self.handle));
        commands
    }
}

} // verus!
