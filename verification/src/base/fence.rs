//! Fences: gates the host can wait on.

use ash::vk;
use vstd::prelude::*;

use crate::context::device;
use crate::context::Context;
use crate::destroy::{Command, Destroy};

verus! {

/// A fence, by its raw handle.
#[derive(Clone, Copy, Debug, PartialEq, Eq, Structural)]
pub struct Fence {
    pub handle: u64,
}

/// Why there is no fence.
#[derive(Debug)]
pub enum Error {
    /// The driver refused to create it.
    Create(vk::Result),
    Device(device::Error),
}

/// The creation flag of a fence that starts out signaled.
pub const SIGNALED: u32 = 0x1;

/// The raw bits of `ash::vk::FenceCreateFlags::SIGNALED`. Trusted: that `ash`
/// gives it the bit 1.
#[verifier::external_body]
fn ash_signaled() -> (flags: u32)
    ensures
        flags == SIGNALED,
{
    vk::FenceCreateFlags::SIGNALED.as_raw()
}

impl Fence {
    /// The flags to create a fence with, by the raw bits of
    /// `ash::vk::FenceCreateFlags`: signaled from the start, or not.
    pub fn create_flags(signaled: bool) -> (flags: u32)
        ensures
            flags == if signaled {
                SIGNALED
            } else {
                0
            },
    {
        if signaled {
            ash_signaled()
        } else {
            0
        }
    }

    /// Takes over the fence the driver created, or says why there is none:
    /// the driver refused, or the fence could not be named. What naming came
    /// to counts only where the fence was created.
    pub fn new(created: Result<u64, vk::Result>, named: Result<(), device::Error>) -> (fence:
        Result<Self, Error>)
        ensures
            fence == match created {
                Err(code) => Err::<Self, Error>(Error::Create(code)),
                Ok(handle) => match named {
                    Err(e) => Err(Error::Device(e)),
                    Ok(_) => Ok(Fence { handle }),
                },
            },
    {
        let handle = match created {
            Ok(handle) => handle,
            Err(code) => { return Err(Error::Create(code)); },
        };
        match named {
            Ok(_) => Ok(Fence { handle }),
            Err(e) => Err(Error::Device(e)),
        }
    }
}

impl Destroy<Context> for Fence {
    open spec fn releases(&self) -> Seq<Command> {
        seq![Command::DestroyFence(self.handle)]
    }

    fn destroy_with(&mut self, ctx: &Context) -> (commands: Vec<Command>) {
        let mut commands: Vec<Command> = Vec::new();
        commands.push(Command::DestroyFence(self.handle));
        commands
    }
}

} // verus!
