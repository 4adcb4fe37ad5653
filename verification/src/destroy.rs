//! Explicit teardown: what has to be destroyed, and in which order.
//!
//! Nothing here calls the driver. A value that owns driver objects lists the
//! commands that release them; its owner sees to it that they are carried out,
//! in the order given.

use vstd::prelude::*;

verus! {

/// One step of synchronisation or teardown for the driver to carry out.
#[derive(Clone, Copy, Debug, PartialEq, Eq, Structural)]
pub enum Command {
    /// Wait until the device has retired all submitted work.
    WaitIdle,
    /// Destroy the semaphore of this raw handle.
    DestroySemaphore(u64),
    /// Destroy the fence of this raw handle.
    DestroyFence(u64),
    /// Destroy the image view of this raw handle.
    DestroyImageView(u64),
    /// Destroy the swapchain of this raw handle.
    DestroySwapchain(u64),
    /// Release the memory allocator bound to the device.
    DestroyAllocator,
    DestroyDevice,
    /// Destroy the surface of this raw handle.
    DestroySurface(u64),
    DestroyInstance,
}

/// A value that owns driver objects and can list the commands that release them.
pub trait Destroy<C>: Sized {
    /// The commands that release what this value owns, in the order in which
    /// they have to be carried out.
    spec fn releases(&self) -> Seq<Command>;

    /// Lists the commands that release what this value owns.
    ///
    /// The value keeps its handles: once the commands are carried out its owner
    /// drops or replaces it.
    fn destroy_with(&mut self, ctx: &C) -> (commands: Vec<Command>)
        ensures
            commands@ == old(self).releases(),
            final(self).releases() == old(self).releases(),
    ;
}

/// The commands that release a sequence of values: those of the first value,
/// then those of the second, and so on.
pub open spec fn releases_of<C, T: Destroy<C>>(items: Seq<T>) -> Seq<Command>
    decreases items.len(),
{
    if items.len() == 0 {
        Seq::empty()
    } else {
        releases_of::<C, T>(items.drop_last()) + items.last().releases()
    }
}

/// Two sequences whose values release the same, place by place, release the same.
pub proof fn lemma_releases_of_pointwise<C, T: Destroy<C>>(a: Seq<T>, b: Seq<T>)
    requires
        a.len() == b.len(),
        forall|i: int| 0 <= i < a.len() ==> (#[trigger] a[i]).releases() == b[i].releases(),
    ensures
        releases_of::<C, T>(a) == releases_of::<C, T>(b),
    decreases a.len(),
{
    if a.len() > 0 {
        lemma_releases_of_pointwise::<C, T>(a.drop_last(), b.drop_last());
    }
}

/// The releases of a sequence with one more value at its end.
pub proof fn lemma_releases_of_push<C, T: Destroy<C>>(items: Seq<T>, item: T)
    ensures
        releases_of::<C, T>(items.push(item)) == releases_of::<C, T>(items) + item.releases(),
{
    assert(items.push(item).drop_last() =~= items);
}

impl<C, T: Destroy<C>> Destroy<C> for Vec<T> {
    open spec fn releases(&self) -> Seq<Command> {
        releases_of::<C, T>(self@)
    }

    fn destroy_with(&mut self, ctx: &C) -> (commands: Vec<Command>) {
        let mut commands: Vec<Command> = Vec::new();
        let mut i: usize = 0;
        while i < self.len()
            invariant
                i <= self.len(),
                self@.len() == old(self)@.len(),
                forall|j: int|
                    0 <= j < self@.len() ==> (#[trigger] self@[j]).releases() == old(
                        self,
                    )@[j].releases(),
                commands@ == releases_of::<C, T>(old(self)@.take(i as int)),
            decreases self.len() - i,
        {
            let mut part = self[i].destroy_with(ctx);
            commands.append(&mut part);
            proof {
                assert(old(self)@.take(i + 1) =~= old(self)@.take(i as int).push(
                    old(self)@[i as int],
                ));
                lemma_releases_of_push::<C, T>(old(self)@.take(i as int), old(self)@[i as int]);
            }
            i += 1;
        }
        proof {
            assert(old(self)@.take(i as int) =~= old(self)@);
            lemma_releases_of_pointwise::<C, T>(self@, old(self)@);
        }
        commands
    }
}

impl<C, T: Destroy<C>, const N: usize> Destroy<C> for [T; N] {
    open spec fn releases(&self) -> Seq<Command> {
        releases_of::<C, T>(self@)
    }

    fn destroy_with(&mut self, ctx: &C) -> (commands: Vec<Command>) {
        let mut commands: Vec<Command> = Vec::new();
        let mut i: usize = 0;
        while i < N
            invariant
                i <= N,
                self@.len() == N,
                old(self)@.len() == N,
                forall|j: int|
                    0 <= j < N ==> (#[trigger] self@[j]).releases() == old(self)@[j].releases(),
                commands@ == releases_of::<C, T>(old(self)@.take(i as int)),
            decreases N - i,
        {
            let mut part = self[i].destroy_with(ctx);
            commands.append(&mut part);
            proof {
                assert(old(self)@.take(i + 1) =~= old(self)@.take(i as int).push(
                    old(self)@[i as int],
                ));
                lemma_releases_of_push::<C, T>(old(self)@.take(i as int), old(self)@[i as int]);
            }
            i += 1;
        }
        proof {
            assert(old(self)@.take(i as int) =~= old(self)@);
            lemma_releases_of_pointwise::<C, T>(self@, old(self)@);
        }
        commands
    }
}

} // verus!
