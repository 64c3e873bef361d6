//! Memory management abstractions: portable traits for physical frame
//! allocation and virtual memory mapping, with no paging model prescribed.

use vstd::prelude::*;

verus! {

/// An allocator of fixed-size physical frames, identified by opaque
/// numbers.
///
/// Kernel code must map each allocated frame at most once, or otherwise
/// track it, so that frames are not aliased.
pub trait PhysicalMemoryAllocator {
    /// Whether `frame` was handed out by this allocator and may be given
    /// back. Unless an implementation says more, every frame may be; only
    /// an implementation verified with Verus can say more.
    open spec fn may_deallocate(&self, frame: usize) -> bool {
        true
    }

    /// Allocates a frame and returns its identifier, or `None` when no
    /// frame is available. A frame handed out may be given back.
    fn allocate_frame(&mut self) -> (frame: Option<usize>)
        ensures
            frame matches Some(f) ==> final(self).may_deallocate(f),
    ;

    /// Gives back `frame`, which must have been returned by
    /// [`PhysicalMemoryAllocator::allocate_frame`] and be no longer in use.
    fn deallocate_frame(&mut self, frame: usize)
        requires
            old(self).may_deallocate(frame),
    ;
}

/// A minimal virtual memory manager.
pub trait VirtualMemoryManager {
    /// Maps `virtual_address` to `physical_address`. Implementations may
    /// impose alignment or size constraints, documented with the type.
    fn map(&mut self, virtual_address: usize, physical_address: usize) -> Result<(), ()>;

    /// Removes the mapping of `virtual_address`, if any.
    fn unmap(&mut self, virtual_address: usize) -> Result<(), ()>;
}

} // verus!
