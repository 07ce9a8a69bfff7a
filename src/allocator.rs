//! Slot tags: small integers naming each live sprite's row in the storage array.
use vstd::prelude::*;

use std::collections::VecDeque;

verus! {

/// A sprite's row in the storage array.
#[derive(Clone, Copy, Debug, PartialEq, Eq, Structural)]
pub struct MeshTag(pub u32);

/// The allocator's state: the next never-used tag and the queue of recycled tags.
pub type TagPool = (u32, Seq<u32>);

/// The tag an allocation hands out, and the state after it: the oldest recycled tag if
/// there is one, else the next never-used tag.
pub open spec fn allocated(s: TagPool) -> (u32, TagPool) {
    if s.1.len() > 0 {
        (s.1[0], (s.0, s.1.drop_first()))
    } else {
        (s.0, ((s.0 + 1) as u32, s.1))
    }
}

/// The state after recycling `tag`: it joins the back of the queue.
pub open spec fn freed(s: TagPool, tag: u32) -> TagPool {
    (s.0, s.1.push(tag))
}

/// An allocation cannot run the never-used counter past the largest tag.
pub open spec fn can_allocate(s: TagPool) -> bool {
    s.1.len() > 0 || s.0 < u32::MAX
}

/// Hands out tags, reusing recycled ones first-in first-out.
pub struct MeshTagAllocator {
    pub next_tag: u32,
    pub free_list: VecDeque<u32>,
}

impl View for MeshTagAllocator {
    type V = TagPool;

    open spec fn view(&self) -> TagPool {
        (self.next_tag, self.free_list@)
    }
}

impl MeshTagAllocator {
    /// No tag handed out yet.
    pub fn new() -> (r: MeshTagAllocator)
        ensures
            r@ == (0u32, Seq::<u32>::empty()),
    {
        MeshTagAllocator { next_tag: 0, free_list: VecDeque::new() }
    }

    /// The tag the next allocation will hand out.
    pub fn upcoming_tag(&self) -> (r: u32)
        ensures
            r == allocated(self@).0,
    {
        if self.free_list.len() > 0 {
            self.free_list[0]
        } else {
            self.next_tag
        }
    }

    /// Hands out the oldest recycled tag, or else the next never-used one.
    pub fn allocate_tag(&mut self) -> (r: MeshTag)
        requires
            can_allocate(old(self)@),
        ensures
            (r.0, final(self)@) == allocated(old(self)@),
    {
        match self.free_list.pop_front() {
            Some(recycled) => {
                assert(self.free_list@ =~= old(self).free_list@.drop_first());
                MeshTag(recycled)
            },
            None => {
                let tag = self.next_tag;
                self.next_tag = self.next_tag + 1;
                MeshTag(tag)
            },
        }
    }

    /// Recycles `tag`: it will be handed out again after the tags recycled before it.
    pub fn free_tag(&mut self, tag: u32)
        ensures
            final(self)@ == freed(old(self)@, tag),
    {
        self.free_list.push_back(tag);
    }
}

impl Default for MeshTagAllocator {
    fn default() -> (r: MeshTagAllocator)
        ensures
            r@ == (0u32, Seq::<u32>::empty()),
    {
        MeshTagAllocator::new()
    }
}

} // verus!
