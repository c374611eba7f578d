use vstd::prelude::*;
use crate::bindings::{BindGroupEntry, bind_group_entries, bind_group_spec};
use crate::uniform_buffer::{RenderAction, UniformBuffer, after_begin, after_complete, render_action};

verus! {

/// The binding locations of `slots`, in order.
pub open spec fn slot_locations<T>(slots: Seq<(u32, T)>) -> Seq<u32> {
    slots.map_values(|s: (u32, T)| s.0)
}

/// `i` is the first slot bound at `location`.
pub open spec fn is_first_slot<T>(slots: Seq<(u32, T)>, location: u32, i: int) -> bool {
    &&& 0 <= i < slots.len()
    &&& slots[i].0 == location
    &&& forall|j: int| 0 <= j < i ==> slots[j].0 != location
}

/// Renderer state: the uniform buffer protocol, the texture slots with the
/// view bound to each (of type `T`), and the bind group over them.
pub struct Renderer<T> {
    pub uniform_buffer: UniformBuffer,
    pub uniform_location: u32,
    pub textures: Vec<(u32, T)>,
    pub sampler_location: u32,
    pub bind_group: Vec<BindGroupEntry>,
}

impl<T> Renderer<T> {
    pub open spec fn wf(&self) -> bool {
        &&& self.uniform_buffer.wf()
        &&& self.bind_group@ == bind_group_spec(self.uniform_location, slot_locations(self.textures@), self.sampler_location)
    }

    /// A renderer whose slots at `locations` hold `views`, one each, and
    /// whose uniform buffer holds `uniform_size` zero bytes.
    pub fn new(uniform_size: usize, uniform_location: u32, locations: &Vec<u32>, views: Vec<T>, sampler_location: u32) -> (r: Renderer<T>)
        requires
            views@.len() == locations@.len(),
        ensures
            r.wf(),
            r.uniform_buffer.ready,
            r.uniform_buffer.size == uniform_size,
            r.uniform_buffer.contents@ == Seq::new(uniform_size as nat, |i: int| 0u8),
            r.uniform_location == uniform_location,
            r.sampler_location == sampler_location,
            r.textures@ == Seq::new(views@.len(), |i: int| (locations@[i], views@[i])),
    {
        let mut textures: Vec<(u32, T)> = Vec::new();
        let mut views = views;
        let ghost vs = views@;
        let mut i: usize = locations.len();
        // Fill from the back so that each view can be moved out.
        let mut rev: Vec<(u32, T)> = Vec::new();
        while i > 0
            invariant
                0 <= i <= locations@.len(),
                vs.len() == locations@.len(),
                views@ == vs.take(i as int),
                rev@.len() == locations@.len() - i,
                forall|j: int| 0 <= j < rev@.len() ==> #[trigger] rev@[j] == (locations@[locations@.len() - 1 - j], vs[locations@.len() - 1 - j]),
            decreases i,
        {
            let v = views.pop().unwrap();
            i = i - 1;
            proof {
                assert(vs.take(i + 1).drop_last() =~= vs.take(i as int));
            }
            rev.push((locations[i], v));
        }
        while rev.len() > 0
            invariant
                rev@.len() + textures@.len() == locations@.len(),
                vs.len() == locations@.len(),
                forall|j: int| 0 <= j < rev@.len() ==> #[trigger] rev@[j] == (locations@[locations@.len() - 1 - j], vs[locations@.len() - 1 - j]),
                forall|j: int| 0 <= j < textures@.len() ==> #[trigger] textures@[j] == (locations@[j], vs[j]),
            decreases rev@.len(),
        {
            let e = rev.pop().unwrap();
            textures.push(e);
        }
        proof {
            assert(textures@ =~= Seq::new(vs.len(), |i: int| (locations@[i], vs[i])));
            assert(slot_locations(textures@) =~= locations@);
        }
        let bind_group = bind_group_entries(uniform_location, locations, sampler_location);
        Renderer {
            uniform_buffer: UniformBuffer::new(uniform_size),
            uniform_location,
            textures,
            sampler_location,
            bind_group,
        }
    }
    /// Rebuilds the bind group from the current slots.
    fn recreate_bind_group(&mut self)
        requires
            old(self).uniform_buffer.wf(),
        ensures
            final(self).wf(),
            final(self).uniform_buffer == old(self).uniform_buffer,
            final(self).uniform_location == old(self).uniform_location,
            final(self).textures == old(self).textures,
            final(self).sampler_location == old(self).sampler_location,
    {
        let mut locations: Vec<u32> = Vec::new();
        let mut i: usize = 0;
        while i < self.textures.len()
            invariant
                0 <= i <= self.textures@.len(),
                locations@ == slot_locations(self.textures@.take(i as int)),
            decreases self.textures@.len() - i,
        {
            locations.push(self.textures[i].0);
            proof {
                assert(self.textures@.take(i + 1) =~= self.textures@.take(i as int).push(self.textures@[i as int]));
            }
            i = i + 1;
            proof {
                assert(locations@ =~= slot_locations(self.textures@.take(i as int)));
            }
        }
        proof {
            assert(self.textures@.take(i as int) =~= self.textures@);
        }
        self.bind_group = bind_group_entries(self.uniform_location, &locations, self.sampler_location);
    }

    /// Whether a texture slot is registered at `location`.
    pub fn has_texture_slot(&self, location: u32) -> (r: bool)
        ensures
            r <==> exists|i: int| 0 <= i < self.textures@.len() && self.textures@[i].0 == location,
    {
        let mut i: usize = 0;
        while i < self.textures.len()
            invariant
                0 <= i <= self.textures@.len(),
                forall|j: int| 0 <= j < i ==> self.textures@[j].0 != location,
            decreases self.textures@.len() - i,
        {
            if self.textures[i].0 == location {
                return true;
            }
            i = i + 1;
        }
        false
    }

    /// Binds `view` to the first slot registered at `location` and rebuilds
    /// the bind group. Returns whether such a slot exists; where none does,
    /// nothing changes.
    pub fn bind_texture(&mut self, location: u32, view: T) -> (r: bool)
        requires
            old(self).wf(),
        ensures
            final(self).wf(),
            r <==> exists|i: int| 0 <= i < old(self).textures@.len() && old(self).textures@[i].0 == location,
            !r ==> *final(self) == *old(self),
            r ==> exists|i: int| is_first_slot(old(self).textures@, location, i)
                && final(self).textures@ == old(self).textures@.update(i, (location, view)),
            final(self).uniform_buffer == old(self).uniform_buffer,
            final(self).uniform_location == old(self).uniform_location,
            final(self).sampler_location == old(self).sampler_location,
    {
        let mut i: usize = 0;
        while i < self.textures.len()
            invariant
                0 <= i <= self.textures@.len(),
                *self == *old(self),
                self.wf(),
                forall|j: int| 0 <= j < i ==> self.textures@[j].0 != location,
            decreases self.textures@.len() - i,
        {
            if self.textures[i].0 == location {
                let ghost before = self.textures@;
                self.textures.set(i, (location, view));
                proof {
                    assert(is_first_slot(before, location, i as int));
                    assert(self.textures@ == before.update(i as int, (location, view)));
                    assert(slot_locations(self.textures@) =~= slot_locations(before));
                }
                self.recreate_bind_group();
                return true;
            }
            i = i + 1;
        }
        false
    }

    /// Starts writing `bytes` into the uniform buffer; `render` waits until
    /// the write has completed.
    pub fn fill_uniform_buffer(&mut self, bytes: Vec<u8>)
        requires
            old(self).wf(),
            old(self).uniform_buffer.ready,
            bytes@.len() == old(self).uniform_buffer.size,
        ensures
            final(self).wf(),
            final(self).uniform_buffer == after_begin(old(self).uniform_buffer, bytes),
            final(self).textures == old(self).textures,
            final(self).bind_group == old(self).bind_group,
    {
        self.uniform_buffer.begin_write(bytes);
    }

    /// The uniform buffer's in-flight write has been delivered.
    pub fn uniform_write_completed(&mut self)
        requires
            old(self).wf(),
        ensures
            final(self).wf(),
            final(self).uniform_buffer == after_complete(old(self).uniform_buffer),
            final(self).textures == old(self).textures,
            final(self).bind_group == old(self).bind_group,
    {
        self.uniform_buffer.complete_write();
    }

    /// The next step of drawing a mesh of `index_count` indices: pump while
    /// the uniform write is in flight, then draw.
    pub fn render(&self, index_count: u32) -> (r: RenderAction)
        ensures
            r == render_action(self.uniform_buffer, index_count),
    {
        self.uniform_buffer.next_render_action(index_count)
    }
}

} // verus!
