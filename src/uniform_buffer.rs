use vstd::prelude::*;

verus! {

/// Host-side state of the uniform buffer's write protocol.
///
/// `ready` is the readiness flag. While it is false a write is in flight and
/// `pending` holds the bytes it will deliver; once the write completes,
/// `contents` holds them and `ready` is true again.
pub struct UniformBuffer {
    pub size: usize,
    pub ready: bool,
    pub contents: Vec<u8>,
    pub pending: Option<Vec<u8>>,
}

/// What `render` does next.
#[derive(Clone, Copy, Debug, PartialEq, Eq, Structural)]
pub enum RenderAction {
    /// Submit an empty batch so that pending completions get delivered.
    Pump,
    /// Issue the indexed draw over this many indices.
    Draw(u32),
}

impl UniformBuffer {
    pub open spec fn wf(&self) -> bool {
        &&& self.contents@.len() == self.size
        &&& self.ready <==> self.pending is None
        &&& self.pending matches Some(p) ==> p@.len() == self.size
    }

    /// A buffer of `size` bytes, zero-filled, with the flag set.
    pub fn new(size: usize) -> (r: UniformBuffer)
        ensures
            r.wf(),
            r.size == size,
            r.ready,
            r.contents@ == Seq::new(size as nat, |i: int| 0u8),
    {
        let mut contents: Vec<u8> = Vec::new();
        let mut i: usize = 0;
        while i < size
            invariant
                0 <= i <= size,
                contents@ == Seq::new(i as nat, |j: int| 0u8),
            decreases size - i,
        {
            contents.push(0);
            i = i + 1;
            proof {
                assert(contents@ =~= Seq::new(i as nat, |j: int| 0u8));
            }
        }
        UniformBuffer { size, ready: true, contents, pending: None }
    }

    /// Begins a write of `bytes`: the flag is cleared until the write
    /// completes.
    pub fn begin_write(&mut self, bytes: Vec<u8>)
        requires
            old(self).wf(),
            old(self).ready,
            bytes@.len() == old(self).size,
        ensures
            final(self).wf(),
            *final(self) == after_begin(*old(self), bytes),
    {
        self.ready = false;
        self.pending = Some(bytes);
    }

    /// The in-flight write completes: its bytes become the contents, whole,
    /// and the flag is set.
    pub fn complete_write(&mut self)
        requires
            old(self).wf(),
        ensures
            final(self).wf(),
            *final(self) == after_complete(*old(self)),
    {
        match self.pending.take() {
            Some(p) => {
                self.contents = p;
            },
            None => {},
        }
        self.ready = true;
    }

    /// The next step of `render` over `index_count` indices: pump while the
    /// flag is false, draw once it is set.
    pub fn next_render_action(&self, index_count: u32) -> (r: RenderAction)
        ensures
            r == render_action(*self, index_count),
    {
        if self.ready {
            RenderAction::Draw(index_count)
        } else {
            RenderAction::Pump
        }
    }
}

/// State after `begin_write`.
pub open spec fn after_begin(s: UniformBuffer, bytes: Vec<u8>) -> UniformBuffer {
    UniformBuffer { ready: false, pending: Some(bytes), ..s }
}

/// State after the in-flight write completes.
pub open spec fn after_complete(s: UniformBuffer) -> UniformBuffer {
    match s.pending {
        Some(p) => UniformBuffer { ready: true, pending: None, contents: p, ..s },
        None => UniformBuffer { ready: true, ..s },
    }
}

/// What `render` does in state `s`.
pub open spec fn render_action(s: UniformBuffer, index_count: u32) -> RenderAction {
    if s.ready {
        RenderAction::Draw(index_count)
    } else {
        RenderAction::Pump
    }
}

/// No draw is issued while the readiness flag is false: `render` only pumps.
pub proof fn lemma_no_draw_while_busy(s: UniformBuffer, index_count: u32)
    requires
        !s.ready,
    ensures
        render_action(s, index_count) == RenderAction::Pump,
{
}

/// Whatever the buffer held before, a write of `bytes` keeps `render`
/// pumping until it completes; once it has, the buffer holds exactly
/// `bytes`, never a mix with an earlier value, and `render` draws.
pub proof fn lemma_fill_then_render(s: UniformBuffer, bytes: Vec<u8>, index_count: u32)
    requires
        s.wf(),
        s.ready,
        bytes@.len() == s.size,
    ensures
        after_begin(s, bytes).wf(),
        render_action(after_begin(s, bytes), index_count) == RenderAction::Pump,
        after_complete(after_begin(s, bytes)).wf(),
        after_complete(after_begin(s, bytes)).contents@ == bytes@,
        render_action(after_complete(after_begin(s, bytes)), index_count) == RenderAction::Draw(index_count),
{
}

} // verus!
