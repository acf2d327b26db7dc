//! Scope tags and the tags that the usage analysis reserves.

use vstd::prelude::*;

verus! {

/// Hands out scope tags for one compilation unit: each tag once, in
/// increasing order. Tag 0 is never handed out.
#[derive(Debug)]
pub struct TagArena {
    next: u32,
}

impl View for TagArena {
    type V = nat;

    /// The next tag to be handed out.
    closed spec fn view(&self) -> nat {
        self.next as nat
    }
}

impl TagArena {
    pub fn new() -> (r: TagArena)
        ensures
            r@ == 1,
    {
        TagArena { next: 1 }
    }

    /// A tag that was never handed out before.
    pub fn fresh(&mut self) -> (r: u32)
        requires
            old(self)@ < u32::MAX,
        ensures
            r == old(self)@,
            final(self)@ == old(self)@ + 1,
    {
        let r = self.next;
        self.next = self.next + 1;
        r
    }
}

/// The tags that the usage analysis attaches to nodes.
#[derive(Clone, Copy, Debug, PartialEq, Eq, Hash, Structural)]
pub struct Marks {
    /// Applied to non-top level variables which are injected while
    /// inlining: such nodes are no top level items, even in the top level
    /// scope.
    pub non_top_level: u32,
    /// A sequence expression made by the minifier.
    pub synthesized_seq: u32,
    /// A function treated as a module of its own: it is not analyzed.
    pub standalone: u32,
    /// A module made of standalone functions.
    pub bundle_of_standalone: u32,
    /// `/** @const */`
    pub const_ann: u32,
    /// `/*#__NOINLINE__*/`
    pub noinline: u32,
    /// `/*#__PURE__*/`
    pub pure: u32,
    /// A block injected to keep side effects.
    pub fake_block: u32,
    /// Names that no declaration resolves.
    pub unresolved_mark: u32,
}

/// The tags of `m`, in field order.
pub open spec fn marks_seq(m: Marks) -> Seq<u32> {
    seq![
        m.non_top_level,
        m.synthesized_seq,
        m.standalone,
        m.bundle_of_standalone,
        m.const_ann,
        m.noinline,
        m.pure,
        m.fake_block,
        m.unresolved_mark,
    ]
}

impl Marks {
    /// Nine fresh tags from `arena`, in field order.
    pub fn new(arena: &mut TagArena) -> (r: Marks)
        requires
            old(arena)@ + 9 <= u32::MAX,
        ensures
            final(arena)@ == old(arena)@ + 9,
            forall|i: int| 0 <= i < 9 ==> #[trigger] marks_seq(r)[i] == old(arena)@ + i,
    {
        let non_top_level = arena.fresh();
        let synthesized_seq = arena.fresh();
        let standalone = arena.fresh();
        let bundle_of_standalone = arena.fresh();
        let const_ann = arena.fresh();
        let noinline = arena.fresh();
        let pure = arena.fresh();
        let fake_block = arena.fresh();
        let unresolved_mark = arena.fresh();
        Marks {
            non_top_level,
            synthesized_seq,
            standalone,
            bundle_of_standalone,
            const_ann,
            noinline,
            pure,
            fake_block,
            unresolved_mark,
        }
    }
}

/// The tags of `Marks::new` are pairwise distinct, and none of them is a
/// tag that the arena handed out before the call (any `t` below `start`):
/// a binding tagged earlier is never taken for one of the reserved marks,
/// such as the unresolved one.
pub proof fn lemma_marks_fresh(m: Marks, start: nat, t: u32)
    requires
        forall|i: int| 0 <= i < 9 ==> #[trigger] marks_seq(m)[i] == start + i,
        t < start,
    ensures
        forall|i: int, j: int| 0 <= i < 9 && 0 <= j < 9 && i != j ==> #[trigger] marks_seq(m)[i] != #[trigger] marks_seq(
            m,
        )[j],
        forall|i: int| 0 <= i < 9 ==> #[trigger] marks_seq(m)[i] != t,
        m.unresolved_mark != t,
{
    assert(marks_seq(m)[8] == m.unresolved_mark);
}

} // verus!
