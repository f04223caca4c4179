use vstd::prelude::*;

use crate::resources::{Capability, ResourceView};

verus! {

/// Which stage kinds may use a slot.
#[derive(Clone, Copy, Debug, PartialEq, Eq, Structural)]
pub struct Visibility {
    pub vertex: bool,
    pub fragment: bool,
    pub compute: bool,
}

/// One slot of a layout: its binding index, who may use it and what kind of
/// view it must hold.
#[derive(Clone, Copy, Debug, PartialEq, Eq, Structural)]
pub struct SlotDesc {
    pub binding: u32,
    pub visibility: Visibility,
    pub capability: Capability,
}

/// The ordered slots a binding set must fill.
pub struct BindingSetLayout {
    pub slots: Vec<SlotDesc>,
}

/// Names the first slot that a binding set could not fill as its layout asks.
#[derive(Clone, Copy, Debug, PartialEq, Eq, Structural)]
pub struct BindingMismatchError {
    pub slot: usize,
}

/// A slot may be filled by a view when some stage kind can see it, a
/// storage texture is not handed to the vertex program, and the view's
/// capability is exactly the one the slot requires.
pub open spec fn slot_accepts(s: SlotDesc, v: ResourceView) -> bool {
    &&& s.visibility.vertex || s.visibility.fragment || s.visibility.compute
    &&& s.visibility.vertex ==> !(s.capability is StorageTexture)
    &&& v@.capability == Some(s.capability)
}

pub open spec fn min_len(a: int, b: int) -> int {
    if a < b {
        a
    } else {
        b
    }
}

/// The layout is filled with exactly one accepted view per slot.
pub open spec fn binding_valid(slots: Seq<SlotDesc>, views: Seq<ResourceView>) -> bool {
    &&& slots.len() == views.len()
    &&& forall|i: int| 0 <= i < slots.len() ==> slot_accepts(#[trigger] slots[i], views[i])
}

/// `k` is the first slot at which filling the layout goes wrong: a view that
/// the slot does not accept, or a slot (or view) with no counterpart.
pub open spec fn first_mismatch(slots: Seq<SlotDesc>, views: Seq<ResourceView>, k: int) -> bool {
    &&& 0 <= k <= min_len(slots.len() as int, views.len() as int)
    &&& forall|i: int| 0 <= i < k ==> slot_accepts(#[trigger] slots[i], views[i])
    &&& k < min_len(slots.len() as int, views.len() as int) ==> !slot_accepts(slots[k], views[k])
    &&& k == min_len(slots.len() as int, views.len() as int) ==> slots.len() != views.len()
}

fn accepts(s: &SlotDesc, v: &ResourceView) -> (r: bool)
    ensures
        r == slot_accepts(*s, *v),
{
    let seen = s.visibility.vertex || s.visibility.fragment || s.visibility.compute;
    let storage = match s.capability {
        Capability::StorageTexture(_) => true,
        _ => false,
    };
    seen && (!s.visibility.vertex || !storage) && v.capability() == Some(s.capability)
}

/// An immutable association of views to the slots of a layout.
pub struct BindingSet {
    slots: Vec<SlotDesc>,
    views: Vec<ResourceView>,
}

impl BindingSet {
    pub closed spec fn slots_view(&self) -> Seq<SlotDesc> {
        self.slots@
    }

    pub closed spec fn views_view(&self) -> Seq<ResourceView> {
        self.views@
    }

    pub open spec fn wf(&self) -> bool {
        binding_valid(self.slots_view(), self.views_view())
    }

    /// Checks `views` against `layout` slot by slot; on success the set
    /// holds them unchanged, otherwise nothing is bound and the error names
    /// the first offending slot.
    pub fn create(layout: BindingSetLayout, views: Vec<ResourceView>) -> (r: Result<
        BindingSet,
        BindingMismatchError,
    >)
        ensures
            binding_valid(layout.slots@, views@) <==> r is Ok,
            r matches Ok(b) ==> b.slots_view() == layout.slots@ && b.views_view() == views@
                && b.wf(),
            r matches Err(e) ==> first_mismatch(layout.slots@, views@, e.slot as int),
    {
        let n = if layout.slots.len() < views.len() {
            layout.slots.len()
        } else {
            views.len()
        };
        let mut i: usize = 0;
        while i < n
            invariant
                n == min_len(layout.slots@.len() as int, views@.len() as int),
                0 <= i <= n,
                forall|j: int| 0 <= j < i ==> slot_accepts(#[trigger] layout.slots@[j], views@[j]),
            decreases n - i,
        {
            if !accepts(&layout.slots[i], &views[i]) {
                return Err(BindingMismatchError { slot: i });
            }
            i = i + 1;
        }
        if layout.slots.len() != views.len() {
            return Err(BindingMismatchError { slot: n });
        }
        Ok(BindingSet { slots: layout.slots, views })
    }

    pub fn slots(&self) -> (r: &Vec<SlotDesc>)
        ensures
            r@ == self.slots_view(),
    {
        &self.slots
    }

    pub fn views(&self) -> (r: &Vec<ResourceView>)
        ensures
            r@ == self.views_view(),
    {
        &self.views
    }
}

/// A view whose capability differs from its slot's can never be bound:
/// creating the set fails, and the first failing slot is at or before it.
pub proof fn lemma_capability_mismatch_rejected(
    slots: Seq<SlotDesc>,
    views: Seq<ResourceView>,
    k: int,
)
    requires
        0 <= k < slots.len(),
        k < views.len(),
        views[k]@.capability != Some(slots[k].capability),
    ensures
        !binding_valid(slots, views),
        forall|e: int| first_mismatch(slots, views, e) ==> e <= k,
{
    assert(!slot_accepts(slots[k], views[k]));
    assert forall|e: int| first_mismatch(slots, views, e) implies e <= k by {
        if e > k {
            assert(slot_accepts(slots[k], views[k]));
        }
    }
}

} // verus!
