use vstd::prelude::*;

verus! {

/// Identifier of an engine entity, as the engine hands it out.
pub type EntityId = u64;

/// Numeric identifier of a native window, as the window system hands it out.
pub type WindowId = u32;

/// The table that associates native window identifiers with engine entities,
/// bidirectionally. The caller owns the native window objects themselves and
/// keys them by the same window identifier.
///
/// Invariant: the association is one-to-one. Entries are inserted when a
/// window is created for an entity that has no mapping yet and are never
/// removed.
pub struct SdlWindows {
    pairs: Vec<(EntityId, WindowId)>,
}

impl SdlWindows {
    /// The pairs (entity, window id) held by the table, in insertion order.
    pub closed spec fn view(self) -> Seq<(EntityId, WindowId)> {
        self.pairs@
    }

    /// The table associates entity `e` with window id `w`.
    pub open spec fn maps_to(self, e: EntityId, w: WindowId) -> bool {
        exists|i: int| 0 <= i < self.view().len() && self.view()[i] == (e, w)
    }

    /// Some window id is associated with entity `e`.
    pub open spec fn has_entity(self, e: EntityId) -> bool {
        exists|i: int| 0 <= i < self.view().len() && (#[trigger] self.view()[i]).0 == e
    }

    /// Some entity is associated with window id `w`.
    pub open spec fn has_window(self, w: WindowId) -> bool {
        exists|i: int| 0 <= i < self.view().len() && (#[trigger] self.view()[i]).1 == w
    }

    /// One-to-one correspondence: no entity and no window id occurs twice.
    pub open spec fn wf(self) -> bool {
        forall|i: int, j: int|
            0 <= i < j < self.view().len() ==> (#[trigger] self.view()[i]).0 != (
            #[trigger] self.view()[j]).0 && self.view()[i].1 != self.view()[j].1
    }

    /// The entity associated with window id `w`, provided `has_window(w)`.
    pub open spec fn spec_entity_of(self, w: WindowId) -> EntityId {
        choose|e: EntityId| self.maps_to(e, w)
    }

    /// The window id associated with entity `e`, provided `has_entity(e)`.
    pub open spec fn spec_window_of(self, e: EntityId) -> WindowId {
        choose|w: WindowId| self.maps_to(e, w)
    }

    /// In a well-formed table, a window id determines its entity.
    pub proof fn lemma_window_determines_entity(self, w: WindowId)
        requires
            self.wf(),
        ensures
            forall|e1: EntityId, e2: EntityId|
                self.maps_to(e1, w) && self.maps_to(e2, w) ==> e1 == e2,
    {
        assert forall|e1: EntityId, e2: EntityId|
            self.maps_to(e1, w) && self.maps_to(e2, w) implies e1 == e2 by {
            let i = choose|i: int| 0 <= i < self.view().len() && self.view()[i] == (e1, w);
            let j = choose|j: int| 0 <= j < self.view().len() && self.view()[j] == (e2, w);
            if i != j {
                assert(self.view()[i].1 == self.view()[j].1);
            }
        }
    }

    /// In a well-formed table, an entity determines its window id.
    pub proof fn lemma_entity_determines_window(self, e: EntityId)
        requires
            self.wf(),
        ensures
            forall|w1: WindowId, w2: WindowId|
                self.maps_to(e, w1) && self.maps_to(e, w2) ==> w1 == w2,
    {
        assert forall|w1: WindowId, w2: WindowId|
            self.maps_to(e, w1) && self.maps_to(e, w2) implies w1 == w2 by {
            let i = choose|i: int| 0 <= i < self.view().len() && self.view()[i] == (e, w1);
            let j = choose|j: int| 0 <= j < self.view().len() && self.view()[j] == (e, w2);
            if i != j {
                assert(self.view()[i].0 == self.view()[j].0);
            }
        }
    }

    /// In a well-formed table, the two lookup directions are mutually
    /// inverse: an association (entity, window id) is found whole from
    /// either of its halves.
    pub proof fn lemma_lookup_inverse(self, e: EntityId, w: WindowId)
        requires
            self.wf(),
            self.maps_to(e, w),
        ensures
            self.spec_entity_of(w) == e,
            self.spec_window_of(e) == w,
    {
        self.lemma_window_determines_entity(w);
        self.lemma_entity_determines_window(e);
        assert(self.maps_to(self.spec_entity_of(w), w));
        assert(self.maps_to(e, self.spec_window_of(e)));
    }

    /// An empty table.
    pub fn new() -> (r: SdlWindows)
        ensures
            r.view().len() == 0,
            r.wf(),
    {
        SdlWindows { pairs: Vec::new() }
    }

    /// Record that entity `e` owns the native window with id `w`.
    pub fn insert(&mut self, e: EntityId, w: WindowId)
        requires
            old(self).wf(),
            !old(self).has_entity(e),
            !old(self).has_window(w),
        ensures
            final(self).wf(),
            final(self).view() == old(self).view().push((e, w)),
            final(self).maps_to(e, w),
    {
        self.pairs.push((e, w));
        proof {
            let oldv = old(self).view();
            let newv = self.view();
            assert(newv =~= oldv.push((e, w)));
            assert(newv[oldv.len() as int] == (e, w));
            assert(self.maps_to(e, w));
            assert forall|i: int, j: int| 0 <= i < j < newv.len() implies (#[trigger] newv[i]).0
                != (#[trigger] newv[j]).0 && newv[i].1 != newv[j].1 by {
                if j < oldv.len() {
                    assert(oldv[i] == newv[i] && oldv[j] == newv[j]);
                } else {
                    assert(newv[j] == (e, w));
                    assert(newv[i] == oldv[i]);
                    assert(oldv[i].0 != e) by {
                        if oldv[i].0 == e {
                            assert(old(self).has_entity(e));
                        }
                    }
                    assert(oldv[i].1 != w) by {
                        if oldv[i].1 == w {
                            assert(old(self).has_window(w));
                        }
                    }
                }
            }
        }
    }

    /// Whether some native window is already recorded for entity `e`.
    pub fn contains_entity(&self, e: EntityId) -> (r: bool)
        ensures
            r == self.has_entity(e),
    {
        let mut i: usize = 0;
        while i < self.pairs.len()
            invariant
                i <= self.pairs.len(),
                forall|k: int| 0 <= k < i ==> (#[trigger] self.view()[k]).0 != e,
            decreases self.pairs.len() - i,
        {
            if self.pairs[i].0 == e {
                proof {
                    assert((self.view()[i as int]).0 == e);
                }
                return true;
            }
            i += 1;
        }
        false
    }

    /// The entity associated with the native window id, if any.
    pub fn get_window_entity(&self, sdl_window_id: WindowId) -> (r: Option<EntityId>)
        requires
            self.wf(),
        ensures
            r is Some <==> self.has_window(sdl_window_id),
            r matches Some(e) ==> self.maps_to(e, sdl_window_id) && e == self.spec_entity_of(
                sdl_window_id,
            ),
    {
        let mut i: usize = 0;
        while i < self.pairs.len()
            invariant
                self.wf(),
                i <= self.pairs.len(),
                forall|k: int| 0 <= k < i ==> (#[trigger] self.view()[k]).1 != sdl_window_id,
            decreases self.pairs.len() - i,
        {
            if self.pairs[i].1 == sdl_window_id {
                let e = self.pairs[i].0;
                proof {
                    assert(self.view()[i as int] == (e, sdl_window_id));
                    assert(self.maps_to(e, sdl_window_id));
                    self.lemma_window_determines_entity(sdl_window_id);
                }
                return Some(e);
            }
            i += 1;
        }
        None
    }

    /// The native window id recorded for the entity, if any.
    pub fn get_window(&self, entity: EntityId) -> (r: Option<WindowId>)
        requires
            self.wf(),
        ensures
            r is Some <==> self.has_entity(entity),
            r matches Some(w) ==> self.maps_to(entity, w) && w == self.spec_window_of(entity),
    {
        let mut i: usize = 0;
        while i < self.pairs.len()
            invariant
                self.wf(),
                i <= self.pairs.len(),
                forall|k: int| 0 <= k < i ==> (#[trigger] self.view()[k]).0 != entity,
            decreases self.pairs.len() - i,
        {
            if self.pairs[i].0 == entity {
                let w = self.pairs[i].1;
                proof {
                    assert(self.view()[i as int] == (entity, w));
                    assert(self.maps_to(entity, w));
                    self.lemma_entity_determines_window(entity);
                }
                return Some(w);
            }
            i += 1;
        }
        None
    }
}

} // verus!
