//! The control collection: which logical identifier is bound to which
//! window.

use std::collections::HashMap;
use vstd::prelude::*;
use vstd::std_specs::hash::spec_keys_iter;
use vstd::std_specs::iter::IteratorSpec;
use crate::handle::{ControlId, Handle};

verus! {

broadcast use vstd::std_specs::hash::group_hash_axioms;

/// The window bound to `id`, if the collection holds `id`.
pub open spec fn lookup(controls: Map<ControlId, Handle>, id: ControlId) -> Option<Handle> {
    if controls.contains_key(id) {
        Some(controls[id])
    } else {
        None
    }
}

/// The control `key`, bound to `handle`, leaves with the control `id`: it is
/// the control `id`, or it is bound to one of the windows in `gone`.
pub open spec fn leaves(key: ControlId, handle: Handle, id: ControlId, gone: Seq<Handle>) -> bool {
    key == id || gone.contains(handle)
}

/// The identifiers that leave when the control `id` leaves with the windows
/// in `gone`.
pub open spec fn leaving(controls: Map<ControlId, Handle>, id: ControlId, gone: Seq<Handle>) -> Set<
    ControlId,
> {
    Set::new(|key: ControlId| controls.contains_key(key) && leaves(key, controls[key], id, gone))
}

/// The controls that stay when the control `id` leaves with the windows in
/// `gone`, bound as they were.
pub open spec fn staying(controls: Map<ControlId, Handle>, id: ControlId, gone: Seq<Handle>) -> Map<
    ControlId,
    Handle,
> {
    controls.remove_keys(leaving(controls, id, gone))
}

/// Once the control `id` has left with the windows in `gone`, the
/// collection holds neither `id` nor any control bound to one of those
/// windows; every other control is bound as it was; and each identifier
/// that left was held before.
pub proof fn lemma_purged(controls: Map<ControlId, Handle>, id: ControlId, gone: Seq<Handle>)
    ensures
        !staying(controls, id, gone).contains_key(id),
        forall|key: ControlId| #[trigger]
            staying(controls, id, gone).contains_key(key) ==> !gone.contains(
                staying(controls, id, gone)[key],
            ),
        forall|key: ControlId|
            controls.contains_key(key) && !leaves(key, controls[key], id, gone) ==> #[trigger] lookup(
                staying(controls, id, gone),
                key,
            ) == Some(controls[key]),
        leaving(controls, id, gone).subset_of(controls.dom()),
        staying(controls, id, gone).dom().disjoint(leaving(controls, id, gone)),
{
}

/// `key` is one of the first `n` identifiers of `keys`.
spec fn among_first(keys: Seq<ControlId>, n: int, key: ControlId) -> bool {
    exists|j: int| 0 <= j < n && j < keys.len() && #[trigger] keys[j] == key
}

/// Tells whether `h` occurs in `handles`.
pub fn contains_handle(handles: &Vec<Handle>, h: Handle) -> (found: bool)
    ensures
        found == handles@.contains(h),
{
    let mut i: usize = 0;
    while i < handles.len()
        invariant
            i <= handles.len(),
            forall|j: int| 0 <= j < i ==> handles@[j] != h,
        decreases handles.len() - i,
    {
        if handles[i].raw == h.raw {
            return true;
        }
        i += 1;
    }
    false
}

/// The controls of a user interface, each bound to its window.
pub struct ControlCollection {
    map: HashMap<ControlId, Handle>,
}

impl View for ControlCollection {
    type V = Map<ControlId, Handle>;

    closed spec fn view(&self) -> Map<ControlId, Handle> {
        self.map@
    }
}

impl ControlCollection {
    pub fn new() -> (c: ControlCollection)
        ensures
            c@ == Map::<ControlId, Handle>::empty(),
    {
        ControlCollection { map: HashMap::new() }
    }

    pub fn len(&self) -> (n: usize)
        ensures
            n == self@.len(),
            self@.dom().finite(),
    {
        self.map.len()
    }

    /// The window bound to `id`.
    pub fn get(&self, id: ControlId) -> (handle: Option<Handle>)
        ensures
            handle == lookup(self@, id),
    {
        match self.map.get(&id) {
            Some(h) => Some(*h),
            None => None,
        }
    }

    /// Binds `id` to `handle` and returns the window that `id` was bound to
    /// before.
    pub fn insert(&mut self, id: ControlId, handle: Handle) -> (before: Option<Handle>)
        ensures
            final(self)@ == old(self)@.insert(id, handle),
            before == lookup(old(self)@, id),
    {
        self.map.insert(id, handle)
    }

    /// Drops the control `id` and every control bound to a window in
    /// `gone`, and returns the identifiers of the dropped controls, each
    /// once, in no order that could be told beforehand.
    pub fn purge(&mut self, id: ControlId, gone: &Vec<Handle>) -> (removed: Vec<ControlId>)
        ensures
            final(self)@ == staying(old(self)@, id, gone@),
            removed@.no_duplicates(),
            removed@.to_set() == leaving(old(self)@, id, gone@),
    {
        let ghost before = self.map@;
        let ghost all = spec_keys_iter(&self.map).remaining();
        let ghost keys = all.unref();
        let ghost mut done: int = 0;
        let mut removed: Vec<ControlId> = Vec::new();
        proof {
            assert(keys.to_set() == before.dom());
            assert(keys.no_duplicates());
        }
        for key in it: self.map.keys()
            invariant
                it.seq() == all,
                done == it.index(),
                keys == all.unref(),
                self.map@ == before,
                keys.to_set() == before.dom(),
                keys.no_duplicates(),
                removed@.no_duplicates(),
                forall|j: int|
                    0 <= j < removed@.len() ==> before.contains_key(#[trigger] removed@[j])
                        && leaves(removed@[j], before[removed@[j]], id, gone@) && among_first(
                        keys,
                        done,
                        removed@[j],
                    ),
                forall|i: int|
                    0 <= i < done && leaves(#[trigger] keys[i], before[keys[i]], id, gone@)
                        ==> removed@.contains(keys[i]),
        {
            let k = *key;
            proof {
                assert(keys[done] == k);
                assert(keys.to_set().contains(k));
            }
            let goes = k == id || match self.map.get(&k) {
                Some(h) => contains_handle(gone, *h),
                None => false,
            };
            let ghost earlier = removed@;
            if goes {
                proof {
                    if earlier.contains(k) {
                        let j = choose|j: int| 0 <= j < earlier.len() && earlier[j] == k;
                        assert(among_first(keys, done, earlier[j]));
                        let i = choose|i: int|
                            0 <= i < done && i < keys.len() && #[trigger] keys[i] == k;
                        assert(keys[i] == keys[done]);
                    }
                }
                removed.push(k);
                assert(removed@[removed@.len() - 1] == k);
            }
            proof {
                assert forall|j: int| 0 <= j < removed@.len() implies before.contains_key(
                    #[trigger] removed@[j],
                ) && leaves(removed@[j], before[removed@[j]], id, gone@) && among_first(
                    keys,
                    done + 1,
                    removed@[j],
                ) by {
                    if j < earlier.len() {
                        assert(removed@[j] == earlier[j]);
                        assert(among_first(keys, done, earlier[j]));
                        let i = choose|i: int|
                            0 <= i < done && i < keys.len() && #[trigger] keys[i] == earlier[j];
                        assert(0 <= i < done + 1 && keys[i] == earlier[j]);
                    } else {
                        assert(keys[done] == removed@[j]);
                    }
                }
                assert forall|i: int|
                    0 <= i < done + 1 && leaves(
                        #[trigger] keys[i],
                        before[keys[i]],
                        id,
                        gone@,
                    ) implies removed@.contains(keys[i]) by {
                    if i < done {
                        assert(earlier.contains(keys[i]));
                        let j = choose|j: int| 0 <= j < earlier.len() && earlier[j] == keys[i];
                        assert(removed@[j] == keys[i]);
                    } else {
                        assert(removed@[removed@.len() - 1] == keys[i]);
                    }
                }
                done = done + 1;
            }
        }
        proof {
            assert forall|k: ControlId|
                removed@.to_set().contains(k) <==> leaving(before, id, gone@).contains(k) by {
                if removed@.to_set().contains(k) {
                    let j = choose|j: int| 0 <= j < removed@.len() && removed@[j] == k;
                    assert(before.contains_key(removed@[j]));
                }
                if leaving(before, id, gone@).contains(k) {
                    assert(keys.to_set().contains(k));
                    let i = choose|i: int| 0 <= i < keys.len() && keys[i] == k;
                    assert(leaves(keys[i], before[keys[i]], id, gone@));
                }
            }
            assert(removed@.to_set() =~= leaving(before, id, gone@));
        }
        let mut n: usize = 0;
        while n < removed.len()
            invariant
                n <= removed.len(),
                forall|k: ControlId| #[trigger]
                    self.map@.contains_key(k) <==> before.contains_key(k) && !among_first(
                        removed@,
                        n as int,
                        k,
                    ),
                forall|k: ControlId| #[trigger]
                    self.map@.contains_key(k) ==> self.map@[k] == before[k],
            decreases removed.len() - n,
        {
            let ghost held = self.map@;
            let k = removed[n];
            self.map.remove(&k);
            proof {
                assert forall|x: ControlId|
                    self.map@.contains_key(x) <==> before.contains_key(x) && !among_first(
                        removed@,
                        n + 1,
                        x,
                    ) by {
                    assert(self.map@ == held.remove(k));
                    assert(held.contains_key(x) <==> before.contains_key(x) && !among_first(
                        removed@,
                        n as int,
                        x,
                    ));
                    if among_first(removed@, n + 1, x) {
                        let j = choose|j: int|
                            0 <= j < n + 1 && j < removed@.len() && #[trigger] removed@[j] == x;
                        if j < n {
                            assert(among_first(removed@, n as int, x));
                        }
                    }
                    if among_first(removed@, n as int, x) {
                        let j = choose|j: int|
                            0 <= j < n && j < removed@.len() && #[trigger] removed@[j] == x;
                        assert(0 <= j < n + 1 && removed@[j] == x);
                    }
                    if x == k {
                        assert(removed@[n as int] == x);
                        assert(among_first(removed@, n + 1, x));
                    }
                }
            }
            n += 1;
        }
        proof {
            let after = staying(before, id, gone@);
            assert forall|k: ControlId|
                self.map@.contains_key(k) <==> after.contains_key(k) by {
                if among_first(removed@, removed@.len() as int, k) {
                    let j = choose|j: int|
                        0 <= j < removed@.len() && j < removed@.len() && #[trigger] removed@[j]
                            == k;
                    assert(removed@.to_set().contains(removed@[j]));
                }
                if removed@.to_set().contains(k) {
                    let j = choose|j: int| 0 <= j < removed@.len() && removed@[j] == k;
                    assert(among_first(removed@, removed@.len() as int, k));
                }
            }
            assert(self.map@ =~= after);
        }
        removed
    }
}

} // verus!
