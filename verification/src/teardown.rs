//! Tearing a window down with everything below it, and removing a control
//! from a user interface.

use vstd::prelude::*;
use crate::base::{free_handle_data, Ui};
use crate::collection::{leaving, lookup, staying};
use crate::error::NwgError;
use crate::handle::{ControlId, Event, Handle, Payload};
use crate::state::{handle_at, null_handle, released, retired};
use crate::system::WindowSystem;
use crate::tree::{lemma_descendants_contains, lemma_descendants_distinct, lemma_teardown_wf};

verus! {

/// `w` is one of the first `k` handles of `ds`.
spec fn among(ds: Seq<Handle>, k: int, w: Handle) -> bool {
    exists|j: int| 0 <= j < k && j < ds.len() && #[trigger] ds[j] == w
}

/// One handle more is among the first handles of `ds` when one more of them
/// is counted: the one that is counted.
proof fn lemma_among_next(ds: Seq<Handle>, k: int, w: Handle)
    requires
        0 <= k < ds.len(),
    ensures
        among(ds, k + 1, w) <==> (among(ds, k, w) || ds[k] == w),
{
    if among(ds, k + 1, w) {
        let j = choose|j: int| 0 <= j < k + 1 && j < ds.len() && #[trigger] ds[j] == w;
        if j < k {
            assert(among(ds, k, w));
        }
    }
    if among(ds, k, w) {
        let j = choose|j: int| 0 <= j < k && j < ds.len() && #[trigger] ds[j] == w;
        assert(0 <= j < k + 1 && ds[j] == w);
    }
    if ds[k] == w {
        assert(among(ds, k + 1, w));
    }
}

/// What is among all the handles of `ds` is what `ds` contains.
proof fn lemma_among_all(ds: Seq<Handle>, w: Handle)
    ensures
        among(ds, ds.len() as int, w) <==> ds.contains(w),
{
    if among(ds, ds.len() as int, w) {
        let j = choose|j: int| 0 <= j < ds.len() && j < ds.len() && #[trigger] ds[j] == w;
        assert(ds[j] == w);
    }
    if ds.contains(w) {
        let j = choose|j: int| 0 <= j < ds.len() && ds[j] == w;
        assert(0 <= j < ds.len() && ds[j] == w);
    }
}

/// Enumerates the live windows below `handle`, children and their children
/// alike, oldest first.
pub fn descendants<T>(sys: &WindowSystem<T>, handle: Handle) -> (ds: Vec<Handle>)
    requires
        sys.wf(),
    ensures
        ds@ == sys@.descendants(handle),
{
    let n = sys.window_count();
    // below[i] tells whether the window at position i lies below `handle`
    let mut below: Vec<bool> = Vec::new();
    let mut ds: Vec<Handle> = Vec::new();
    let mut i: usize = 0;
    while i < n
        invariant
            i <= n,
            n == sys@.windows.len(),
            sys.wf(),
            below@.len() == i,
            forall|j: int| 0 <= j < i ==> below@[j] == sys@.descends(handle_at(j), handle),
            ds@ == sys@.descendants_upto(handle, i as nat),
        decreases n - i,
    {
        let d = Handle { raw: i + 1 };
        let parent = sys.parent_of(d);
        assert(d == handle_at(i as int));
        assert(sys@.windows[i as int].parent.raw <= i);
        let is_below = if parent.raw == 0 {
            false
        } else if parent.raw == handle.raw {
            true
        } else {
            assert(handle_at(parent.raw - 1) == parent);
            below[parent.raw - 1]
        };
        below.push(is_below);
        if is_below && sys.is_alive(d) {
            ds.push(d);
        }
        i += 1;
    }
    ds
}

/// Enumerates the windows that go when `handle` is torn down, `handle`
/// first: none if its default slot is empty.
pub fn torn_handles<T>(sys: &WindowSystem<T>, handle: Handle) -> (gone: Vec<Handle>)
    requires
        sys.wf(),
    ensures
        gone@ == sys@.torn_handles(handle),
{
    if sys.data(handle, 0).is_none() {
        Vec::new()
    } else {
        let mut gone: Vec<Handle> = Vec::new();
        gone.push(handle);
        let mut ds = descendants(sys, handle);
        gone.append(&mut ds);
        gone
    }
}

/// Destroys `handle` and every window below it, and reclaims their data.
///
/// A window whose default slot is empty is left alone; so a window that was
/// torn down is left alone by a second call. Otherwise the destroy notice
/// goes to `handle`, then to every live window below it; then the default
/// slot of each of those is reclaimed; then `handle` is destroyed, and with
/// it everything below; last the default slot of `handle` is reclaimed. The
/// control collection is not touched.
pub fn free_handle<T>(sys: &mut WindowSystem<T>, handle: Handle)
    requires
        old(sys).wf(),
    ensures
        final(sys).wf(),
        final(sys)@ == old(sys)@.teardown(handle),
        final(sys)@.events == if old(sys)@.data(handle, 0) is Some {
            old(sys)@.events + old(sys)@.teardown_events(handle)
        } else {
            old(sys)@.events
        },
{
    if sys.data(handle, 0).is_none() {
        return ;
    }
    let ghost s0 = sys@;
    let ghost n = s0.windows.len() as int;
    let ds = descendants(sys, handle);
    let count = ds.len();
    proof {
        lemma_descendants_contains(s0, handle);
        lemma_descendants_distinct(s0, handle);
    }

    // the notice to the window, then to everything below it
    sys.record(Event::Notice(handle));
    let ghost noticed = s0.events + seq![Event::Notice(handle)];
    let mut k: usize = 0;
    while k < count
        invariant
            k <= count,
            count == ds@.len(),
            sys.wf(),
            sys@.windows == s0.windows,
            sys@.focus == s0.focus,
            sys@.limit == s0.limit,
            sys@.events == noticed + ds@.take(k as int).map_values(|d: Handle| Event::Notice(d)),
        decreases count - k,
    {
        sys.record(Event::Notice(ds[k]));
        assert(ds@.take(k + 1) == ds@.take(k as int).push(ds@[k as int]));
        assert(sys@.events == noticed + ds@.take(k + 1).map_values(
            |d: Handle| Event::Notice(d),
        ));
        k += 1;
    }
    assert(ds@.take(count as int) == ds@);

    // the default slot of everything below the window
    let ghost notified = sys@.events;
    k = 0;
    while k < count
        invariant
            k <= count,
            count == ds@.len(),
            s0.wf(),
            sys.wf(),
            n == s0.windows.len(),
            sys@.windows.len() == n,
            forall|d: Handle| #[trigger] ds@.contains(d) ==> s0.alive(d),
            forall|i: int|
                0 <= i < n ==> #[trigger] sys@.windows[i] == if among(ds@, k as int, handle_at(i)) {
                    released(s0.windows[i])
                } else {
                    s0.windows[i]
                },
            sys@.focus == s0.focus,
            sys@.limit == s0.limit,
            sys@.events == notified + ds@.take(k as int).map_values(|d: Handle| Event::Freed(d)),
        decreases count - k,
    {
        let d = ds[k];
        let ghost before = sys@;
        assert(ds@.contains(d));
        free_handle_data(sys, d);
        sys.record(Event::Freed(d));
        proof {
            assert(handle_at(d.raw - 1) == d);
            assert forall|i: int| 0 <= i < n implies #[trigger] sys@.windows[i] == if among(
                ds@,
                k + 1,
                handle_at(i),
            ) {
                released(s0.windows[i])
            } else {
                s0.windows[i]
            } by {
                lemma_among_next(ds@, k as int, handle_at(i));
                if i == d.raw - 1 {
                    assert(before.windows[i].slots.remove(0) =~= s0.windows[i].slots.remove(0));
                    assert(sys@.windows[i] =~= released(s0.windows[i]));
                }
            }
            assert(ds@.take(k + 1) == ds@.take(k as int).push(ds@[k as int]));
            assert(sys@.events == notified + ds@.take(k + 1).map_values(
                |d: Handle| Event::Freed(d),
            ));
        }
        k += 1;
    }
    assert(ds@.take(count as int) == ds@);

    // the window goes, and with it everything below
    sys.record(Event::Destroyed(handle));
    let ghost closing = sys@.events;
    k = 0;
    while k < count
        invariant
            k <= count,
            count == ds@.len(),
            n == s0.windows.len(),
            n <= usize::MAX,
            sys@.windows.len() == n,
            forall|d: Handle| #[trigger] ds@.contains(d) ==> s0.alive(d),
            forall|i: int|
                0 <= i < n ==> #[trigger] sys@.windows[i] == if among(ds@, k as int, handle_at(i)) {
                    retired(s0.windows[i])
                } else if among(ds@, count as int, handle_at(i)) {
                    released(s0.windows[i])
                } else {
                    s0.windows[i]
                },
            sys@.focus == if among(ds@, k as int, s0.focus) {
                null_handle()
            } else {
                s0.focus
            },
            sys@.limit == s0.limit,
            sys@.events == closing,
        decreases count - k,
    {
        let d = ds[k];
        assert(ds@.contains(d));
        sys.retire(d);
        proof {
            assert(handle_at(d.raw - 1) == d);
            assert forall|i: int| 0 <= i < n implies #[trigger] sys@.windows[i] == if among(
                ds@,
                k + 1,
                handle_at(i),
            ) {
                retired(s0.windows[i])
            } else if among(ds@, count as int, handle_at(i)) {
                released(s0.windows[i])
            } else {
                s0.windows[i]
            } by {
                lemma_among_next(ds@, k as int, handle_at(i));
                if i == d.raw - 1 {
                    assert(sys@.windows[i] =~= retired(s0.windows[i]));
                }
            }
            lemma_among_next(ds@, k as int, s0.focus);
        }
        k += 1;
    }
    sys.retire(handle);
    sys.record(Event::Freed(handle));
    proof {
        let after = s0.teardown(handle);
        assert(handle_at(handle.raw - 1) == handle);
        assert forall|i: int| 0 <= i < n implies sys@.windows[i] == after.windows[i] by {
            lemma_among_all(ds@, handle_at(i));
            if i == handle.raw - 1 {
                assert(sys@.windows[i] =~= retired(s0.windows[i]));
            }
        }
        assert(sys@.windows =~= after.windows);
        lemma_among_all(ds@, s0.focus);
        assert(sys@.events =~= after.events);
        assert(sys@ == after);
        lemma_teardown_wf(s0, handle);
    }
}

impl<T> Ui<T> {
    /// Removes the control `id`: its window is torn down with everything
    /// below it, and the collection drops `id` and every control bound to a
    /// window that went. Returns the identifiers dropped, each once, in no
    /// order that could be told beforehand.
    ///
    /// Fails with `NotFound`, and changes nothing, if the collection does
    /// not hold `id`.
    pub fn remove_control(&mut self, id: ControlId) -> (r: Result<Vec<ControlId>, NwgError>)
        requires
            old(self).wf(),
        ensures
            final(self).wf(),
            match lookup(old(self).controls@, id) {
                None => {
                    &&& r matches Err(e)
                    &&& e == NwgError::NotFound
                    &&& final(self).controls@ == old(self).controls@
                    &&& final(self).system@ == old(self).system@
                },
                Some(h) => {
                    &&& r matches Ok(removed)
                    &&& removed@.no_duplicates()
                    &&& removed@.to_set() == leaving(
                        old(self).controls@,
                        id,
                        old(self).system@.torn_handles(h),
                    )
                    &&& final(self).controls@ == staying(
                        old(self).controls@,
                        id,
                        old(self).system@.torn_handles(h),
                    )
                    &&& final(self).system@ == old(self).system@.teardown(h)
                },
            },
    {
        let handle = match self.controls.get(id) {
            Some(h) => h,
            None => {
                return Err(NwgError::NotFound);
            },
        };
        let gone = torn_handles(&self.system, handle);
        free_handle(&mut self.system, handle);
        let removed = self.controls.purge(id, &gone);
        Ok(removed)
    }
}

/// What [`destroy_control`] returns and leaves behind, given the identity
/// record of the window.
pub open spec fn control_destroyed<T>(
    before: Ui<T>,
    after: Ui<T>,
    identity: Option<ControlId>,
    r: Result<Vec<ControlId>, NwgError>,
) -> bool {
    match identity {
        None => {
            &&& r matches Err(e)
            &&& e == NwgError::NoUi
            &&& after.controls@ == before.controls@
            &&& after.system@ == before.system@
        },
        Some(id) => match lookup(before.controls@, id) {
            None => {
                &&& r matches Err(e)
                &&& e == NwgError::NotFound
                &&& after.controls@ == before.controls@
                &&& after.system@ == before.system@
            },
            Some(h) => {
                &&& r matches Ok(removed)
                &&& removed@.no_duplicates()
                &&& removed@.to_set() == leaving(
                    before.controls@,
                    id,
                    before.system@.torn_handles(h),
                )
                &&& after.controls@ == staying(before.controls@, id, before.system@.torn_handles(h))
                &&& after.system@ == before.system@.teardown(h)
            },
        },
    }
}

/// Removes from the user interface the control that `handle` belongs to,
/// as [`Ui::remove_control`] does for the identifier in the identity record
/// of `handle`.
///
/// Fails with `NoUi`, and destroys nothing, if the default slot of `handle`
/// holds no identity record.
pub fn destroy_control<T>(ui: &mut Ui<T>, handle: Handle) -> (r: Result<Vec<ControlId>, NwgError>)
    requires
        old(ui).wf(),
    ensures
        final(ui).wf(),
        control_destroyed(*old(ui), *final(ui), old(ui).system@.identity(handle), r),
{
    let id = match ui.system.data(handle, 0) {
        Some(Payload::Identity(id)) => *id,
        _ => {
            return Err(NwgError::NoUi);
        },
    };
    ui.remove_control(id)
}

} // verus!
