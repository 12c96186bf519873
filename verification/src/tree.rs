//! What holds of the window tree and of the teardown of a window.

use vstd::prelude::*;
use crate::handle::{Event, Handle, Payload};
use crate::state::{handle_at, SystemState, WindowState};
use crate::system::WindowParams;

verus! {

/// A change to a live window that keeps it alive, and keeps its parent and
/// its style, leaves a well-formed table well formed.
pub proof fn lemma_window_change_wf<T>(s: SystemState<T>, h: Handle, w: WindowState<T>)
    requires
        s.wf(),
        s.alive(h),
        w.alive,
        w.parent == s.window(h).parent,
        w.style == s.window(h).style,
    ensures
        s.with_window(h, w).wf(),
{
    let t = s.with_window(h, w);
    assert forall|i: int| 0 <= i < t.windows.len() implies #[trigger] t.parent_lives(i) by {
        assert(s.parent_lives(i));
    }
}

/// A report leaves a well-formed table well formed.
pub proof fn lemma_event_wf<T>(s: SystemState<T>, e: Event)
    requires
        s.wf(),
    ensures
        s.with_event(e).wf(),
{
    let t = s.with_event(e);
    assert forall|i: int| 0 <= i < t.windows.len() implies #[trigger] t.parent_lives(i) by {
        assert(s.parent_lives(i));
    }
}

/// Moving the focus to a live window leaves a well-formed table well
/// formed.
pub proof fn lemma_focus_wf<T>(s: SystemState<T>, h: Handle)
    requires
        s.wf(),
    ensures
        s.with_focus(h).wf(),
{
    let t = s.with_focus(h);
    assert forall|i: int| 0 <= i < t.windows.len() implies #[trigger] t.parent_lives(i) by {
        assert(s.parent_lives(i));
    }
}

/// The creation of a window, accepted or not, leaves a well-formed table
/// well formed.
pub proof fn lemma_create_wf<T>(
    s: SystemState<T>,
    class: Seq<char>,
    text: Seq<char>,
    style: u32,
    ex_style: u32,
    position: (i32, i32),
    size: (i32, i32),
    parent: Handle,
)
    requires
        s.wf(),
    ensures
        s.create(class, text, style, ex_style, position, size, parent).wf(),
{
    let t = s.create(class, text, style, ex_style, position, size, parent);
    assert forall|i: int| 0 <= i < t.windows.len() implies #[trigger] t.parent_lives(i) by {
        if i < s.windows.len() {
            assert(s.parent_lives(i));
        }
    }
}

/// The descendants found among the first `n` windows are exactly the live
/// windows below `h` among them.
pub proof fn lemma_descendants_upto_contains<T>(s: SystemState<T>, h: Handle, n: nat, d: Handle)
    requires
        n <= s.windows.len(),
        s.windows.len() <= usize::MAX,
    ensures
        s.descendants_upto(h, n).contains(d) <==> (1 <= d.raw <= n && s.alive(d) && s.descends(
            d,
            h,
        )),
    decreases n,
{
    let ds = s.descendants_upto(h, n);
    if n > 0 {
        let rest = s.descendants_upto(h, (n - 1) as nat);
        let last = handle_at(n - 1);
        lemma_descendants_upto_contains(s, h, (n - 1) as nat, d);
        assert(last.raw == n);
        if s.alive(last) && s.descends(last, h) {
            assert(ds == rest.push(last));
            assert(ds[ds.len() - 1] == last);
            if ds.contains(d) {
                let i = choose|i: int| 0 <= i < ds.len() && ds[i] == d;
                if i < rest.len() {
                    assert(rest[i] == d);
                }
            }
            if rest.contains(d) {
                let i = choose|i: int| 0 <= i < rest.len() && rest[i] == d;
                assert(ds[i] == d);
            }
        }
    }
}

/// The descendants come in the order of their handles.
pub proof fn lemma_descendants_upto_ordered<T>(
    s: SystemState<T>,
    h: Handle,
    n: nat,
    i: int,
    j: int,
)
    requires
        n <= s.windows.len(),
        s.windows.len() <= usize::MAX,
        0 <= i < j < s.descendants_upto(h, n).len(),
    ensures
        s.descendants_upto(h, n)[i].raw < s.descendants_upto(h, n)[j].raw,
    decreases n,
{
    let ds = s.descendants_upto(h, n);
    if n > 0 {
        let rest = s.descendants_upto(h, (n - 1) as nat);
        let last = handle_at(n - 1);
        assert(last.raw == n);
        if j < rest.len() {
            lemma_descendants_upto_ordered(s, h, (n - 1) as nat, i, j);
        } else {
            assert(ds == rest.push(last));
            assert(rest.contains(rest[i]));
            lemma_descendants_upto_contains(s, h, (n - 1) as nat, rest[i]);
        }
    }
}

/// A window is among the descendants of `h` exactly if it is alive and lies
/// below `h`.
pub proof fn lemma_descendants_contains<T>(s: SystemState<T>, h: Handle)
    requires
        s.windows.len() <= usize::MAX,
    ensures
        forall|d: Handle|
            #[trigger] s.descendants(h).contains(d) <==> (s.alive(d) && s.descends(d, h)),
{
    assert forall|d: Handle| #[trigger]
        s.descendants(h).contains(d) <==> (s.alive(d) && s.descends(d, h)) by {
        lemma_descendants_upto_contains(s, h, s.windows.len(), d);
    }
}

/// No window occurs twice among the descendants of `h`, and `h` is not one
/// of them.
pub proof fn lemma_descendants_distinct<T>(s: SystemState<T>, h: Handle)
    requires
        s.windows.len() <= usize::MAX,
    ensures
        s.descendants(h).no_duplicates(),
        !s.descendants(h).contains(h),
{
    let ds = s.descendants(h);
    assert forall|i: int, j: int| 0 <= i < ds.len() && 0 <= j < ds.len() && i != j implies ds[i]
        != ds[j] by {
        if i < j {
            lemma_descendants_upto_ordered(s, h, s.windows.len(), i, j);
        } else {
            lemma_descendants_upto_ordered(s, h, s.windows.len(), j, i);
        }
    }
    lemma_descendants_upto_contains(s, h, s.windows.len(), h);
    lemma_below_is_younger(s, h, h);
}

/// A window that lies below `h` was created after `h`.
pub proof fn lemma_below_is_younger<T>(s: SystemState<T>, d: Handle, h: Handle)
    ensures
        s.descends(d, h) ==> h.raw < d.raw && 1 <= h.raw,
    decreases d.raw,
{
    if s.valid(d) {
        let p = s.window(d).parent;
        if p.raw == 0 || p.raw >= d.raw {
        } else if p == h {
        } else {
            lemma_below_is_younger(s, p, h);
        }
    }
}

/// A destroyed window stays destroyed, and holds no data, whatever is
/// created, attached, released or torn down afterwards; and a new window
/// never takes the handle of an old one.
pub proof fn lemma_destroyed_is_terminal<T>(
    s: SystemState<T>,
    h: Handle,
    other: Handle,
    slot: usize,
    payload: Payload<T>,
    params: WindowParams,
)
    requires
        s.wf(),
        s.valid(h),
        !s.alive(h),
    ensures
        !s.attach(other, slot, payload).alive(h),
        !s.detach(other, slot).alive(h),
        !s.teardown(other).alive(h),
        !s.create(
            params.class@,
            params.text@,
            params.style,
            params.ex_style,
            params.position,
            params.size,
            params.parent,
        ).alive(h),
        s.windows.len() < s.limit ==> s.next_handle() != h,
        forall|any: usize| #[trigger] s.data(h, any) is None,
{
    assert(handle_at(h.raw - 1) == h);
}

/// The teardown of a window leaves a well-formed table well formed.
pub proof fn lemma_teardown_wf<T>(s: SystemState<T>, h: Handle)
    requires
        s.wf(),
    ensures
        s.teardown(h).wf(),
{
    let t = s.teardown(h);
    if s.data(h, 0) is Some {
        assert forall|i: int| 0 <= i < t.windows.len() implies #[trigger] t.parent_lives(i) by {
            let w = handle_at(i);
            let p = s.windows[i].parent;
            assert(s.parent_lives(i));
            if t.windows[i].alive && p.raw != 0 {
                assert(s.windows[i].alive);
                assert(!s.torn(w, h));
                assert(s.alive(p));
                assert(handle_at(p.raw - 1) == p);
                if s.torn(p, h) {
                    assert(s.descends(w, h));
                }
            }
        }
        if t.focus.raw != 0 {
            assert(handle_at(s.focus.raw - 1) == s.focus);
        }
    }
}

/// A second teardown of the same window changes nothing: the first one
/// leaves the window without data, and a window without data is left alone.
pub proof fn lemma_teardown_twice<T>(s: SystemState<T>, h: Handle)
    requires
        s.wf(),
    ensures
        s.teardown(h).data(h, 0) is None,
        s.teardown(h).teardown(h) == s.teardown(h),
{
    if s.data(h, 0) is Some {
        assert(handle_at(h.raw - 1) == h);
        assert(s.torn(h, h));
    }
}

/// The order of a teardown. Whenever the window `h` carries data, every
/// live window below it gets the destroy notice exactly once, every notice
/// comes before every release of a default slot, and `h` itself is notified
/// first and released last, after its destruction.
pub proof fn lemma_teardown_order<T>(s: SystemState<T>, h: Handle)
    requires
        s.wf(),
    ensures
        forall|d: Handle|
            s.alive(d) && s.descends(d, h) ==> exists|i: int|
                0 <= i < s.teardown_events(h).len() && #[trigger] s.teardown_events(h)[i]
                    == Event::Notice(d),
        forall|i: int, j: int|
            0 <= i < s.teardown_events(h).len() && 0 <= j < s.teardown_events(h).len()
                && s.teardown_events(h)[i] is Notice && s.teardown_events(h)[i]
                == s.teardown_events(h)[j] ==> i == j,
        forall|i: int, j: int|
            0 <= i < s.teardown_events(h).len() && 0 <= j < s.teardown_events(h).len()
                && s.teardown_events(h)[i] is Notice && s.teardown_events(h)[j] is Freed ==> i
                < j,
        forall|d: Handle|
            s.alive(d) && s.descends(d, h) ==> exists|j: int|
                0 <= j < s.teardown_events(h).len() && #[trigger] s.teardown_events(h)[j]
                    == Event::Freed(d),
        s.teardown_events(h).first() == Event::Notice(h),
        s.teardown_events(h).last() == Event::Freed(h),
        s.teardown_events(h)[s.teardown_events(h).len() - 2] == Event::Destroyed(h),
        s.teardown_events(h).len() == 2 * s.descendants(h).len() + 3,
{
    let ds = s.descendants(h);
    let ev = s.teardown_events(h);
    let n = ds.len() as int;
    lemma_descendants_contains(s, h);
    lemma_descendants_distinct(s, h);
    assert(ev.len() == 2 * n + 3);
    assert(ev[0] == Event::Notice(h));
    assert forall|k: int| 0 <= k < n implies #[trigger] ev[1 + k] == Event::Notice(ds[k])
        && #[trigger] ev[1 + n + k] == Event::Freed(ds[k]) by {}
    assert(ev[2 * n + 1] == Event::Destroyed(h));
    assert(ev[2 * n + 2] == Event::Freed(h));
    assert forall|d: Handle| s.alive(d) && s.descends(d, h) implies (exists|i: int|
        0 <= i < ev.len() && #[trigger] ev[i] == Event::Notice(d)) && (exists|j: int|
        0 <= j < ev.len() && #[trigger] ev[j] == Event::Freed(d)) by {
        assert(ds.contains(d));
        let k = choose|k: int| 0 <= k < ds.len() && ds[k] == d;
        assert(ev[1 + k] == Event::Notice(d));
        assert(ev[1 + n + k] == Event::Freed(d));
    }
    assert forall|i: int| 0 <= i < ev.len() implies ((#[trigger] ev[i]) is Notice <==> i <= n)
        && (ev[i] is Freed <==> (n < i <= 2 * n || i == 2 * n + 2)) by {
        if 1 <= i <= n {
            assert(ev[1 + (i - 1)] == Event::Notice(ds[i - 1]));
        } else if n < i <= 2 * n {
            assert(ev[1 + n + (i - 1 - n)] == Event::Freed(ds[i - 1 - n]));
        }
    }
    assert forall|i: int, j: int|
        0 <= i < ev.len() && 0 <= j < ev.len() && ev[i] is Notice && ev[i] == ev[j] implies i
        == j by {
        if i != j {
            assert(ev[j] is Notice);
            if i == 0 || j == 0 {
                let k = if i == 0 {
                    j
                } else {
                    i
                };
                assert(ev[1 + (k - 1)] == Event::Notice(ds[k - 1]));
                assert(ds.contains(ds[k - 1]));
            } else {
                assert(ev[1 + (i - 1)] == Event::Notice(ds[i - 1]));
                assert(ev[1 + (j - 1)] == Event::Notice(ds[j - 1]));
            }
        }
    }
}

} // verus!
