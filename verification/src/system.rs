//! The table of windows: what each window is, which window is its parent,
//! and the data attached to it.

use std::collections::HashMap;
use vstd::prelude::*;
use crate::handle::{Event, Handle, Payload};
use crate::state::{clamp_extent, SystemState, WindowState};
use crate::style::{WS_CHILD, WS_DISABLED, WS_VISIBLE};
use crate::tree::{lemma_create_wf, lemma_event_wf, lemma_focus_wf, lemma_window_change_wf};

verus! {

broadcast use vstd::std_specs::hash::group_hash_axioms;

/// One window of the table.
struct Window<T> {
    alive: bool,
    parent: Handle,
    class: String,
    text: String,
    size: (u32, u32),
    position: (i32, i32),
    style: u32,
    ex_style: u32,
    visible: bool,
    enabled: bool,
    icon: usize,
    slots: HashMap<usize, Payload<T>>,
}

impl<T> View for Window<T> {
    type V = WindowState<T>;

    closed spec fn view(&self) -> WindowState<T> {
        WindowState {
            alive: self.alive,
            parent: self.parent,
            class: self.class@,
            text: self.text@,
            size: self.size,
            position: self.position,
            style: self.style,
            ex_style: self.ex_style,
            visible: self.visible,
            enabled: self.enabled,
            icon: self.icon,
            slots: self.slots@,
        }
    }
}

/// The extent that a window has when it was asked for with the extent `v`.
fn extent(v: i32) -> (e: u32)
    ensures
        e == clamp_extent(v),
{
    if v < 0 {
        0
    } else {
        v as u32
    }
}

/// What a window is created from.
pub struct WindowParams {
    pub class: String,
    pub text: String,
    pub style: u32,
    pub ex_style: u32,
    pub position: (i32, i32),
    /// The size asked for, as the window system takes it.
    pub size: (i32, i32),
    /// The parent window, or the null handle for a top-level window.
    pub parent: Handle,
}

/// The table of windows. It hands out the handles, keeps what is known of
/// each window, owns the payloads attached to them, and records what it
/// reports to its collaborators.
pub struct WindowSystem<T> {
    windows: Vec<Window<T>>,
    events: Vec<Event>,
    focus: Handle,
    limit: usize,
}

impl<T> View for WindowSystem<T> {
    type V = SystemState<T>;

    closed spec fn view(&self) -> SystemState<T> {
        SystemState {
            windows: Seq::new(self.windows@.len(), |i: int| self.windows@[i]@),
            events: self.events@,
            focus: self.focus,
            limit: self.limit,
        }
    }
}

impl<T> WindowSystem<T> {
    /// The table is well formed.
    pub open spec fn wf(&self) -> bool {
        self@.wf()
    }

    /// An empty table that will hold at most `limit` windows.
    pub fn new(limit: usize) -> (sys: WindowSystem<T>)
        ensures
            sys@ == SystemState::<T>::empty(limit),
            sys.wf(),
    {
        let sys = WindowSystem {
            windows: Vec::new(),
            events: Vec::new(),
            focus: Handle { raw: 0 },
            limit: limit,
        };
        assert(sys@.windows =~= Seq::empty());
        sys
    }

    /// The number of windows ever created.
    pub fn window_count(&self) -> (n: usize)
        ensures
            n == self@.windows.len(),
    {
        self.windows.len()
    }

    /// The number of windows that the table will ever hold.
    pub fn limit(&self) -> (n: usize)
        ensures
            n == self@.limit,
    {
        self.limit
    }

    /// True if `h` names a window that exists.
    pub fn is_alive(&self, h: Handle) -> (b: bool)
        ensures
            b == self@.alive(h),
    {
        h.raw >= 1 && h.raw <= self.windows.len() && self.windows[h.raw - 1].alive
    }

    /// The parent of `h`; the null handle for a top-level window and for a
    /// handle that names nothing.
    pub fn parent_of(&self, h: Handle) -> (p: Handle)
        ensures
            p == self@.parent_of(h),
    {
        if h.raw >= 1 && h.raw <= self.windows.len() {
            self.windows[h.raw - 1].parent
        } else {
            Handle { raw: 0 }
        }
    }

    /// Everything reported so far, oldest first.
    pub fn events(&self) -> (log: &Vec<Event>)
        ensures
            log@ == self@.events,
    {
        &self.events
    }

    /// Hands out everything reported so far, oldest first, and starts the
    /// record anew. Nothing else changes.
    pub fn take_events(&mut self) -> (log: Vec<Event>)
        requires
            old(self).wf(),
        ensures
            final(self).wf(),
            log@ == old(self)@.events,
            final(self)@ == (SystemState { events: Seq::<Event>::empty(), ..old(self)@ }),
    {
        let mut log: Vec<Event> = Vec::new();
        std::mem::swap(&mut self.events, &mut log);
        proof {
            let after = SystemState { events: Seq::<Event>::empty(), ..old(self)@ };
            assert(self@.windows =~~= after.windows);
            assert(self@ == after);
            assert forall|i: int| 0 <= i < after.windows.len() implies #[trigger] after.parent_lives(
                i,
            ) by {
                assert(old(self)@.parent_lives(i));
            }
        }
        log
    }

    /// Tells whether the table takes a new window of this style below
    /// `parent`.
    pub fn accepts(&self, style: u32, parent: Handle) -> (b: bool)
        ensures
            b == self@.accepts(style, parent),
    {
        let fits = if parent.raw == 0 {
            style & WS_CHILD == 0
        } else {
            self.is_alive(parent)
        };
        self.windows.len() < self.limit && fits
    }

    /// Creates a window, if the table takes it, and reports the creation.
    /// Returns the new handle, or the null handle if the window was refused.
    pub fn create_window(&mut self, params: WindowParams) -> (h: Handle)
        requires
            old(self).wf(),
        ensures
            final(self).wf(),
            final(self)@ == old(self)@.create(
                params.class@,
                params.text@,
                params.style,
                params.ex_style,
                params.position,
                params.size,
                params.parent,
            ),
            h == if old(self)@.accepts(params.style, params.parent) {
                old(self)@.next_handle()
            } else {
                Handle { raw: 0 }
            },
    {
        if self.accepts(params.style, params.parent) {
            let h = Handle { raw: self.windows.len() + 1 };
            let ghost after = old(self)@.create(
                params.class@,
                params.text@,
                params.style,
                params.ex_style,
                params.position,
                params.size,
                params.parent,
            );
            proof {
                lemma_create_wf(
                    old(self)@,
                    params.class@,
                    params.text@,
                    params.style,
                    params.ex_style,
                    params.position,
                    params.size,
                    params.parent,
                );
            }
            let window = Window {
                alive: true,
                parent: params.parent,
                class: params.class,
                text: params.text,
                size: (extent(params.size.0), extent(params.size.1)),
                position: params.position,
                style: params.style,
                ex_style: params.ex_style,
                visible: params.style & WS_VISIBLE == WS_VISIBLE,
                enabled: params.style & WS_DISABLED == 0,
                icon: 0,
                slots: HashMap::new(),
            };
            self.windows.push(window);
            self.events.push(Event::Created(h));
            proof {
                assert(self@.windows =~~= after.windows);
                assert(self@ == after);
            }
            h
        } else {
            Handle { raw: 0 }
        }
    }

    /// The payload at a slot of `h`, if there is one, to read.
    pub fn data(&self, h: Handle, slot: usize) -> (payload: Option<&Payload<T>>)
        ensures
            match payload {
                Some(p) => self@.data(h, slot) == Some(*p),
                None => self@.data(h, slot) is None,
            },
    {
        if self.is_alive(h) {
            self.windows[h.raw - 1].slots.get(&slot)
        } else {
            None
        }
    }

    /// Stores `payload` at a slot of `h`, in place of what the slot held.
    pub(crate) fn attach(&mut self, h: Handle, slot: usize, payload: Payload<T>)
        requires
            old(self).wf(),
        ensures
            final(self).wf(),
            final(self)@ == old(self)@.attach(h, slot, payload),
    {
        if self.is_alive(h) {
            self.windows[h.raw - 1].slots.insert(slot, payload);
            proof {
                let after = old(self)@.attach(h, slot, payload);
                assert(self@.windows =~~= after.windows);
                assert(self@ == after);
                lemma_window_change_wf(old(self)@, h, after.window(h));
            }
        }
    }

    /// Empties a slot of `h` and hands back what it held.
    pub(crate) fn detach(&mut self, h: Handle, slot: usize) -> (payload: Option<Payload<T>>)
        requires
            old(self).wf(),
        ensures
            final(self).wf(),
            final(self)@ == old(self)@.detach(h, slot),
            payload == old(self)@.data(h, slot),
    {
        if self.is_alive(h) {
            let payload = self.windows[h.raw - 1].slots.remove(&slot);
            proof {
                let after = old(self)@.detach(h, slot);
                assert(self@.windows =~~= after.windows);
                assert(self@ == after);
                lemma_window_change_wf(old(self)@, h, after.window(h));
            }
            payload
        } else {
            None
        }
    }

    /// Reports `e`.
    pub(crate) fn record(&mut self, e: Event)
        ensures
            final(self)@ == old(self)@.with_event(e),
            old(self).wf() ==> final(self).wf(),
    {
        self.events.push(e);
        proof {
            assert(self@.windows =~~= old(self)@.windows);
            if old(self).wf() {
                lemma_event_wf(old(self)@, e);
            }
        }
    }

    /// Retires the window `h` alone: it is dead from here on, its payloads
    /// are reclaimed, and it no longer has the focus.
    pub(crate) fn retire(&mut self, h: Handle)
        ensures
            final(self)@ == old(self)@.retire(h),
    {
        if h.raw >= 1 && h.raw <= self.windows.len() {
            self.windows[h.raw - 1].alive = false;
            self.windows[h.raw - 1].slots.clear();
            if self.focus.raw == h.raw {
                self.focus = Handle { raw: 0 };
            }
            proof {
                let after = old(self)@.retire(h);
                assert(self@.windows =~~= after.windows);
                assert(self@ == after);
            }
        }
    }
}

/// What is known of a single window. A getter asked about a window that
/// does not exist answers with the empty or zero value; a setter leaves
/// such a window, and the rest of the table, alone.
impl<T> WindowSystem<T> {
    pub fn text(&self, h: Handle) -> (text: String)
        ensures
            text@ == self@.text_of(h),
    {
        if self.is_alive(h) {
            self.windows[h.raw - 1].text.clone()
        } else {
            String::new()
        }
    }

    pub fn set_text(&mut self, h: Handle, text: &str)
        requires
            old(self).wf(),
        ensures
            final(self).wf(),
            final(self)@ == old(self)@.with_text(h, text@),
    {
        if self.is_alive(h) {
            self.windows[h.raw - 1].text = text.to_owned();
            proof {
                let after = old(self)@.with_text(h, text@);
                assert(self@.windows =~~= after.windows);
                assert(self@ == after);
                lemma_window_change_wf(old(self)@, h, after.window(h));
            }
        }
    }

    pub fn class(&self, h: Handle) -> (class: String)
        ensures
            class@ == self@.class_of(h),
    {
        if self.is_alive(h) {
            self.windows[h.raw - 1].class.clone()
        } else {
            String::new()
        }
    }

    pub fn style(&self, h: Handle) -> (style: u32)
        ensures
            style == self@.style_of(h),
    {
        if self.is_alive(h) {
            self.windows[h.raw - 1].style
        } else {
            0
        }
    }

    /// The extended style that `h` was created with.
    pub fn ex_style(&self, h: Handle) -> (ex_style: u32)
        ensures
            ex_style == self@.ex_style_of(h),
    {
        if self.is_alive(h) {
            self.windows[h.raw - 1].ex_style
        } else {
            0
        }
    }

    pub fn size(&self, h: Handle) -> (size: (u32, u32))
        ensures
            size == self@.size_of(h),
    {
        if self.is_alive(h) {
            self.windows[h.raw - 1].size
        } else {
            (0, 0)
        }
    }

    pub fn set_size(&mut self, h: Handle, size: (u32, u32))
        requires
            old(self).wf(),
        ensures
            final(self).wf(),
            final(self)@ == old(self)@.with_size(h, size),
    {
        if self.is_alive(h) {
            self.windows[h.raw - 1].size = size;
            proof {
                let after = old(self)@.with_size(h, size);
                assert(self@.windows =~~= after.windows);
                assert(self@ == after);
                lemma_window_change_wf(old(self)@, h, after.window(h));
            }
        }
    }

    pub fn position(&self, h: Handle) -> (position: (i32, i32))
        ensures
            position == self@.position_of(h),
    {
        if self.is_alive(h) {
            self.windows[h.raw - 1].position
        } else {
            (0, 0)
        }
    }

    pub fn set_position(&mut self, h: Handle, position: (i32, i32))
        requires
            old(self).wf(),
        ensures
            final(self).wf(),
            final(self)@ == old(self)@.with_position(h, position),
    {
        if self.is_alive(h) {
            self.windows[h.raw - 1].position = position;
            proof {
                let after = old(self)@.with_position(h, position);
                assert(self@.windows =~~= after.windows);
                assert(self@ == after);
                lemma_window_change_wf(old(self)@, h, after.window(h));
            }
        }
    }

    pub fn visible(&self, h: Handle) -> (visible: bool)
        ensures
            visible == self@.visible_of(h),
    {
        self.is_alive(h) && self.windows[h.raw - 1].visible
    }

    pub fn set_visible(&mut self, h: Handle, visible: bool)
        requires
            old(self).wf(),
        ensures
            final(self).wf(),
            final(self)@ == old(self)@.with_visible(h, visible),
    {
        if self.is_alive(h) {
            self.windows[h.raw - 1].visible = visible;
            proof {
                let after = old(self)@.with_visible(h, visible);
                assert(self@.windows =~~= after.windows);
                assert(self@ == after);
                lemma_window_change_wf(old(self)@, h, after.window(h));
            }
        }
    }

    pub fn enabled(&self, h: Handle) -> (enabled: bool)
        ensures
            enabled == self@.enabled_of(h),
    {
        self.is_alive(h) && self.windows[h.raw - 1].enabled
    }

    pub fn set_enabled(&mut self, h: Handle, enabled: bool)
        requires
            old(self).wf(),
        ensures
            final(self).wf(),
            final(self)@ == old(self)@.with_enabled(h, enabled),
    {
        if self.is_alive(h) {
            self.windows[h.raw - 1].enabled = enabled;
            proof {
                let after = old(self)@.with_enabled(h, enabled);
                assert(self@.windows =~~= after.windows);
                assert(self@ == after);
                lemma_window_change_wf(old(self)@, h, after.window(h));
            }
        }
    }

    /// The icon resource of `h`, 0 for none.
    pub fn icon(&self, h: Handle) -> (icon: usize)
        ensures
            icon == self@.icon_of(h),
    {
        if self.is_alive(h) {
            self.windows[h.raw - 1].icon
        } else {
            0
        }
    }

    pub fn set_icon(&mut self, h: Handle, icon: usize)
        requires
            old(self).wf(),
        ensures
            final(self).wf(),
            final(self)@ == old(self)@.with_icon(h, icon),
    {
        if self.is_alive(h) {
            self.windows[h.raw - 1].icon = icon;
            proof {
                let after = old(self)@.with_icon(h, icon);
                assert(self@.windows =~~= after.windows);
                assert(self@ == after);
                lemma_window_change_wf(old(self)@, h, after.window(h));
            }
        }
    }

    /// True if `h` exists and has the keyboard focus.
    pub fn has_focus(&self, h: Handle) -> (focus: bool)
        ensures
            focus == self@.has_focus(h),
    {
        self.is_alive(h) && self.focus.raw == h.raw
    }

    /// Gives the keyboard focus to `h`.
    pub fn set_focus(&mut self, h: Handle)
        requires
            old(self).wf(),
        ensures
            final(self).wf(),
            final(self)@ == old(self)@.with_focus(h),
    {
        if self.is_alive(h) {
            self.focus = h;
            proof {
                let after = old(self)@.with_focus(h);
                assert(self@.windows =~~= after.windows);
                assert(self@ == after);
                lemma_focus_wf(old(self)@, h);
            }
        }
    }

    /// Requests a redraw of the whole surface of `h`.
    pub fn request_redraw(&mut self, h: Handle)
        requires
            old(self).wf(),
        ensures
            final(self).wf(),
            final(self)@ == old(self)@.redraw(h),
    {
        if self.is_alive(h) {
            self.record(Event::Redraw(h));
        }
    }
}

/// Calls `HashMap::get_mut` of std, which vstd does not specify. Taken on
/// trust from its documentation: it returns a mutable reference to the
/// value at the key if the map has the key, and nothing if it has not; the
/// reference is to the stored value itself, so the map ends as it was but
/// for what is written through the reference.
#[verifier::external_body]
fn slot_mut<'a, T>(slots: &'a mut HashMap<usize, Payload<T>>, slot: usize) -> (r: Option<
    &'a mut Payload<T>,
>)
    ensures
        match r {
            Some(p) => old(slots)@.contains_key(slot) && *p == old(slots)@[slot] && final(slots)@
                == old(slots)@.insert(slot, *final(p)),
            None => !old(slots)@.contains_key(slot) && final(slots)@ == old(slots)@,
        },
{
    slots.get_mut(&slot)
}

impl<T> WindowSystem<T> {
    /// The payload at a slot of `h`, if there is one, to read and to write.
    pub(crate) fn data_mut(&mut self, h: Handle, slot: usize) -> (r: Option<&mut Payload<T>>)
        requires
            old(self).wf(),
        ensures
            match r {
                Some(p) => old(self)@.data(h, slot) == Some(*p) && final(self)@ == old(self)@.attach(
                    h,
                    slot,
                    *final(p),
                ),
                None => old(self)@.data(h, slot) is None && final(self)@ == old(self)@,
            },
            final(self).wf(),
    {
        if self.is_alive(h) {
            match slot_mut(&mut self.windows[h.raw - 1].slots, slot) {
                Some(p) => {
                    proof {
                        let after = old(self)@.attach(h, slot, *final(p));
                        lemma_window_change_wf(old(self)@, h, after.window(h));
                    }
                    Some(p)
                },
                None => None,
            }
        } else {
            None
        }
    }
}

} // verus!
