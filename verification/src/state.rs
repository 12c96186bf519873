//! The mathematical model of the window table, over which every contract
//! of the crate is stated.

use vstd::prelude::*;
use crate::handle::{Event, Handle, Payload};
use crate::style::{has_bits, lacks_bits, WS_CHILD, WS_DISABLED, WS_VISIBLE};

verus! {

/// A window as contracts see it.
#[verifier::ext_equal]
pub struct WindowState<T> {
    /// False once the window has been destroyed; it never becomes true again.
    pub alive: bool,
    /// The parent window, or the null handle for a top-level window.
    pub parent: Handle,
    pub class: Seq<char>,
    pub text: Seq<char>,
    pub size: (u32, u32),
    pub position: (i32, i32),
    /// The style bits that the window was created with.
    pub style: u32,
    /// The extended style bits that the window was created with.
    pub ex_style: u32,
    pub visible: bool,
    pub enabled: bool,
    /// The icon resource shown by the window, 0 for none.
    pub icon: usize,
    /// The payloads attached to the window, by slot; slot 0 is the default
    /// slot.
    pub slots: Map<usize, Payload<T>>,
}

/// The window table as contracts see it. The window with handle `h` is
/// `windows[h.raw - 1]`; handles are never used twice.
#[verifier::ext_equal]
pub struct SystemState<T> {
    pub windows: Seq<WindowState<T>>,
    /// Everything reported so far, oldest first.
    pub events: Seq<Event>,
    /// The window that has the keyboard focus, or the null handle.
    pub focus: Handle,
    /// The number of windows that the table will ever hold.
    pub limit: usize,
}

/// The handle of the window stored at position `i` of the table.
pub open spec fn handle_at(i: int) -> Handle {
    Handle { raw: (i + 1) as usize }
}

/// The null handle.
pub open spec fn null_handle() -> Handle {
    Handle { raw: 0 }
}

/// A window after its destruction: dead, and with every payload reclaimed.
pub open spec fn retired<T>(w: WindowState<T>) -> WindowState<T> {
    WindowState { alive: false, slots: Map::empty(), ..w }
}

/// A window after its default slot was emptied.
pub open spec fn released<T>(w: WindowState<T>) -> WindowState<T> {
    WindowState { slots: w.slots.remove(0), ..w }
}

/// The extent that a window has when it was asked for with the extent `v`:
/// a window has no negative extent, so a negative one counts as zero.
pub open spec fn clamp_extent(v: i32) -> u32 {
    if v < 0 {
        0u32
    } else {
        v as u32
    }
}

/// An unsigned extent as the window system takes it, which is signed: the
/// same number where it fits, else the number with the same 32 bits.
pub open spec fn signed_extent(v: u32) -> i32 {
    if v <= 0x7FFF_FFFF {
        v as i32
    } else {
        (v - 0x1_0000_0000) as i32
    }
}

impl<T> SystemState<T> {
    /// The empty table.
    pub open spec fn empty(limit: usize) -> SystemState<T> {
        SystemState {
            windows: Seq::empty(),
            events: Seq::empty(),
            focus: null_handle(),
            limit: limit,
        }
    }

    /// `h` names a window that was created at some time.
    pub open spec fn valid(self, h: Handle) -> bool {
        1 <= h.raw <= self.windows.len()
    }

    /// `h` names a window that exists now.
    pub open spec fn alive(self, h: Handle) -> bool {
        self.valid(h) && self.windows[h.raw - 1].alive
    }

    pub open spec fn window(self, h: Handle) -> WindowState<T> {
        self.windows[h.raw - 1]
    }

    /// The table with the window `h` replaced by `w`.
    pub open spec fn with_window(self, h: Handle, w: WindowState<T>) -> SystemState<T> {
        SystemState { windows: self.windows.update(h.raw - 1, w), ..self }
    }

    /// The table with `e` reported.
    pub open spec fn with_event(self, e: Event) -> SystemState<T> {
        SystemState { events: self.events.push(e), ..self }
    }

    /// What holds of every table: it respects its limit, a parent is older
    /// than its children, only a window with a parent has the child style, a
    /// destroyed window has no payload left, a live window has a live
    /// parent, and the focus is on a live window if it is anywhere.
    pub open spec fn wf(self) -> bool {
        &&& self.windows.len() <= self.limit
        &&& forall|i: int|
            0 <= i < self.windows.len() ==> (#[trigger] self.windows[i]).parent.raw <= i
        &&& forall|i: int|
            0 <= i < self.windows.len() && (#[trigger] self.windows[i]).parent.raw == 0
                ==> lacks_bits(self.windows[i].style, WS_CHILD)
        &&& forall|i: int|
            0 <= i < self.windows.len() && !(#[trigger] self.windows[i]).alive
                ==> self.windows[i].slots =~= Map::empty()
        &&& forall|i: int| 0 <= i < self.windows.len() ==> #[trigger] self.parent_lives(i)
        &&& self.focus.raw == 0 || self.alive(self.focus)
    }

    /// If the window at position `i` is alive and has a parent, the parent
    /// is alive.
    pub open spec fn parent_lives(self, i: int) -> bool {
        self.windows[i].alive && self.windows[i].parent.raw != 0 ==> self.alive(
            self.windows[i].parent,
        )
    }

    // ---------------------------------------------------------------- creation
    /// The handle that the next window will get.
    pub open spec fn next_handle(self) -> Handle {
        handle_at(self.windows.len() as int)
    }

    /// The table takes a new window of this style below `parent`: there is
    /// room left, and either the parent exists, or no parent is named and
    /// the style does not ask for a child window.
    pub open spec fn accepts(self, style: u32, parent: Handle) -> bool {
        self.windows.len() < self.limit && if parent.raw == 0 {
            lacks_bits(style, WS_CHILD)
        } else {
            self.alive(parent)
        }
    }

    /// The table after an attempt to create a window: unchanged if the
    /// window is refused, else one window longer, with the creation reported.
    /// `size` is the size asked for. The table keeps each extent as asked,
    /// and a negative one as zero: a window has no negative extent, and
    /// what the window system makes of one is not known here.
    pub open spec fn create(
        self,
        class: Seq<char>,
        text: Seq<char>,
        style: u32,
        ex_style: u32,
        position: (i32, i32),
        size: (i32, i32),
        parent: Handle,
    ) -> SystemState<T> {
        if self.accepts(style, parent) {
            SystemState {
                windows: self.windows.push(
                    WindowState {
                        alive: true,
                        parent: parent,
                        class: class,
                        text: text,
                        size: (clamp_extent(size.0), clamp_extent(size.1)),
                        position: position,
                        style: style,
                        ex_style: ex_style,
                        visible: has_bits(style, WS_VISIBLE),
                        enabled: lacks_bits(style, WS_DISABLED),
                        icon: 0,
                        slots: Map::empty(),
                    },
                ),
                events: self.events.push(Event::Created(self.next_handle())),
                ..self
            }
        } else {
            self
        }
    }

    // ------------------------------------------------------------ attached data
    /// The payload at a slot of a window, if the window exists and the slot
    /// is filled.
    pub open spec fn data(self, h: Handle, slot: usize) -> Option<Payload<T>> {
        if self.alive(h) && self.window(h).slots.contains_key(slot) {
            Some(self.window(h).slots[slot])
        } else {
            None
        }
    }

    /// The table after `payload` was stored at a slot of `h`, in place of
    /// whatever the slot held. Nothing is stored on a window that does not
    /// exist.
    pub open spec fn attach(self, h: Handle, slot: usize, payload: Payload<T>) -> SystemState<T> {
        if self.alive(h) {
            let w = self.window(h);
            self.with_window(h, WindowState { slots: w.slots.insert(slot, payload), ..w })
        } else {
            self
        }
    }

    /// The table after a slot of `h` was emptied.
    pub open spec fn detach(self, h: Handle, slot: usize) -> SystemState<T> {
        if self.alive(h) {
            let w = self.window(h);
            self.with_window(h, WindowState { slots: w.slots.remove(slot), ..w })
        } else {
            self
        }
    }

    /// The identifier in the identity record of `h`, if its default slot
    /// holds one.
    pub open spec fn identity(self, h: Handle) -> Option<u64> {
        match self.data(h, 0) {
            Some(Payload::Identity(id)) => Some(id),
            _ => None,
        }
    }

    // ------------------------------------------------------------------ the tree
    /// `d` lies below `h`: walking up from `d` from parent to parent reaches
    /// `h`.
    pub open spec fn descends(self, d: Handle, h: Handle) -> bool
        decreases d.raw,
    {
        if self.valid(d) {
            let p = self.window(d).parent;
            if p.raw == 0 || p.raw >= d.raw {
                false
            } else if p == h {
                true
            } else {
                self.descends(p, h)
            }
        } else {
            false
        }
    }

    /// The live windows below `h` among the first `n` windows of the table,
    /// oldest first.
    pub open spec fn descendants_upto(self, h: Handle, n: nat) -> Seq<Handle>
        decreases n,
    {
        if n == 0 {
            Seq::empty()
        } else {
            let rest = self.descendants_upto(h, (n - 1) as nat);
            let d = handle_at(n - 1);
            if self.alive(d) && self.descends(d, h) {
                rest.push(d)
            } else {
                rest
            }
        }
    }

    /// The live windows below `h`, children and their children alike,
    /// oldest first.
    pub open spec fn descendants(self, h: Handle) -> Seq<Handle> {
        self.descendants_upto(h, self.windows.len())
    }

    // ------------------------------------------------------------------ teardown
    /// The table after the window `h` alone was retired.
    pub open spec fn retire(self, h: Handle) -> SystemState<T> {
        if self.valid(h) {
            SystemState {
                windows: self.windows.update(h.raw - 1, retired(self.window(h))),
                focus: if self.focus == h {
                    null_handle()
                } else {
                    self.focus
                },
                ..self
            }
        } else {
            self
        }
    }

    /// `w` goes when `h` is torn down: it is `h` or a live window below it.
    pub open spec fn torn(self, w: Handle, h: Handle) -> bool {
        w == h || (self.alive(w) && self.descends(w, h))
    }

    /// The windows that go when `h` is torn down, `h` first: none if the
    /// default slot of `h` is empty.
    pub open spec fn torn_handles(self, h: Handle) -> Seq<Handle> {
        if self.data(h, 0) is Some {
            seq![h] + self.descendants(h)
        } else {
            Seq::empty()
        }
    }

    /// What the teardown of `h` reports: the notice to `h`, the notice to
    /// each descendant, the release of each descendant's default slot, the
    /// destruction of `h`, and the release of its own default slot.
    pub open spec fn teardown_events(self, h: Handle) -> Seq<Event> {
        let ds = self.descendants(h);
        seq![Event::Notice(h)] + ds.map_values(|d: Handle| Event::Notice(d)) + ds.map_values(
            |d: Handle| Event::Freed(d),
        ) + seq![Event::Destroyed(h), Event::Freed(h)]
    }

    /// The table after the teardown of `h`. A window whose default slot is
    /// empty is left alone, and so is everything else. Otherwise `h` and
    /// every live window below it are retired, the focus is dropped if it
    /// was on one of them, and the teardown is reported.
    pub open spec fn teardown(self, h: Handle) -> SystemState<T> {
        if self.data(h, 0) is Some {
            SystemState {
                windows: Seq::new(
                    self.windows.len(),
                    |i: int|
                        if self.torn(handle_at(i), h) {
                            retired(self.windows[i])
                        } else {
                            self.windows[i]
                        },
                ),
                events: self.events + self.teardown_events(h),
                focus: if self.torn(self.focus, h) {
                    null_handle()
                } else {
                    self.focus
                },
                limit: self.limit,
            }
        } else {
            self
        }
    }

    // ---------------------------------------------------------------- attributes
    pub open spec fn text_of(self, h: Handle) -> Seq<char> {
        if self.alive(h) {
            self.window(h).text
        } else {
            Seq::empty()
        }
    }

    pub open spec fn class_of(self, h: Handle) -> Seq<char> {
        if self.alive(h) {
            self.window(h).class
        } else {
            Seq::empty()
        }
    }

    pub open spec fn size_of(self, h: Handle) -> (u32, u32) {
        if self.alive(h) {
            self.window(h).size
        } else {
            (0u32, 0u32)
        }
    }

    pub open spec fn position_of(self, h: Handle) -> (i32, i32) {
        if self.alive(h) {
            self.window(h).position
        } else {
            (0i32, 0i32)
        }
    }

    pub open spec fn style_of(self, h: Handle) -> u32 {
        if self.alive(h) {
            self.window(h).style
        } else {
            0u32
        }
    }

    pub open spec fn ex_style_of(self, h: Handle) -> u32 {
        if self.alive(h) {
            self.window(h).ex_style
        } else {
            0u32
        }
    }

    pub open spec fn parent_of(self, h: Handle) -> Handle {
        if self.valid(h) {
            self.window(h).parent
        } else {
            null_handle()
        }
    }

    pub open spec fn visible_of(self, h: Handle) -> bool {
        self.alive(h) && self.window(h).visible
    }

    pub open spec fn enabled_of(self, h: Handle) -> bool {
        self.alive(h) && self.window(h).enabled
    }

    pub open spec fn icon_of(self, h: Handle) -> usize {
        if self.alive(h) {
            self.window(h).icon
        } else {
            0usize
        }
    }

    pub open spec fn has_focus(self, h: Handle) -> bool {
        self.alive(h) && self.focus == h
    }

    pub open spec fn with_text(self, h: Handle, text: Seq<char>) -> SystemState<T> {
        if self.alive(h) {
            self.with_window(h, WindowState { text: text, ..self.window(h) })
        } else {
            self
        }
    }

    pub open spec fn with_size(self, h: Handle, size: (u32, u32)) -> SystemState<T> {
        if self.alive(h) {
            self.with_window(h, WindowState { size: size, ..self.window(h) })
        } else {
            self
        }
    }

    pub open spec fn with_position(self, h: Handle, position: (i32, i32)) -> SystemState<T> {
        if self.alive(h) {
            self.with_window(h, WindowState { position: position, ..self.window(h) })
        } else {
            self
        }
    }

    pub open spec fn with_visible(self, h: Handle, visible: bool) -> SystemState<T> {
        if self.alive(h) {
            self.with_window(h, WindowState { visible: visible, ..self.window(h) })
        } else {
            self
        }
    }

    pub open spec fn with_enabled(self, h: Handle, enabled: bool) -> SystemState<T> {
        if self.alive(h) {
            self.with_window(h, WindowState { enabled: enabled, ..self.window(h) })
        } else {
            self
        }
    }

    pub open spec fn with_icon(self, h: Handle, icon: usize) -> SystemState<T> {
        if self.alive(h) {
            self.with_window(h, WindowState { icon: icon, ..self.window(h) })
        } else {
            self
        }
    }

    pub open spec fn with_focus(self, h: Handle) -> SystemState<T> {
        if self.alive(h) {
            SystemState { focus: h, ..self }
        } else {
            self
        }
    }

    /// The table after a redraw of `h` was requested.
    pub open spec fn redraw(self, h: Handle) -> SystemState<T> {
        if self.alive(h) {
            self.with_event(Event::Redraw(h))
        } else {
            self
        }
    }
}

} // verus!
