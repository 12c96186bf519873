//! A canvas: a window, top-level or child, whose surface is painted by an
//! external collaborator.

use vstd::prelude::*;
use crate::error::NwgError;
use crate::handle::{ControlHandle, Event, Handle, Icon};
use crate::state::{clamp_extent, null_handle, SystemState};
use crate::style::{
    has_bits, lacks_bits, WS_CAPTION, WS_CHILD, WS_CLIPCHILDREN, WS_CLIPSIBLINGS, WS_DECORATIONS,
    WS_DISABLED, WS_MAXIMIZE, WS_MAXIMIZEBOX, WS_MINIMIZE, WS_MINIMIZEBOX, WS_OVERLAPPEDWINDOW,
    WS_SYSMENU, WS_THICKFRAME, WS_VISIBLE,
};
use crate::system::{WindowParams, WindowSystem};

verus! {

/// No flag at all.
pub const NONE: u32 = 0;
/// Every decoration of a top-level window: a title, a system menu, a
/// resizable frame, and the close, minimize and maximize buttons.
pub const MAIN_WINDOW: u32 = WS_CAPTION | WS_SYSMENU | WS_MINIMIZEBOX | WS_THICKFRAME
    | WS_MAXIMIZEBOX;
/// A window with a title, a system menu, a close button, and a border that
/// does not resize.
pub const WINDOW: u32 = WS_CAPTION | WS_SYSMENU;
/// A minimize button.
pub const MINIMIZE_BOX: u32 = WS_MINIMIZEBOX;
/// A maximize button.
pub const MAXIMIZE_BOX: u32 = WS_MAXIMIZEBOX;
/// A system menu.
pub const SYS_MENU: u32 = WS_SYSMENU;
/// Shown right away.
pub const VISIBLE: u32 = WS_VISIBLE;
/// Created disabled.
pub const DISABLED: u32 = WS_DISABLED;
/// Created maximized.
pub const MAXIMIZED: u32 = WS_MAXIMIZE;
/// Created minimized.
pub const MINIMIZED: u32 = WS_MINIMIZE;
/// A resizable border.
pub const RESIZABLE: u32 = WS_THICKFRAME | WS_MAXIMIZEBOX;

/// The name of the window class of every canvas.
pub const CLASS_NAME: &'static str = "NWG_EXTERN_CANVAS";

/// The flags of a canvas: a set of the flag bits above. The window flags
/// count only for a canvas without a parent.
#[derive(Clone, Copy, Debug, PartialEq, Eq, Structural)]
pub struct ExternCanvasFlags {
    pub bits: u32,
}

impl ExternCanvasFlags {
    /// The set made of the given bits.
    pub fn from_bits(bits: u32) -> (flags: ExternCanvasFlags)
        ensures
            flags.bits == bits,
    {
        ExternCanvasFlags { bits: bits }
    }

    pub fn bits(&self) -> (bits: u32)
        ensures
            bits == self.bits,
    {
        self.bits
    }

    /// The flags of either set.
    pub fn union(self, other: ExternCanvasFlags) -> (flags: ExternCanvasFlags)
        ensures
            flags.bits == self.bits | other.bits,
    {
        ExternCanvasFlags { bits: self.bits | other.bits }
    }

    /// True if every flag of `other` is in the set.
    pub fn contains(&self, other: ExternCanvasFlags) -> (b: bool)
        ensures
            b == has_bits(self.bits, other.bits),
    {
        self.bits & other.bits == other.bits
    }
}

/// The style of a canvas, from the flags asked for and from whether it has
/// a parent. Without flags a canvas is a visible main window. A canvas with
/// a parent loses every top-level decoration and becomes a child. Every
/// canvas clips its children and its siblings.
pub open spec fn canvas_style(flags: Option<ExternCanvasFlags>, has_parent: bool) -> u32 {
    let asked = match flags {
        Some(f) => f.bits,
        None => WS_OVERLAPPEDWINDOW | WS_VISIBLE,
    };
    let kind = if has_parent {
        (asked & !WS_DECORATIONS) | WS_CHILD
    } else {
        asked
    };
    kind | (WS_CLIPCHILDREN | WS_CLIPSIBLINGS)
}

/// A canvas with a parent is a child without any top-level decoration, and
/// every canvas clips its children and its siblings.
pub proof fn lemma_canvas_style(flags: Option<ExternCanvasFlags>, has_parent: bool)
    ensures
        has_bits(canvas_style(flags, has_parent), WS_CLIPCHILDREN),
        has_bits(canvas_style(flags, has_parent), WS_CLIPSIBLINGS),
        has_parent ==> has_bits(canvas_style(flags, true), WS_CHILD),
        has_parent ==> lacks_bits(canvas_style(flags, true), WS_DECORATIONS),
        canvas_style(None, false) == 0x16CF_0000u32,
        canvas_style(None, true) == 0x5600_0000u32,
{
    let asked: u32 = match flags {
        Some(f) => f.bits,
        None => WS_OVERLAPPEDWINDOW | WS_VISIBLE,
    };
    assert((asked | (0x0200_0000u32 | 0x0400_0000u32)) & 0x0200_0000u32 == 0x0200_0000u32 && (asked
        | (0x0200_0000u32 | 0x0400_0000u32)) & 0x0400_0000u32 == 0x0400_0000u32) by (bit_vector);
    assert({
        let style = ((asked & !0x00CF_0000u32) | 0x4000_0000u32) | (0x0200_0000u32
            | 0x0400_0000u32);
        &&& style & 0x0200_0000u32 == 0x0200_0000u32
        &&& style & 0x0400_0000u32 == 0x0400_0000u32
        &&& style & 0x4000_0000u32 == 0x4000_0000u32
        &&& style & 0x00CF_0000u32 == 0
    }) by (bit_vector);
    assert((0x00CF_0000u32 | 0x1000_0000u32) | (0x0200_0000u32 | 0x0400_0000u32) == 0x16CF_0000u32)
        by (bit_vector);
    assert((((0x00CF_0000u32 | 0x1000_0000u32) & !0x00CF_0000u32) | 0x4000_0000u32) | (
    0x0200_0000u32 | 0x0400_0000u32) == 0x5600_0000u32) by (bit_vector);
}

/// A canvas control. It is blank until a builder binds it to a window.
pub struct ExternCanvas {
    pub handle: ControlHandle,
}

impl Default for ExternCanvas {
    fn default() -> (canvas: ExternCanvas)
        ensures
            canvas.handle is NoHandle,
    {
        ExternCanvas { handle: ControlHandle::NoHandle }
    }
}

impl ExternCanvas {
    /// The canvas is bound to a window.
    pub open spec fn bound(&self) -> bool {
        self.handle is Hwnd
    }

    /// The window that the canvas is bound to.
    pub open spec fn window(&self) -> Handle {
        self.handle->Hwnd_0
    }

    fn hwnd(&self) -> (h: Handle)
        requires
            self.bound(),
        ensures
            h == self.window(),
    {
        self.handle.hwnd().unwrap()
    }

    /// A builder with the defaults of a canvas: the title "New Canvas", 500
    /// by 500 at (300, 300), no flags of its own, no icon, no parent.
    pub fn builder<'a>() -> (b: ExternCanvasBuilder<'a>)
        ensures
            b@ == (BuilderState {
                title: "New Canvas"@,
                size: (500i32, 500i32),
                position: (300i32, 300i32),
                flags: None,
                icon: None,
                parent: None,
            }),
    {
        ExternCanvasBuilder {
            title: "New Canvas",
            size: (500, 500),
            position: (300, 300),
            flags: None,
            icon: None,
            parent: None,
        }
    }

    /// Requests a redraw of the whole surface of the canvas.
    pub fn invalidate<T>(&self, sys: &mut WindowSystem<T>)
        requires
            self.bound(),
            old(sys).wf(),
        ensures
            final(sys).wf(),
            final(sys)@ == old(sys)@.redraw(self.window()),
    {
        let handle = self.hwnd();
        sys.request_redraw(handle);
    }

    /// The icon of the window, if it has one. The icon is not owned by the
    /// caller.
    pub fn icon<T>(&self, sys: &WindowSystem<T>) -> (icon: Option<Icon>)
        requires
            self.bound(),
        ensures
            icon == if sys@.icon_of(self.window()) == 0 {
                None::<Icon>
            } else {
                Some(Icon { handle: sys@.icon_of(self.window()), owned: false })
            },
    {
        let handle = sys.icon(self.hwnd());
        if handle == 0 {
            None
        } else {
            Some(Icon { handle: handle, owned: false })
        }
    }

    /// Sets the icon of the window, or removes it with `None`.
    pub fn set_icon<T>(&self, sys: &mut WindowSystem<T>, icon: Option<&Icon>)
        requires
            self.bound(),
            old(sys).wf(),
        ensures
            final(sys).wf(),
            final(sys)@ == old(sys)@.with_icon(
                self.window(),
                match icon {
                    Some(i) => i.handle,
                    None => 0usize,
                },
            ),
    {
        let handle = self.hwnd();
        let image: usize = match icon {
            Some(i) => i.handle,
            None => 0,
        };
        sys.set_icon(handle, image);
    }

    /// True if the canvas has the keyboard focus.
    pub fn focus<T>(&self, sys: &WindowSystem<T>) -> (focus: bool)
        requires
            self.bound(),
        ensures
            focus == sys@.has_focus(self.window()),
    {
        sys.has_focus(self.hwnd())
    }

    /// Gives the keyboard focus to the canvas.
    pub fn set_focus<T>(&self, sys: &mut WindowSystem<T>)
        requires
            self.bound(),
            old(sys).wf(),
        ensures
            final(sys).wf(),
            final(sys)@ == old(sys)@.with_focus(self.window()),
    {
        let handle = self.hwnd();
        sys.set_focus(handle);
    }

    /// True if the user can interact with the canvas.
    pub fn enabled<T>(&self, sys: &WindowSystem<T>) -> (enabled: bool)
        requires
            self.bound(),
        ensures
            enabled == sys@.enabled_of(self.window()),
    {
        sys.enabled(self.hwnd())
    }

    pub fn set_enabled<T>(&self, sys: &mut WindowSystem<T>, v: bool)
        requires
            self.bound(),
            old(sys).wf(),
        ensures
            final(sys).wf(),
            final(sys)@ == old(sys)@.with_enabled(self.window(), v),
    {
        let handle = self.hwnd();
        sys.set_enabled(handle, v);
    }

    /// True if the canvas is shown, even where it lies outside of what its
    /// parent shows.
    pub fn visible<T>(&self, sys: &WindowSystem<T>) -> (visible: bool)
        requires
            self.bound(),
        ensures
            visible == sys@.visible_of(self.window()),
    {
        sys.visible(self.hwnd())
    }

    pub fn set_visible<T>(&self, sys: &mut WindowSystem<T>, v: bool)
        requires
            self.bound(),
            old(sys).wf(),
        ensures
            final(sys).wf(),
            final(sys)@ == old(sys)@.with_visible(self.window(), v),
    {
        let handle = self.hwnd();
        sys.set_visible(handle, v);
    }

    pub fn size<T>(&self, sys: &WindowSystem<T>) -> (size: (u32, u32))
        requires
            self.bound(),
        ensures
            size == sys@.size_of(self.window()),
    {
        sys.size(self.hwnd())
    }

    pub fn set_size<T>(&self, sys: &mut WindowSystem<T>, x: u32, y: u32)
        requires
            self.bound(),
            old(sys).wf(),
        ensures
            final(sys).wf(),
            final(sys)@ == old(sys)@.with_size(self.window(), (x, y)),
    {
        let handle = self.hwnd();
        sys.set_size(handle, (x, y));
    }

    pub fn position<T>(&self, sys: &WindowSystem<T>) -> (position: (i32, i32))
        requires
            self.bound(),
        ensures
            position == sys@.position_of(self.window()),
    {
        sys.position(self.hwnd())
    }

    pub fn set_position<T>(&self, sys: &mut WindowSystem<T>, x: i32, y: i32)
        requires
            self.bound(),
            old(sys).wf(),
        ensures
            final(sys).wf(),
            final(sys)@ == old(sys)@.with_position(self.window(), (x, y)),
    {
        let handle = self.hwnd();
        sys.set_position(handle, (x, y));
    }

    /// The title of the window.
    pub fn text<T>(&self, sys: &WindowSystem<T>) -> (text: String)
        requires
            self.bound(),
        ensures
            text@ == sys@.text_of(self.window()),
    {
        sys.text(self.hwnd())
    }

    pub fn set_text<'a, T>(&self, sys: &mut WindowSystem<T>, v: &'a str)
        requires
            self.bound(),
            old(sys).wf(),
        ensures
            final(sys).wf(),
            final(sys)@ == old(sys)@.with_text(self.window(), v@),
    {
        let handle = self.hwnd();
        sys.set_text(handle, v);
    }

    /// The name of the window class of a canvas.
    pub fn class_name(&self) -> (name: &'static str)
        ensures
            name@ == CLASS_NAME@,
    {
        CLASS_NAME
    }

    /// The flags of a canvas built without flags of its own: a visible main
    /// window.
    pub fn flags(&self) -> (flags: u32)
        ensures
            flags == WS_OVERLAPPEDWINDOW | WS_VISIBLE,
    {
        WS_OVERLAPPEDWINDOW | WS_VISIBLE
    }

    /// The flags that every canvas has.
    pub fn forced_flags(&self) -> (flags: u32)
        ensures
            flags == WS_CLIPCHILDREN | WS_CLIPSIBLINGS,
    {
        WS_CLIPCHILDREN | WS_CLIPSIBLINGS
    }
}

/// What a builder holds, as contracts see it.
pub struct BuilderState {
    pub title: Seq<char>,
    pub size: (i32, i32),
    pub position: (i32, i32),
    pub flags: Option<ExternCanvasFlags>,
    pub icon: Option<Icon>,
    pub parent: Option<ControlHandle>,
}

/// Collects what a canvas is made from, and makes it.
pub struct ExternCanvasBuilder<'a> {
    title: &'a str,
    size: (i32, i32),
    position: (i32, i32),
    flags: Option<ExternCanvasFlags>,
    icon: Option<&'a Icon>,
    parent: Option<ControlHandle>,
}

impl<'a> View for ExternCanvasBuilder<'a> {
    type V = BuilderState;

    closed spec fn view(&self) -> BuilderState {
        BuilderState {
            title: self.title@,
            size: self.size,
            position: self.position,
            flags: self.flags,
            icon: match self.icon {
                Some(i) => Some(*i),
                None => None,
            },
            parent: self.parent,
        }
    }
}

/// The window that a canvas gets for parent: the null handle without a
/// parent control or below a blank one.
pub open spec fn parent_window(parent: Option<ControlHandle>) -> Handle {
    match parent {
        Some(ControlHandle::Hwnd(h)) => h,
        _ => null_handle(),
    }
}

/// `params` is what the canvas that `b` describes is created from.
pub open spec fn canvas_described(params: WindowParams, b: BuilderState) -> bool {
    &&& params.class@ == CLASS_NAME@
    &&& params.text@ == b.title
    &&& params.style == canvas_style(b.flags, b.parent is Some)
    &&& params.ex_style == 0
    &&& params.position == b.position
    &&& params.size == b.size
    &&& params.parent == parent_window(b.parent)
}

/// The window table after the canvas that `b` describes was created in it
/// as the window `h`.
pub open spec fn canvas_created<T>(s: SystemState<T>, b: BuilderState, h: Handle) -> SystemState<
    T,
> {
    let made = s.create(
        CLASS_NAME@,
        b.title,
        canvas_style(b.flags, b.parent is Some),
        0,
        b.position,
        b.size,
        parent_window(b.parent),
    );
    match b.icon {
        Some(icon) => made.with_icon(h, icon.handle),
        None => made,
    }
}

/// A canvas is asked for with the size that its builder holds, and a
/// canvas that was built shows what its builder held: the title, the
/// position and, but for a negative extent, the size.
pub proof fn lemma_built_as_described<T>(s: SystemState<T>, b: BuilderState)
    requires
        s.wf(),
        b.parent != Some(ControlHandle::NoHandle),
        s.accepts(canvas_style(b.flags, b.parent is Some), parent_window(b.parent)),
    ensures
        canvas_created(s, b, s.next_handle()).alive(s.next_handle()),
        canvas_created(s, b, s.next_handle()).text_of(s.next_handle()) == b.title,
        canvas_created(s, b, s.next_handle()).position_of(s.next_handle()) == b.position,
        canvas_created(s, b, s.next_handle()).size_of(s.next_handle()) == (
            clamp_extent(b.size.0),
            clamp_extent(b.size.1),
        ),
        b.size.0 >= 0 && b.size.1 >= 0 ==> canvas_created(s, b, s.next_handle()).size_of(
            s.next_handle(),
        ) == (b.size.0 as u32, b.size.1 as u32),
        canvas_created(s, b, s.next_handle()).class_of(s.next_handle()) == CLASS_NAME@,
        canvas_created(s, b, s.next_handle()).parent_of(s.next_handle()) == parent_window(
            b.parent,
        ),
        canvas_created(s, b, s.next_handle()).style_of(s.next_handle()) == canvas_style(
            b.flags,
            b.parent is Some,
        ),
        canvas_created(s, b, s.next_handle()).events == s.events.push(
            Event::Created(s.next_handle()),
        ),
        canvas_created(s, b, s.next_handle()).windows.len() == s.windows.len() + 1,
        canvas_created(s, b, s.next_handle()).icon_of(s.next_handle()) == match b.icon {
            Some(icon) => icon.handle,
            None => 0usize,
        },
{
}

/// What [`ExternCanvasBuilder::build`] returns and leaves behind.
///
/// Below a blank parent control nothing is made and the error is `Unbound`.
/// Where the window table refuses the window nothing is made and the error
/// is `CreationFailed`. Otherwise the window is asked for with the
/// builder's title, position and size as they are and with the style
/// computed from its flags, the canvas is bound to the new window, and the
/// window gets the builder's icon if it holds one.
pub open spec fn canvas_built<T>(
    b: BuilderState,
    before: SystemState<T>,
    after: SystemState<T>,
    canvas_before: ExternCanvas,
    canvas_after: ExternCanvas,
    r: Result<(), NwgError>,
) -> bool {
    let style = canvas_style(b.flags, b.parent is Some);
    if b.parent == Some(ControlHandle::NoHandle) {
        &&& r == Err::<(), NwgError>(NwgError::Unbound)
        &&& after == before
        &&& canvas_after.handle == canvas_before.handle
    } else if !before.accepts(style, parent_window(b.parent)) {
        &&& r == Err::<(), NwgError>(NwgError::CreationFailed)
        &&& after == before
        &&& canvas_after.handle == canvas_before.handle
    } else {
        &&& r == Ok::<(), NwgError>(())
        &&& canvas_after.handle == ControlHandle::Hwnd(before.next_handle())
        &&& after == canvas_created(before, b, before.next_handle())
    }
}

impl<'a> ExternCanvasBuilder<'a> {
    pub fn flags(self, flags: ExternCanvasFlags) -> (b: ExternCanvasBuilder<'a>)
        ensures
            b@ == (BuilderState { flags: Some(flags), ..self@ }),
    {
        let mut b = self;
        b.flags = Some(flags);
        b
    }

    pub fn title(self, text: &'a str) -> (b: ExternCanvasBuilder<'a>)
        ensures
            b@ == (BuilderState { title: text@, ..self@ }),
    {
        let mut b = self;
        b.title = text;
        b
    }

    pub fn size(self, size: (i32, i32)) -> (b: ExternCanvasBuilder<'a>)
        ensures
            b@ == (BuilderState { size: size, ..self@ }),
    {
        let mut b = self;
        b.size = size;
        b
    }

    pub fn position(self, pos: (i32, i32)) -> (b: ExternCanvasBuilder<'a>)
        ensures
            b@ == (BuilderState { position: pos, ..self@ }),
    {
        let mut b = self;
        b.position = pos;
        b
    }

    pub fn icon(self, ico: Option<&'a Icon>) -> (b: ExternCanvasBuilder<'a>)
        ensures
            b@ == (BuilderState {
                icon: match ico {
                    Some(i) => Some(*i),
                    None => None,
                },
                ..self@
            }),
    {
        let mut b = self;
        b.icon = ico;
        b
    }

    pub fn parent(self, p: Option<ControlHandle>) -> (b: ExternCanvasBuilder<'a>)
        ensures
            b@ == (BuilderState { parent: p, ..self@ }),
    {
        let mut b = self;
        b.parent = p;
        b
    }

    /// Works out what the window of the canvas is created from: its style
    /// and its parent window, with the title, the position and the size
    /// that the builder holds, unchanged.
    ///
    /// Fails with `Unbound` below a blank parent control.
    pub fn params(&self, canvas: &ExternCanvas) -> (r: Result<WindowParams, NwgError>)
        ensures
            match r {
                Err(e) => e == NwgError::Unbound && self@.parent == Some(ControlHandle::NoHandle),
                Ok(params) => self@.parent != Some(ControlHandle::NoHandle) && canvas_described(
                    params,
                    self@,
                ),
            },
    {
        let mut flags: u32 = match self.flags {
            Some(f) => f.bits(),
            None => canvas.flags(),
        };
        // a canvas with a parent has no window decoration
        let parent: Handle = match self.parent {
            Some(p) => {
                flags = flags & !(WS_CAPTION | WS_SYSMENU | WS_MINIMIZEBOX | WS_THICKFRAME
                    | WS_MAXIMIZEBOX);
                flags = flags | WS_CHILD;
                match p.hwnd() {
                    Some(h) => h,
                    None => {
                        return Err(NwgError::Unbound);
                    },
                }
            },
            None => Handle { raw: 0 },
        };
        let style: u32 = flags | canvas.forced_flags();
        proof {
            let asked: u32 = match self.flags {
                Some(f) => f.bits,
                None => WS_OVERLAPPEDWINDOW | WS_VISIBLE,
            };
            assert(asked & !(0x00C0_0000u32 | 0x0008_0000u32 | 0x0002_0000u32 | 0x0004_0000u32
                | 0x0001_0000u32) == asked & !0x00CF_0000u32) by (bit_vector);
            assert(style == canvas_style(self@.flags, self@.parent is Some));
        }
        Ok(
            WindowParams {
                class: canvas.class_name().to_owned(),
                text: self.title.to_owned(),
                style: style,
                ex_style: 0,
                position: self.position,
                size: self.size,
                parent: parent,
            },
        )
    }

    /// Creates the window of the canvas and binds `out` to it.
    pub fn build<T>(self, sys: &mut WindowSystem<T>, out: &mut ExternCanvas) -> (r: Result<
        (),
        NwgError,
    >)
        requires
            old(sys).wf(),
        ensures
            final(sys).wf(),
            canvas_built(self@, old(sys)@, final(sys)@, *old(out), *final(out), r),
    {
        let params = match self.params(out) {
            Ok(p) => p,
            Err(e) => {
                return Err(e);
            },
        };
        let handle = sys.create_window(params);
        if handle.is_null() {
            return Err(NwgError::CreationFailed);
        }
        out.handle = ControlHandle::Hwnd(handle);
        if self.icon.is_some() {
            out.set_icon(sys, self.icon);
        }
        Ok(())
    }
}

} // verus!
