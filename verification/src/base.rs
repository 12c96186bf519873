//! The window base: creating a window from a descriptor, and attaching data
//! to a window.

use vstd::prelude::*;
use crate::collection::{lookup, ControlCollection};
use crate::error::NwgError;
use crate::handle::{ControlId, Event, Handle, Payload};
use crate::state::{clamp_extent, null_handle, signed_extent, SystemState};
use crate::style::{
    has_bits, lacks_bits, needs_size_fix, needs_size_fix_spec, window_style, window_style_spec,
    WS_CAPTION, WS_CHILD, WS_EX_COMPOSITED, WS_SYSMENU, WS_VISIBLE,
};
use crate::system::{WindowParams, WindowSystem};

verus! {

/// The description of a window to create. It is used once, by
/// [`create_base`].
pub struct WindowBase {
    pub text: String,
    pub size: (u32, u32),
    pub position: (i32, i32),
    pub visible: bool,
    pub resizable: bool,
    pub extra_style: u32,
    pub class: String,
    pub parent: Option<ControlId>,
}

/// A user interface: its controls and the windows they are bound to.
pub struct Ui<T> {
    pub controls: ControlCollection,
    pub system: WindowSystem<T>,
}

impl<T> Ui<T> {
    /// The window table is well formed.
    pub open spec fn wf(&self) -> bool {
        self.system.wf()
    }

    /// A user interface without controls, over an empty window table that
    /// will hold at most `limit` windows.
    pub fn new(limit: usize) -> (ui: Ui<T>)
        ensures
            ui.wf(),
            ui.controls@ == Map::<ControlId, Handle>::empty(),
            ui.system@ == SystemState::<T>::empty(limit),
    {
        Ui { controls: ControlCollection::new(), system: WindowSystem::new(limit) }
    }
}

// ------------------------------------------------------------------ creation
/// The window that a parent identifier stands for: the null handle where
/// no parent is named, the window bound to the identifier where the
/// collection holds it, and no window at all where it does not.
pub open spec fn resolve_parent_spec(
    controls: Map<ControlId, Handle>,
    parent: Option<ControlId>,
) -> Result<Handle, NwgError> {
    match parent {
        None => Ok(null_handle()),
        Some(id) => match lookup(controls, id) {
            Some(h) => Ok(h),
            None => Err(NwgError::NotFound),
        },
    }
}

/// Resolves the parent named by a descriptor.
pub fn resolve_parent(controls: &ControlCollection, parent: Option<ControlId>) -> (r: Result<
    Handle,
    NwgError,
>)
    ensures
        r == resolve_parent_spec(controls@, parent),
{
    match parent {
        None => Ok(Handle { raw: 0 }),
        Some(id) => match controls.get(id) {
            Some(h) => Ok(h),
            None => Err(NwgError::NotFound),
        },
    }
}

/// The style of the window that `base` describes, below `parent`.
pub open spec fn base_style(base: WindowBase, parent: Handle) -> u32 {
    window_style_spec(base.visible, parent.raw != 0, base.resizable, base.extra_style)
}

/// The window table after the creation of the window that `base` describes,
/// below `parent`. A refused window leaves the table as it was. An accepted
/// one is created, composited, and reported, then gets the compensating
/// resize if its style calls for one, then the intercept for the destroy
/// notice.
pub open spec fn base_created<T>(s: SystemState<T>, base: WindowBase, parent: Handle)
    -> SystemState<T> {
    let style = base_style(base, parent);
    if s.accepts(style, parent) {
        let h = s.next_handle();
        let made = s.create(
            base.class@,
            base.text@,
            style,
            WS_EX_COMPOSITED,
            base.position,
            (signed_extent(base.size.0), signed_extent(base.size.1)),
            parent,
        );
        let sized = if needs_size_fix_spec(style) {
            made.with_event(Event::SizeFixed(h))
        } else {
            made
        };
        sized.with_event(Event::Subclassed(h))
    } else {
        s
    }
}

/// `params` is what the window that `base` describes is created from,
/// below `parent`: composited, with the text, class and position of `base`,
/// its size as the window system takes it, and the style computed from it.
pub open spec fn describes(params: WindowParams, base: WindowBase, parent: Handle) -> bool {
    &&& params.class@ == base.class@
    &&& params.text@ == base.text@
    &&& params.style == base_style(base, parent)
    &&& params.ex_style == WS_EX_COMPOSITED
    &&& params.position == base.position
    &&& params.size == (signed_extent(base.size.0), signed_extent(base.size.1))
    &&& params.parent == parent
}

/// An unsigned extent as the window system takes it.
fn as_signed(v: u32) -> (e: i32)
    ensures
        e == signed_extent(v),
{
    if v <= 0x7FFF_FFFF {
        v as i32
    } else {
        let low: u32 = v - 0x8000_0000;
        (low as i32) + i32::MIN
    }
}

/// Works out what the window that `base` describes is created from: it
/// resolves the parent and computes the style.
///
/// Fails with `NotFound` if `base` names a parent that the collection does
/// not hold.
pub fn base_params(controls: &ControlCollection, base: &WindowBase) -> (r: Result<
    WindowParams,
    NwgError,
>)
    ensures
        match resolve_parent_spec(controls@, base.parent) {
            Err(e) => r matches Err(failure) && failure == e,
            Ok(parent) => r matches Ok(params) && describes(params, *base, parent),
        },
{
    let parent = match resolve_parent(controls, base.parent) {
        Ok(h) => h,
        Err(e) => {
            return Err(e);
        },
    };
    Ok(
        WindowParams {
            class: base.class.clone(),
            text: base.text.clone(),
            style: window_style(
                base.visible,
                !parent.is_null(),
                base.resizable,
                base.extra_style,
            ),
            ex_style: WS_EX_COMPOSITED,
            position: base.position,
            size: (as_signed(base.size.0), as_signed(base.size.1)),
            parent: parent,
        },
    )
}

/// Creates the window that `base` describes and returns its handle.
///
/// Fails with `NotFound`, before the window table is touched, if `base`
/// names a parent that the collection does not hold, and with
/// `CreationFailed` if the window table refuses the window.
pub fn create_base<T>(ui: &mut Ui<T>, base: WindowBase) -> (r: Result<Handle, NwgError>)
    requires
        old(ui).wf(),
    ensures
        final(ui).wf(),
        final(ui).controls@ == old(ui).controls@,
        match resolve_parent_spec(old(ui).controls@, base.parent) {
            Err(e) => r == Err::<Handle, NwgError>(e) && final(ui).system@ == old(ui).system@,
            Ok(parent) => {
                &&& final(ui).system@ == base_created(old(ui).system@, base, parent)
                &&& r == if old(ui).system@.accepts(base_style(base, parent), parent) {
                    Ok::<Handle, NwgError>(old(ui).system@.next_handle())
                } else {
                    Err::<Handle, NwgError>(NwgError::CreationFailed)
                }
            },
        },
{
    let params = match base_params(&ui.controls, &base) {
        Ok(p) => p,
        Err(e) => {
            return Err(e);
        },
    };
    let style = params.style;
    let handle = ui.system.create_window(params);
    if handle.is_null() {
        Err(NwgError::CreationFailed)
    } else {
        if needs_size_fix(style) {
            ui.system.record(Event::SizeFixed(handle));
        }
        ui.system.record(Event::Subclassed(handle));
        Ok(handle)
    }
}

/// A window created without a parent and not resizable is no child, and it
/// is captioned and has a system menu, whatever else its descriptor holds.
pub proof fn lemma_fixed_top_level_created<T>(s: SystemState<T>, base: WindowBase)
    requires
        s.wf(),
        base.parent is None,
        !base.resizable,
        s.accepts(base_style(base, null_handle()), null_handle()),
    ensures
        base_created(s, base, null_handle()).alive(s.next_handle()),
        lacks_bits(base_created(s, base, null_handle()).style_of(s.next_handle()), WS_CHILD),
        has_bits(base_created(s, base, null_handle()).style_of(s.next_handle()), WS_CAPTION),
        has_bits(base_created(s, base, null_handle()).style_of(s.next_handle()), WS_SYSMENU),
{
    let style = base_style(base, null_handle());
    let shown: u32 = if base.visible {
        WS_VISIBLE
    } else {
        0u32
    };
    let extra = base.extra_style;
    assert(style & 0x00C0_0000u32 == 0x00C0_0000u32 && style & 0x0008_0000u32 == 0x0008_0000u32)
        by (bit_vector)
        requires
            style == shown | 0x00CB_0000u32 | extra,
    ;
}

/// What a window is created with is what the table holds of it: its text,
/// class and position, its parent, the style computed for it, and its size
/// where the window system can take it as it is.
pub proof fn lemma_created_as_described<T>(s: SystemState<T>, base: WindowBase, parent: Handle)
    requires
        s.wf(),
        s.accepts(base_style(base, parent), parent),
    ensures
        base_created(s, base, parent).alive(s.next_handle()),
        base_created(s, base, parent).text_of(s.next_handle()) == base.text@,
        base_created(s, base, parent).class_of(s.next_handle()) == base.class@,
        base_created(s, base, parent).size_of(s.next_handle()) == (
            clamp_extent(signed_extent(base.size.0)),
            clamp_extent(signed_extent(base.size.1)),
        ),
        base.size.0 <= 0x7FFF_FFFF && base.size.1 <= 0x7FFF_FFFF ==> base_created(
            s,
            base,
            parent,
        ).size_of(s.next_handle()) == base.size,
        base_created(s, base, parent).position_of(s.next_handle()) == base.position,
        base_created(s, base, parent).parent_of(s.next_handle()) == parent,
        base_created(s, base, parent).style_of(s.next_handle()) == base_style(base, parent),
        base_created(s, base, parent).ex_style_of(s.next_handle()) == WS_EX_COMPOSITED,
        forall|slot: usize| #[trigger]
            base_created(s, base, parent).data(s.next_handle(), slot) is None,
        forall|h: Handle|
            s.valid(h) ==> #[trigger] base_created(s, base, parent).window(h) == s.window(h),
{
}

/// A window is never created below a parent that the collection does not
/// hold: the creation fails with `NotFound`, whatever the window table is.
pub proof fn lemma_unknown_parent(controls: Map<ControlId, Handle>, id: ControlId)
    requires
        !controls.contains_key(id),
    ensures
        resolve_parent_spec(controls, Some(id)) == Err::<Handle, NwgError>(NwgError::NotFound),
{
}

// ------------------------------------------------------------- attached data
/// Stores `data` at the default slot of `handle`, in place of what the slot
/// held. Nothing is stored on a window that does not exist.
///
/// The payload that the slot held is not handed back: it is dropped by the
/// call. A caller that wants to keep it takes it first, with
/// [`take_handle_data`].
pub fn set_handle_data<T>(sys: &mut WindowSystem<T>, handle: Handle, data: Payload<T>)
    requires
        old(sys).wf(),
    ensures
        final(sys).wf(),
        final(sys)@ == old(sys)@.attach(handle, 0, data),
        final(sys)@.alive(handle) ==> final(sys)@.data(handle, 0) == Some(data),
{
    set_handle_data_off(sys, handle, data, 0)
}

/// Stores `data` at the slot `offset` of `handle`, in place of what the
/// slot held. Slot 0 is the default slot.
///
/// The payload that the slot held is not handed back: it is dropped by the
/// call. A caller that wants to keep it takes it first, with
/// [`take_handle_data_off`].
pub fn set_handle_data_off<T>(
    sys: &mut WindowSystem<T>,
    handle: Handle,
    data: Payload<T>,
    offset: usize,
)
    requires
        old(sys).wf(),
    ensures
        final(sys).wf(),
        final(sys)@ == old(sys)@.attach(handle, offset, data),
        final(sys)@.alive(handle) ==> final(sys)@.data(handle, offset) == Some(data),
{
    sys.attach(handle, offset, data)
}

/// The payload at the default slot of `handle`, if the window exists and
/// the slot is filled. The reference is to the stored payload itself: what
/// is written through it is what the slot holds afterwards, and nothing
/// else changes.
pub fn get_handle_data<'a, T>(sys: &'a mut WindowSystem<T>, handle: Handle) -> (data: Option<
    &'a mut Payload<T>,
>)
    requires
        old(sys).wf(),
    ensures
        final(sys).wf(),
        match data {
            Some(p) => old(sys)@.data(handle, 0) == Some(*p) && final(sys)@ == old(sys)@.attach(
                handle,
                0,
                *final(p),
            ),
            None => old(sys)@.data(handle, 0) is None && final(sys)@ == old(sys)@,
        },
{
    get_handle_data_off(sys, handle, 0)
}

/// The payload at the slot `offset` of `handle`, if the window exists and
/// the slot is filled. The reference is to the stored payload itself: what
/// is written through it is what the slot holds afterwards, and nothing
/// else changes.
pub fn get_handle_data_off<'a, T>(
    sys: &'a mut WindowSystem<T>,
    handle: Handle,
    offset: usize,
) -> (data: Option<&'a mut Payload<T>>)
    requires
        old(sys).wf(),
    ensures
        final(sys).wf(),
        match data {
            Some(p) => old(sys)@.data(handle, offset) == Some(*p) && final(sys)@
                == old(sys)@.attach(handle, offset, *final(p)),
            None => old(sys)@.data(handle, offset) is None && final(sys)@ == old(sys)@,
        },
{
    sys.data_mut(handle, offset)
}

/// Takes the payload out of the default slot of `handle` and hands it to
/// the caller. The slot is empty afterwards.
pub fn take_handle_data<T>(sys: &mut WindowSystem<T>, handle: Handle) -> (data: Option<
    Payload<T>,
>)
    requires
        old(sys).wf(),
    ensures
        final(sys).wf(),
        final(sys)@ == old(sys)@.detach(handle, 0),
        data == old(sys)@.data(handle, 0),
        final(sys)@.data(handle, 0) is None,
{
    take_handle_data_off(sys, handle, 0)
}

/// Takes the payload out of the slot `offset` of `handle` and hands it to
/// the caller. The slot is empty afterwards.
pub fn take_handle_data_off<T>(sys: &mut WindowSystem<T>, handle: Handle, offset: usize) -> (data:
    Option<Payload<T>>)
    requires
        old(sys).wf(),
    ensures
        final(sys).wf(),
        final(sys)@ == old(sys)@.detach(handle, offset),
        data == old(sys)@.data(handle, offset),
        final(sys)@.data(handle, offset) is None,
{
    sys.detach(handle, offset)
}

/// Reclaims the payload at the default slot of `handle` and leaves the slot
/// empty. An empty slot stays empty.
pub fn free_handle_data<T>(sys: &mut WindowSystem<T>, handle: Handle)
    requires
        old(sys).wf(),
    ensures
        final(sys).wf(),
        final(sys)@ == old(sys)@.detach(handle, 0),
        final(sys)@.data(handle, 0) is None,
{
    free_handle_data_off(sys, handle, 0)
}

/// Reclaims the payload at the slot `offset` of `handle` and leaves the
/// slot empty. An empty slot stays empty.
pub fn free_handle_data_off<T>(sys: &mut WindowSystem<T>, handle: Handle, offset: usize)
    requires
        old(sys).wf(),
    ensures
        final(sys).wf(),
        final(sys)@ == old(sys)@.detach(handle, offset),
        final(sys)@.data(handle, offset) is None,
{
    let _ = take_handle_data_off(sys, handle, offset);
}

/// What was attached to a slot of a live window is what the slot holds, the
/// other slots of the window hold what they held, and a slot that was
/// emptied holds nothing.
pub proof fn lemma_attach_then_read<T>(
    s: SystemState<T>,
    h: Handle,
    slot: usize,
    payload: Payload<T>,
)
    requires
        s.alive(h),
    ensures
        s.attach(h, slot, payload).data(h, slot) == Some(payload),
        forall|other: usize|
            other != slot ==> #[trigger] s.attach(h, slot, payload).data(h, other) == s.data(
                h,
                other,
            ),
        s.attach(h, slot, payload).detach(h, slot).data(h, slot) is None,
{
}

/// A slot that was emptied holds nothing, on every window and whatever the
/// slot held, and the other slots of the window hold what they held.
pub proof fn lemma_detach_then_read<T>(s: SystemState<T>, h: Handle, slot: usize)
    ensures
        s.detach(h, slot).data(h, slot) is None,
        forall|other: usize|
            other != slot ==> #[trigger] s.detach(h, slot).data(h, other) == s.data(h, other),
{
}

/// A payload that was taken out of a slot and stored there again is where
/// it was: the table is as before.
pub proof fn lemma_take_then_store<T>(s: SystemState<T>, h: Handle, slot: usize)
    requires
        s.data(h, slot) is Some,
    ensures
        s.detach(h, slot).attach(h, slot, s.data(h, slot)->Some_0) == s,
{
    let p = s.data(h, slot)->Some_0;
    let t = s.detach(h, slot).attach(h, slot, p);
    assert(t.window(h).slots =~= s.window(h).slots);
    assert(t.windows =~= s.windows);
}

/// A payload that is written back as it was read leaves the table as it
/// was.
pub proof fn lemma_write_back<T>(s: SystemState<T>, h: Handle, slot: usize)
    requires
        s.data(h, slot) is Some,
    ensures
        s.attach(h, slot, s.data(h, slot)->Some_0) == s,
{
    let p = s.data(h, slot)->Some_0;
    let t = s.attach(h, slot, p);
    assert(t.window(h).slots =~= s.window(h).slots);
    assert(t.windows =~= s.windows);
}

} // verus!
