//! Window style bits and the rules that combine them at creation time.

use vstd::prelude::*;

verus! {

/// Overlapped (top-level) window; the absence of any other window kind.
pub const WS_OVERLAPPED: u32 = 0x0000_0000;
/// Child window; it lives inside the client area of its parent.
pub const WS_CHILD: u32 = 0x4000_0000;
/// Created minimized.
pub const WS_MINIMIZE: u32 = 0x2000_0000;
/// Shown right away.
pub const WS_VISIBLE: u32 = 0x1000_0000;
/// Created disabled: the user cannot interact with it.
pub const WS_DISABLED: u32 = 0x0800_0000;
/// Siblings are clipped against each other when painting.
pub const WS_CLIPSIBLINGS: u32 = 0x0400_0000;
/// The area of the children is left out when the parent paints.
pub const WS_CLIPCHILDREN: u32 = 0x0200_0000;
/// Created maximized.
pub const WS_MAXIMIZE: u32 = 0x0100_0000;
/// Title bar (includes the border).
pub const WS_CAPTION: u32 = 0x00C0_0000;
/// System menu on the title bar.
pub const WS_SYSMENU: u32 = 0x0008_0000;
/// Sizing border.
pub const WS_THICKFRAME: u32 = 0x0004_0000;
/// Minimize button.
pub const WS_MINIMIZEBOX: u32 = 0x0002_0000;
/// Maximize button.
pub const WS_MAXIMIZEBOX: u32 = 0x0001_0000;
/// Every decoration of a resizable top-level window: caption, system menu,
/// sizing border, minimize and maximize buttons.
pub const WS_OVERLAPPEDWINDOW: u32 = 0x00CF_0000;
/// The decorations of a top-level window of fixed size: caption, system
/// menu, minimize and maximize buttons, and no sizing border.
pub const WS_FIXEDWINDOW: u32 = 0x00CB_0000;
/// The decoration bits that only make sense on a top-level window.
pub const WS_DECORATIONS: u32 = 0x00CF_0000;
/// Extended style: the window and its descendants are painted bottom-up
/// with double buffering.
pub const WS_EX_COMPOSITED: u32 = 0x0200_0000;

/// `style` holds every bit of `bits`.
pub open spec fn has_bits(style: u32, bits: u32) -> bool {
    style & bits == bits
}

/// `style` holds no bit of `bits`.
pub open spec fn lacks_bits(style: u32, bits: u32) -> bool {
    style & bits == 0
}

/// The bits that the kind of window contributes: the child bit for a window
/// with a parent, else one of the two top-level decoration sets.
pub open spec fn kind_bits(has_parent: bool, resizable: bool) -> u32 {
    if has_parent {
        WS_CHILD
    } else if resizable {
        WS_OVERLAPPEDWINDOW
    } else {
        WS_FIXEDWINDOW
    }
}

/// The style of a new window: visibility, the bits of its kind, and the
/// caller's extra bits, merged.
pub open spec fn window_style_spec(
    visible: bool,
    has_parent: bool,
    resizable: bool,
    extra_style: u32,
) -> u32 {
    (if visible { WS_VISIBLE } else { 0u32 }) | kind_bits(has_parent, resizable) | extra_style
}

/// Computes the style of a new window.
pub fn window_style(visible: bool, has_parent: bool, resizable: bool, extra_style: u32) -> (style:
    u32)
    ensures
        style == window_style_spec(visible, has_parent, resizable, extra_style),
{
    let shown: u32 = if visible {
        WS_VISIBLE
    } else {
        0
    };
    let kind: u32 = if has_parent {
        WS_CHILD
    } else if resizable {
        WS_OVERLAPPEDWINDOW
    } else {
        WS_FIXEDWINDOW
    };
    shown | kind | extra_style
}

/// A style calls for the compensating resize after creation when it
/// describes a resizable top-level window: no child bit, and the whole
/// resizable decoration set.
pub open spec fn needs_size_fix_spec(style: u32) -> bool {
    lacks_bits(style, WS_CHILD) && has_bits(style, WS_OVERLAPPEDWINDOW)
}

/// Tells whether a window created with `style` needs the compensating
/// resize.
pub fn needs_size_fix(style: u32) -> (fix: bool)
    ensures
        fix == needs_size_fix_spec(style),
{
    style & WS_CHILD == 0 && style & WS_OVERLAPPEDWINDOW == WS_OVERLAPPEDWINDOW
}

/// The two top-level decoration sets are made of the single decoration
/// bits: the resizable set is caption, system menu, sizing border and both
/// buttons; the fixed set is the same without the sizing border.
pub proof fn lemma_decoration_sets()
    ensures
        WS_OVERLAPPEDWINDOW == WS_OVERLAPPED | WS_CAPTION | WS_SYSMENU | WS_THICKFRAME
            | WS_MINIMIZEBOX | WS_MAXIMIZEBOX,
        WS_FIXEDWINDOW == WS_OVERLAPPED | WS_CAPTION | WS_SYSMENU | WS_MINIMIZEBOX
            | WS_MAXIMIZEBOX,
        WS_FIXEDWINDOW == WS_OVERLAPPEDWINDOW & !WS_THICKFRAME,
        WS_DECORATIONS == WS_OVERLAPPEDWINDOW,
{
    assert(0x00CF_0000u32 == 0u32 | 0x00C0_0000u32 | 0x0008_0000u32 | 0x0004_0000u32
        | 0x0002_0000u32 | 0x0001_0000u32) by (bit_vector);
    assert(0x00CB_0000u32 == 0u32 | 0x00C0_0000u32 | 0x0008_0000u32 | 0x0002_0000u32
        | 0x0001_0000u32) by (bit_vector);
    assert(0x00CB_0000u32 == 0x00CF_0000u32 & !0x0004_0000u32) by (bit_vector);
}

/// A top-level window of fixed size is captioned and has a system menu, and
/// it is no child, whatever its visibility, as long as the caller's extra
/// bits do not themselves ask for a child window.
pub proof fn lemma_fixed_top_level_style(visible: bool, extra_style: u32)
    requires
        lacks_bits(extra_style, WS_CHILD),
    ensures
        lacks_bits(window_style_spec(visible, false, false, extra_style), WS_CHILD),
        has_bits(window_style_spec(visible, false, false, extra_style), WS_CAPTION),
        has_bits(window_style_spec(visible, false, false, extra_style), WS_SYSMENU),
        has_bits(window_style_spec(visible, false, false, extra_style), WS_FIXEDWINDOW),
{
    let shown: u32 = if visible { WS_VISIBLE } else { 0u32 };
    let style = shown | WS_FIXEDWINDOW | extra_style;
    assert(style & 0x4000_0000u32 == 0 && style & 0x00C0_0000u32 == 0x00C0_0000u32 && style
        & 0x0008_0000u32 == 0x0008_0000u32 && style & 0x00CB_0000u32 == 0x00CB_0000u32)
        by (bit_vector)
        requires
            style == shown | 0x00CB_0000u32 | extra_style,
            shown == 0x1000_0000u32 || shown == 0u32,
            extra_style & 0x4000_0000u32 == 0,
    ;
}

/// A window with a parent always carries the child bit, and gets no
/// decoration beyond what the caller's extra bits hold.
pub proof fn lemma_child_style(visible: bool, resizable: bool, extra_style: u32)
    ensures
        has_bits(window_style_spec(visible, true, resizable, extra_style), WS_CHILD),
        window_style_spec(visible, true, resizable, extra_style) & WS_DECORATIONS == extra_style
            & WS_DECORATIONS,
{
    let shown: u32 = if visible { WS_VISIBLE } else { 0u32 };
    let style = shown | WS_CHILD | extra_style;
    assert(style & 0x4000_0000u32 == 0x4000_0000u32 && style & 0x00CF_0000u32 == extra_style
        & 0x00CF_0000u32) by (bit_vector)
        requires
            style == shown | 0x4000_0000u32 | extra_style,
            shown == 0x1000_0000u32 || shown == 0u32,
    ;
}

/// A resizable top-level window carries the whole resizable decoration set,
/// so it gets the compensating resize unless the extra bits make it a child.
pub proof fn lemma_resizable_top_level_style(visible: bool, extra_style: u32)
    ensures
        has_bits(window_style_spec(visible, false, true, extra_style), WS_OVERLAPPEDWINDOW),
        lacks_bits(extra_style, WS_CHILD) ==> needs_size_fix_spec(
            window_style_spec(visible, false, true, extra_style),
        ),
{
    let shown: u32 = if visible { WS_VISIBLE } else { 0u32 };
    let style = shown | WS_OVERLAPPEDWINDOW | extra_style;
    assert(style & 0x00CF_0000u32 == 0x00CF_0000u32 && (extra_style & 0x4000_0000u32 == 0
        ==> style & 0x4000_0000u32 == 0)) by (bit_vector)
        requires
            style == shown | 0x00CF_0000u32 | extra_style,
            shown == 0x1000_0000u32 || shown == 0u32,
    ;
}

/// The visibility bit of a new window's style is set exactly when the
/// descriptor asks for a visible window or the extra bits hold it.
pub proof fn lemma_style_visibility(
    visible: bool,
    has_parent: bool,
    resizable: bool,
    extra_style: u32,
)
    ensures
        has_bits(window_style_spec(visible, has_parent, resizable, extra_style), WS_VISIBLE)
            <==> (visible || has_bits(extra_style, WS_VISIBLE)),
{
    let shown: u32 = if visible { WS_VISIBLE } else { 0u32 };
    let kind = kind_bits(has_parent, resizable);
    let style = shown | kind | extra_style;
    assert((style & 0x1000_0000u32 == 0x1000_0000u32) <==> (shown == 0x1000_0000u32
        || extra_style & 0x1000_0000u32 == 0x1000_0000u32)) by (bit_vector)
        requires
            style == shown | kind | extra_style,
            shown == 0x1000_0000u32 || shown == 0u32,
            kind == 0x4000_0000u32 || kind == 0x00CF_0000u32 || kind == 0x00CB_0000u32,
    ;
}

} // verus!
