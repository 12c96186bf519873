use nwg_base::style::{
    needs_size_fix, window_style, WS_CAPTION, WS_CHILD, WS_CLIPCHILDREN, WS_CLIPSIBLINGS,
    WS_DECORATIONS, WS_DISABLED, WS_EX_COMPOSITED, WS_FIXEDWINDOW, WS_MAXIMIZE, WS_MAXIMIZEBOX,
    WS_MINIMIZE, WS_MINIMIZEBOX, WS_OVERLAPPED, WS_OVERLAPPEDWINDOW, WS_SYSMENU, WS_THICKFRAME,
    WS_VISIBLE,
};

#[test]
fn style_bits_have_their_platform_values() {
    assert_eq!(WS_OVERLAPPED, 0x0000_0000);
    assert_eq!(WS_CHILD, 0x4000_0000);
    assert_eq!(WS_MINIMIZE, 0x2000_0000);
    assert_eq!(WS_VISIBLE, 0x1000_0000);
    assert_eq!(WS_DISABLED, 0x0800_0000);
    assert_eq!(WS_CLIPSIBLINGS, 0x0400_0000);
    assert_eq!(WS_CLIPCHILDREN, 0x0200_0000);
    assert_eq!(WS_MAXIMIZE, 0x0100_0000);
    assert_eq!(WS_CAPTION, 0x00C0_0000);
    assert_eq!(WS_SYSMENU, 0x0008_0000);
    assert_eq!(WS_THICKFRAME, 0x0004_0000);
    assert_eq!(WS_MINIMIZEBOX, 0x0002_0000);
    assert_eq!(WS_MAXIMIZEBOX, 0x0001_0000);
    assert_eq!(WS_EX_COMPOSITED, 0x0200_0000);
}

#[test]
fn decoration_sets_are_made_of_the_single_bits() {
    assert_eq!(
        WS_OVERLAPPEDWINDOW,
        WS_OVERLAPPED | WS_CAPTION | WS_SYSMENU | WS_THICKFRAME | WS_MINIMIZEBOX | WS_MAXIMIZEBOX
    );
    assert_eq!(
        WS_FIXEDWINDOW,
        WS_OVERLAPPED | WS_CAPTION | WS_SYSMENU | WS_MINIMIZEBOX | WS_MAXIMIZEBOX
    );
    assert_eq!(WS_DECORATIONS, WS_OVERLAPPEDWINDOW);
    assert_eq!(WS_FIXEDWINDOW & WS_THICKFRAME, 0);
}

#[test]
fn resizable_top_level_style() {
    assert_eq!(window_style(true, false, true, 0), 0x10CF_0000);
    assert_eq!(window_style(false, false, true, 0), 0x00CF_0000);
}

#[test]
fn fixed_top_level_style() {
    assert_eq!(window_style(true, false, false, 0), 0x10CB_0000);
    assert_eq!(window_style(false, false, false, 0), 0x00CB_0000);
}

#[test]
fn fixed_top_level_style_is_captioned_and_no_child() {
    for extra in [0u32, WS_DISABLED, WS_CLIPCHILDREN | WS_MAXIMIZE, WS_THICKFRAME, 0x0000_FFFF] {
        for visible in [false, true] {
            let style = window_style(visible, false, false, extra);
            assert_eq!(style & WS_CHILD, 0);
            assert_eq!(style & WS_CAPTION, WS_CAPTION);
            assert_eq!(style & WS_SYSMENU, WS_SYSMENU);
        }
    }
}

#[test]
fn child_style_has_no_decoration_of_its_own() {
    assert_eq!(window_style(true, true, true, 0), 0x5000_0000);
    assert_eq!(window_style(true, true, false, 0), 0x5000_0000);
    assert_eq!(window_style(false, true, false, 0), 0x4000_0000);
}

#[test]
fn extra_style_bits_are_merged() {
    assert_eq!(window_style(false, true, false, WS_DISABLED), 0x4800_0000);
    assert_eq!(window_style(false, false, false, WS_VISIBLE), 0x10CB_0000);
    assert_eq!(window_style(true, false, true, WS_CLIPCHILDREN), 0x12CF_0000);
    assert_eq!(window_style(false, false, false, 0xFFFF_FFFF), 0xFFFF_FFFF);
}

#[test]
fn size_fix_is_for_resizable_top_level_windows() {
    assert!(needs_size_fix(window_style(true, false, true, 0)));
    assert!(needs_size_fix(window_style(false, false, true, WS_DISABLED)));
    assert!(!needs_size_fix(window_style(true, false, false, 0)));
    assert!(!needs_size_fix(window_style(true, true, true, 0)));
    assert!(needs_size_fix(window_style(true, false, false, WS_THICKFRAME)));
    assert!(!needs_size_fix(WS_CHILD | WS_OVERLAPPEDWINDOW));
    assert!(!needs_size_fix(0));
}
