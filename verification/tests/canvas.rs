use nwg_base::canvas::{
    CLASS_NAME, DISABLED, MAIN_WINDOW, MAXIMIZED, MAXIMIZE_BOX, MINIMIZED, MINIMIZE_BOX, NONE,
    RESIZABLE, SYS_MENU, VISIBLE, WINDOW,
};
use nwg_base::{
    ControlHandle, Event, ExternCanvas, ExternCanvasFlags, Handle, Icon, NwgError, WindowSystem,
};

fn system() -> WindowSystem<u8> {
    WindowSystem::new(16)
}

fn built(sys: &mut WindowSystem<u8>) -> ExternCanvas {
    let mut canvas = ExternCanvas::default();
    ExternCanvas::builder().build(sys, &mut canvas).unwrap();
    canvas
}

#[test]
fn canvas_flags_have_their_values() {
    assert_eq!(NONE, 0);
    assert_eq!(MAIN_WINDOW, 0x00CF_0000);
    assert_eq!(WINDOW, 0x00C8_0000);
    assert_eq!(MINIMIZE_BOX, 0x0002_0000);
    assert_eq!(MAXIMIZE_BOX, 0x0001_0000);
    assert_eq!(SYS_MENU, 0x0008_0000);
    assert_eq!(VISIBLE, 0x1000_0000);
    assert_eq!(DISABLED, 0x0800_0000);
    assert_eq!(MAXIMIZED, 0x0100_0000);
    assert_eq!(MINIMIZED, 0x2000_0000);
    assert_eq!(RESIZABLE, 0x0005_0000);
}

#[test]
fn canvas_flags_combine() {
    let flags = ExternCanvasFlags::from_bits(WINDOW).union(ExternCanvasFlags::from_bits(VISIBLE));
    assert_eq!(flags.bits(), 0x10C8_0000);
    assert!(flags.contains(ExternCanvasFlags::from_bits(SYS_MENU)));
    assert!(flags.contains(ExternCanvasFlags::from_bits(NONE)));
    assert!(!flags.contains(ExternCanvasFlags::from_bits(MAIN_WINDOW)));
    assert_eq!(flags, ExternCanvasFlags { bits: 0x10C8_0000 });
}

#[test]
fn new_canvas_is_blank() {
    let canvas = ExternCanvas::default();
    assert_eq!(canvas.handle, ControlHandle::NoHandle);
    assert!(canvas.handle.blank());
    assert_eq!(canvas.handle.hwnd(), None);
    assert_eq!(ControlHandle::default(), ControlHandle::NoHandle);
}

#[test]
fn class_name_and_flags_of_a_canvas() {
    let canvas = ExternCanvas::default();
    assert_eq!(canvas.class_name(), "NWG_EXTERN_CANVAS");
    assert_eq!(CLASS_NAME, "NWG_EXTERN_CANVAS");
    assert_eq!(canvas.flags(), 0x10CF_0000);
    assert_eq!(canvas.forced_flags(), 0x0600_0000);
}

#[test]
fn round_trip_of_the_builder_defaults() {
    let mut sys = system();
    let mut canvas = ExternCanvas::default();
    let r = ExternCanvas::builder()
        .size((500, 500))
        .position((300, 300))
        .title("New Canvas")
        .build(&mut sys, &mut canvas);
    assert_eq!(r, Ok(()));
    assert_eq!(canvas.size(&sys), (500, 500));
    assert_eq!(canvas.position(&sys), (300, 300));
    assert_eq!(canvas.text(&sys), "New Canvas");
}

#[test]
fn builder_defaults() {
    let mut sys = system();
    let canvas = built(&mut sys);
    assert_eq!(canvas.handle, ControlHandle::Hwnd(Handle { raw: 1 }));
    assert!(!canvas.handle.blank());
    assert_eq!(canvas.text(&sys), "New Canvas");
    assert_eq!(canvas.size(&sys), (500, 500));
    assert_eq!(canvas.position(&sys), (300, 300));
    assert_eq!(canvas.icon(&sys), None);
    assert!(canvas.visible(&sys));
    assert!(canvas.enabled(&sys));
    assert!(!canvas.focus(&sys));
    let h = Handle { raw: 1 };
    assert_eq!(sys.style(h), 0x16CF_0000);
    assert_eq!(sys.ex_style(h), 0);
    assert_eq!(sys.class(h), "NWG_EXTERN_CANVAS");
    assert_eq!(sys.parent_of(h), Handle::null());
    assert_eq!(sys.events(), &vec![Event::Created(h)]);
}

#[test]
fn builder_keeps_what_it_is_given() {
    let mut sys = system();
    let mut canvas = ExternCanvas::default();
    let icon = Icon { handle: 0xBEEF, owned: true };
    ExternCanvas::builder()
        .title("Scene")
        .size((640, 480))
        .position((-5, 12))
        .flags(ExternCanvasFlags::from_bits(WINDOW | DISABLED))
        .icon(Some(&icon))
        .build(&mut sys, &mut canvas)
        .unwrap();
    assert_eq!(canvas.text(&sys), "Scene");
    assert_eq!(canvas.size(&sys), (640, 480));
    assert_eq!(canvas.position(&sys), (-5, 12));
    assert_eq!(canvas.icon(&sys), Some(Icon { handle: 0xBEEF, owned: false }));
    assert!(!canvas.visible(&sys));
    assert!(!canvas.enabled(&sys));
    assert_eq!(sys.style(Handle { raw: 1 }), 0x0EC8_0000);
}

#[test]
fn canvas_is_asked_for_with_the_size_of_its_builder() {
    let canvas = ExternCanvas::default();
    for size in [(500, 500), (0, 0), (-1, 20), (i32::MAX, i32::MIN), (7, -7)] {
        let p = ExternCanvas::builder().size(size).params(&canvas).unwrap();
        assert_eq!(p.size, size);
    }
}

#[test]
fn window_has_no_negative_extent() {
    let mut sys = system();
    let mut canvas = ExternCanvas::default();
    ExternCanvas::builder().size((-1, 20)).build(&mut sys, &mut canvas).unwrap();
    assert_eq!(canvas.size(&sys), (0, 20));
    let mut other = ExternCanvas::default();
    ExternCanvas::builder().size((i32::MAX, i32::MIN)).build(&mut sys, &mut other).unwrap();
    assert_eq!(other.size(&sys), (i32::MAX as u32, 0));
}

#[test]
fn canvas_with_a_parent_is_a_child_without_decoration() {
    let mut sys = system();
    let top = built(&mut sys);
    let mut child = ExternCanvas::default();
    ExternCanvas::builder().parent(Some(top.handle)).build(&mut sys, &mut child).unwrap();
    let h = child.handle.hwnd().unwrap();
    assert_eq!(h, Handle { raw: 2 });
    assert_eq!(sys.parent_of(h), Handle { raw: 1 });
    assert_eq!(sys.style(h), 0x5600_0000);
    let mut flagged = ExternCanvas::default();
    ExternCanvas::builder()
        .flags(ExternCanvasFlags::from_bits(MAIN_WINDOW | MAXIMIZED))
        .parent(Some(top.handle))
        .build(&mut sys, &mut flagged)
        .unwrap();
    assert_eq!(sys.style(flagged.handle.hwnd().unwrap()), 0x4700_0000);
}

#[test]
fn blank_parent_is_unbound() {
    let mut sys = system();
    let blank = ExternCanvas::default();
    let mut canvas = ExternCanvas::default();
    let r = ExternCanvas::builder().parent(Some(blank.handle)).build(&mut sys, &mut canvas);
    assert_eq!(r, Err(NwgError::Unbound));
    assert!(canvas.handle.blank());
    assert_eq!(sys.window_count(), 0);
    assert!(sys.events().is_empty());
}

#[test]
fn refused_canvas_stays_blank() {
    let mut sys: WindowSystem<u8> = WindowSystem::new(1);
    let _first = built(&mut sys);
    let mut canvas = ExternCanvas::default();
    assert_eq!(
        ExternCanvas::builder().build(&mut sys, &mut canvas),
        Err(NwgError::CreationFailed)
    );
    assert!(canvas.handle.blank());
    assert_eq!(sys.window_count(), 1);
    // a parent that names no window
    let mut sys = system();
    let r = ExternCanvas::builder()
        .parent(Some(ControlHandle::Hwnd(Handle { raw: 9 })))
        .build(&mut sys, &mut canvas);
    assert_eq!(r, Err(NwgError::CreationFailed));
    let r = ExternCanvas::builder()
        .parent(Some(ControlHandle::Hwnd(Handle::null())))
        .build(&mut sys, &mut canvas);
    assert_eq!(r, Err(NwgError::CreationFailed));
    assert!(canvas.handle.blank());
}

#[test]
fn setters_then_getters() {
    let mut sys = system();
    let canvas = built(&mut sys);
    canvas.set_text(&mut sys, "Other");
    canvas.set_size(&mut sys, 1, 2);
    canvas.set_position(&mut sys, -3, 4);
    canvas.set_visible(&mut sys, false);
    canvas.set_enabled(&mut sys, false);
    assert_eq!(canvas.text(&sys), "Other");
    assert_eq!(canvas.size(&sys), (1, 2));
    assert_eq!(canvas.position(&sys), (-3, 4));
    assert!(!canvas.visible(&sys));
    assert!(!canvas.enabled(&sys));
    canvas.set_visible(&mut sys, true);
    canvas.set_enabled(&mut sys, true);
    assert!(canvas.visible(&sys));
    assert!(canvas.enabled(&sys));
}

#[test]
fn icon_is_set_and_removed() {
    let mut sys = system();
    let canvas = built(&mut sys);
    let icon = Icon { handle: 5, owned: true };
    canvas.set_icon(&mut sys, Some(&icon));
    assert_eq!(canvas.icon(&sys), Some(Icon { handle: 5, owned: false }));
    canvas.set_icon(&mut sys, None);
    assert_eq!(canvas.icon(&sys), None);
}

#[test]
fn focus_is_on_one_window() {
    let mut sys = system();
    let a = built(&mut sys);
    let b = built(&mut sys);
    a.set_focus(&mut sys);
    assert!(a.focus(&sys));
    assert!(!b.focus(&sys));
    b.set_focus(&mut sys);
    assert!(!a.focus(&sys));
    assert!(b.focus(&sys));
}

#[test]
fn invalidate_requests_a_redraw() {
    let mut sys = system();
    let canvas = built(&mut sys);
    canvas.invalidate(&mut sys);
    canvas.invalidate(&mut sys);
    let h = Handle { raw: 1 };
    assert_eq!(sys.events(), &vec![Event::Created(h), Event::Redraw(h), Event::Redraw(h)]);
}

#[test]
fn canvas_bound_to_a_window_that_is_gone() {
    let mut sys = system();
    let canvas = ExternCanvas { handle: ControlHandle::Hwnd(Handle { raw: 3 }) };
    assert_eq!(canvas.text(&sys), "");
    assert_eq!(canvas.size(&sys), (0, 0));
    assert_eq!(canvas.position(&sys), (0, 0));
    assert!(!canvas.visible(&sys));
    assert!(!canvas.enabled(&sys));
    assert!(!canvas.focus(&sys));
    assert_eq!(canvas.icon(&sys), None);
    canvas.set_text(&mut sys, "x");
    canvas.set_focus(&mut sys);
    canvas.invalidate(&mut sys);
    assert_eq!(canvas.text(&sys), "");
    assert!(sys.events().is_empty());
}

#[test]
fn params_of_a_canvas() {
    let canvas = ExternCanvas::default();
    let p = ExternCanvas::builder().params(&canvas).unwrap();
    assert_eq!(p.class, "NWG_EXTERN_CANVAS");
    assert_eq!(p.text, "New Canvas");
    assert_eq!(p.style, 0x16CF_0000);
    assert_eq!(p.ex_style, 0);
    assert_eq!(p.position, (300, 300));
    assert_eq!(p.size, (500, 500));
    assert_eq!(p.parent, Handle::null());
    let p = ExternCanvas::builder()
        .parent(Some(ControlHandle::Hwnd(Handle { raw: 4 })))
        .size((-7, 9))
        .params(&canvas)
        .unwrap();
    assert_eq!(p.style, 0x5600_0000);
    assert_eq!(p.parent, Handle { raw: 4 });
    assert_eq!(p.size, (-7, 9));
    let r = ExternCanvas::builder().parent(Some(ControlHandle::NoHandle)).params(&canvas);
    assert_eq!(r.err(), Some(NwgError::Unbound));
}
