use nwg_base::style::{
    WS_CAPTION, WS_CHILD, WS_DISABLED, WS_EX_COMPOSITED, WS_SYSMENU, WS_THICKFRAME,
};
use nwg_base::{
    base_params, create_base, free_handle, set_handle_data, Event, Handle, NwgError, Payload, Ui,
    WindowBase, WindowParams,
};

fn base(parent: Option<u64>, resizable: bool) -> WindowBase {
    WindowBase {
        text: "Title".to_string(),
        size: (640, 480),
        position: (10, -20),
        visible: true,
        resizable,
        extra_style: 0,
        class: "Frame".to_string(),
        parent,
    }
}

#[test]
fn first_window_gets_the_first_handle() {
    let mut ui: Ui<u8> = Ui::new(8);
    assert_eq!(ui.system.window_count(), 0);
    assert_eq!(ui.system.limit(), 8);
    let h = create_base(&mut ui, base(None, true)).unwrap();
    assert_eq!(h, Handle { raw: 1 });
    assert!(!h.is_null());
    assert_eq!(ui.system.window_count(), 1);
    assert!(ui.system.is_alive(h));
    assert_eq!(ui.system.parent_of(h), Handle::null());
    assert_eq!(ui.system.text(h), "Title");
    assert_eq!(ui.system.class(h), "Frame");
    assert_eq!(ui.system.size(h), (640, 480));
    assert_eq!(ui.system.position(h), (10, -20));
    assert_eq!(ui.system.style(h), 0x10CF_0000);
    assert_eq!(ui.system.ex_style(h), WS_EX_COMPOSITED);
    assert!(ui.system.visible(h));
    assert!(ui.system.enabled(h));
    assert_eq!(ui.system.icon(h), 0);
    assert_eq!(ui.controls.len(), 0);
}

#[test]
fn resizable_top_level_window_gets_the_size_fix() {
    let mut ui: Ui<u8> = Ui::new(8);
    let h = create_base(&mut ui, base(None, true)).unwrap();
    assert_eq!(
        ui.system.events(),
        &vec![Event::Created(h), Event::SizeFixed(h), Event::Subclassed(h)]
    );
}

#[test]
fn fixed_top_level_window_gets_no_size_fix() {
    let mut ui: Ui<u8> = Ui::new(8);
    let h = create_base(&mut ui, base(None, false)).unwrap();
    assert_eq!(ui.system.events(), &vec![Event::Created(h), Event::Subclassed(h)]);
    let style = ui.system.style(h);
    assert_eq!(style, 0x10CB_0000);
    assert_eq!(style & WS_CHILD, 0);
    assert_eq!(style & WS_CAPTION, WS_CAPTION);
    assert_eq!(style & WS_SYSMENU, WS_SYSMENU);
    assert_eq!(style & WS_THICKFRAME, 0);
}

#[test]
fn window_with_a_parent_is_a_child() {
    let mut ui: Ui<u8> = Ui::new(8);
    let top = create_base(&mut ui, base(None, true)).unwrap();
    ui.controls.insert(7, top);
    let child = create_base(&mut ui, base(Some(7), true)).unwrap();
    assert_eq!(child, Handle { raw: 2 });
    assert_eq!(ui.system.parent_of(child), top);
    assert_eq!(ui.system.style(child), 0x5000_0000);
    assert_eq!(
        ui.system.events(),
        &vec![
            Event::Created(top),
            Event::SizeFixed(top),
            Event::Subclassed(top),
            Event::Created(child),
            Event::Subclassed(child)
        ]
    );
}

#[test]
fn unknown_parent_fails_before_anything_is_created() {
    let mut ui: Ui<u8> = Ui::new(8);
    let top = create_base(&mut ui, base(None, false)).unwrap();
    ui.controls.insert(7, top);
    let events_before = ui.system.events().clone();
    assert_eq!(create_base(&mut ui, base(Some(8), false)), Err(NwgError::NotFound));
    assert_eq!(ui.system.window_count(), 1);
    assert_eq!(ui.system.events(), &events_before);
    assert_eq!(ui.controls.len(), 1);
}

#[test]
fn unknown_parent_in_an_empty_collection() {
    let mut ui: Ui<u8> = Ui::new(8);
    assert_eq!(create_base(&mut ui, base(Some(0), true)), Err(NwgError::NotFound));
    assert_eq!(ui.system.window_count(), 0);
    assert!(ui.system.events().is_empty());
}

#[test]
fn full_table_refuses_the_window() {
    let mut ui: Ui<u8> = Ui::new(2);
    assert!(create_base(&mut ui, base(None, false)).is_ok());
    assert!(create_base(&mut ui, base(None, false)).is_ok());
    let events_before = ui.system.events().clone();
    assert_eq!(create_base(&mut ui, base(None, false)), Err(NwgError::CreationFailed));
    assert_eq!(ui.system.window_count(), 2);
    assert_eq!(ui.system.events(), &events_before);
}

#[test]
fn table_without_room_refuses_every_window() {
    let mut ui: Ui<u8> = Ui::new(0);
    assert_eq!(create_base(&mut ui, base(None, true)), Err(NwgError::CreationFailed));
    assert_eq!(ui.system.window_count(), 0);
}

#[test]
fn destroyed_parent_refuses_the_window() {
    let mut ui: Ui<u8> = Ui::new(8);
    let top = create_base(&mut ui, base(None, false)).unwrap();
    ui.controls.insert(7, top);
    set_handle_data(&mut ui.system, top, Payload::Identity(7));
    free_handle(&mut ui.system, top);
    assert!(!ui.system.is_alive(top));
    assert_eq!(create_base(&mut ui, base(Some(7), false)), Err(NwgError::CreationFailed));
    assert_eq!(ui.system.window_count(), 1);
}

#[test]
fn parent_bound_to_the_null_handle_gives_a_top_level_window() {
    let mut ui: Ui<u8> = Ui::new(8);
    ui.controls.insert(7, Handle::null());
    let h = create_base(&mut ui, base(Some(7), false)).unwrap();
    assert_eq!(ui.system.parent_of(h), Handle::null());
    assert_eq!(ui.system.style(h), 0x10CB_0000);
}

#[test]
fn child_style_without_a_parent_is_refused() {
    let mut ui: Ui<u8> = Ui::new(8);
    let mut b = base(None, false);
    b.extra_style = WS_CHILD;
    assert_eq!(create_base(&mut ui, b), Err(NwgError::CreationFailed));
    assert_eq!(ui.system.window_count(), 0);
}

#[test]
fn extra_style_decides_visibility_and_enabled_state() {
    let mut ui: Ui<u8> = Ui::new(8);
    let mut b = base(None, false);
    b.visible = false;
    b.extra_style = WS_DISABLED;
    let h = create_base(&mut ui, b).unwrap();
    assert!(!ui.system.visible(h));
    assert!(!ui.system.enabled(h));
    assert_eq!(ui.system.style(h), 0x08CB_0000);
}

#[test]
fn handles_are_not_used_twice() {
    let mut ui: Ui<u8> = Ui::new(8);
    let a = create_base(&mut ui, base(None, false)).unwrap();
    set_handle_data(&mut ui.system, a, Payload::Identity(1));
    free_handle(&mut ui.system, a);
    let b = create_base(&mut ui, base(None, false)).unwrap();
    assert_eq!(a, Handle { raw: 1 });
    assert_eq!(b, Handle { raw: 2 });
    assert!(!ui.system.is_alive(a));
    assert!(ui.system.is_alive(b));
}

#[test]
fn taking_the_events_starts_the_record_anew() {
    let mut ui: Ui<u8> = Ui::new(8);
    let a = create_base(&mut ui, base(None, false)).unwrap();
    assert_eq!(ui.system.take_events(), vec![Event::Created(a), Event::Subclassed(a)]);
    assert!(ui.system.events().is_empty());
    assert!(ui.system.is_alive(a));
    assert_eq!(ui.system.text(a), "Title");
    let b = create_base(&mut ui, base(None, true)).unwrap();
    assert_eq!(
        ui.system.take_events(),
        vec![Event::Created(b), Event::SizeFixed(b), Event::Subclassed(b)]
    );
    assert_eq!(ui.system.take_events(), Vec::<Event>::new());
}

#[test]
fn window_that_does_not_exist_has_empty_attributes() {
    let mut ui: Ui<u8> = Ui::new(8);
    let a = create_base(&mut ui, base(None, false)).unwrap();
    let ghost = Handle { raw: 2 };
    assert!(!ui.system.is_alive(ghost));
    assert!(!ui.system.is_alive(Handle::null()));
    assert_eq!(ui.system.text(ghost), "");
    assert_eq!(ui.system.class(ghost), "");
    assert_eq!(ui.system.size(ghost), (0, 0));
    assert_eq!(ui.system.position(ghost), (0, 0));
    assert_eq!(ui.system.style(ghost), 0);
    assert_eq!(ui.system.ex_style(ghost), 0);
    assert_eq!(ui.system.icon(ghost), 0);
    assert_eq!(ui.system.parent_of(ghost), Handle::null());
    assert!(!ui.system.visible(ghost));
    assert!(!ui.system.enabled(ghost));
    assert!(!ui.system.has_focus(ghost));
    ui.system.set_text(ghost, "x");
    ui.system.set_size(ghost, (1, 1));
    ui.system.set_position(ghost, (1, 1));
    ui.system.set_visible(ghost, true);
    ui.system.set_enabled(ghost, true);
    ui.system.set_icon(ghost, 3);
    ui.system.set_focus(ghost);
    ui.system.request_redraw(ghost);
    assert_eq!(ui.system.window_count(), 1);
    assert_eq!(ui.system.text(a), "Title");
    assert_eq!(ui.system.events(), &vec![Event::Created(a), Event::Subclassed(a)]);
}

#[test]
fn params_of_a_base() {
    let mut ui: Ui<u8> = Ui::new(8);
    let top = create_base(&mut ui, base(None, true)).unwrap();
    ui.controls.insert(7, top);
    let p = base_params(&ui.controls, &base(None, false)).unwrap();
    assert_eq!(p.class, "Frame");
    assert_eq!(p.text, "Title");
    assert_eq!(p.style, 0x10CB_0000);
    assert_eq!(p.ex_style, WS_EX_COMPOSITED);
    assert_eq!(p.position, (10, -20));
    assert_eq!(p.size, (640, 480));
    assert_eq!(p.parent, Handle::null());
    let p = base_params(&ui.controls, &base(Some(7), true)).unwrap();
    assert_eq!(p.style, 0x5000_0000);
    assert_eq!(p.parent, top);
    assert_eq!(base_params(&ui.controls, &base(Some(8), true)).err(), Some(NwgError::NotFound));
    // nothing was created on the way
    assert_eq!(ui.system.window_count(), 1);
}

#[test]
fn table_tells_what_it_accepts() {
    let mut ui: Ui<u8> = Ui::new(2);
    assert!(ui.system.accepts(0, Handle::null()));
    assert!(!ui.system.accepts(WS_CHILD, Handle::null()));
    assert!(!ui.system.accepts(WS_CHILD, Handle { raw: 1 }));
    let top = create_base(&mut ui, base(None, true)).unwrap();
    assert!(ui.system.accepts(WS_CHILD, top));
    assert!(ui.system.accepts(0, top));
    assert!(!ui.system.accepts(0, Handle { raw: 2 }));
    create_base(&mut ui, base(None, true)).unwrap();
    assert!(!ui.system.accepts(0, Handle::null()));
    assert!(!ui.system.accepts(WS_CHILD, top));
}

#[test]
fn create_window_from_params() {
    let mut ui: Ui<u8> = Ui::new(8);
    let h = ui.system.create_window(WindowParams {
        class: "K".to_string(),
        text: "T".to_string(),
        style: WS_DISABLED,
        ex_style: 5,
        position: (1, 2),
        size: (3, -4),
        parent: Handle::null(),
    });
    assert_eq!(h, Handle { raw: 1 });
    assert_eq!(ui.system.class(h), "K");
    assert_eq!(ui.system.text(h), "T");
    assert_eq!(ui.system.style(h), WS_DISABLED);
    assert_eq!(ui.system.ex_style(h), 5);
    assert_eq!(ui.system.position(h), (1, 2));
    assert_eq!(ui.system.size(h), (3, 0));
    assert_eq!(ui.system.events(), &vec![Event::Created(h)]);
    let refused = ui.system.create_window(WindowParams {
        class: String::new(),
        text: String::new(),
        style: 0,
        ex_style: 0,
        position: (0, 0),
        size: (0, 0),
        parent: Handle { raw: 9 },
    });
    assert!(refused.is_null());
    assert_eq!(ui.system.window_count(), 1);
}

#[test]
fn size_of_a_base_is_handed_on_as_the_window_system_takes_it() {
    let ui: Ui<u8> = Ui::new(8);
    let mut b = base(None, false);
    b.size = (0, 0x7FFF_FFFF);
    assert_eq!(base_params(&ui.controls, &b).unwrap().size, (0, i32::MAX));
    b.size = (0x8000_0000, 0xFFFF_FFFF);
    assert_eq!(base_params(&ui.controls, &b).unwrap().size, (i32::MIN, -1));
    b.size = (0x8000_0001, 0xFFFF_FFFE);
    assert_eq!(base_params(&ui.controls, &b).unwrap().size, (i32::MIN + 1, -2));
}

#[test]
fn size_beyond_the_signed_range_gives_a_window_without_extent() {
    let mut ui: Ui<u8> = Ui::new(8);
    let mut b = base(None, false);
    b.size = (0xFFFF_FFFF, 480);
    let h = create_base(&mut ui, b).unwrap();
    assert_eq!(ui.system.size(h), (0, 480));
}
