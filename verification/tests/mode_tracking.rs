use soksak_sidecar_terminal_wezterm::modes::{
    check_wheel_route, native_modifiers, pointer_admission, pointer_event, pointer_output,
    pointer_reply, take_replies_since,
    wheel_events, InputModifiers, ModeEvent, ModeSnap, ModeTracker, NativeButton,
    NativeModifiers, NativeMouseKind, PointerButton, PointerInput, PointerPhase, WheelInput,
    WheelRoute,
};

fn tracker_after(events: &[ModeEvent]) -> ModeSnap {
    let mut t = ModeTracker::new();
    t.observe_all(events);
    t.modes()
}

#[test]
fn birth_state_shows_the_cursor_and_wraps_lines_only() {
    let m = ModeTracker::new().modes();
    assert!(m.show_cursor);
    assert!(m.line_wrap);
    assert!(!m.alternate_scroll);
    assert!(!m.mouse_reporting());
    assert!(!m.app_cursor && !m.app_keypad && !m.bracketed_paste && !m.insert);
}

#[test]
fn dec9_and_dec1001_are_distinct_from_dec1000() {
    let x10 = tracker_after(&[ModeEvent::SetDecPrivate(9)]);
    assert!(x10.mouse_x10);
    assert!(!x10.mouse_click, "DEC9 must not alias DEC1000");
    assert!(!x10.mouse_highlight, "DEC9 must not alias DEC1001");
    assert!(x10.mouse_reporting());
    assert!(x10.reports_pointer(PointerPhase::Down, PointerButton::Left));
    assert!(!x10.reports_pointer(PointerPhase::Up, PointerButton::Left));

    let highlight = tracker_after(&[
        ModeEvent::SetDecPrivate(9),
        ModeEvent::ResetDecPrivate(9),
        ModeEvent::SetDecPrivate(1001),
    ]);
    assert!(!highlight.mouse_x10, "DEC1001 must not alias DEC9");
    assert!(!highlight.mouse_click, "DEC1001 must not alias DEC1000");
    assert!(highlight.mouse_highlight);
    assert!(highlight.reports_pointer(PointerPhase::Down, PointerButton::Left));
    assert!(highlight.reports_pointer(PointerPhase::Up, PointerButton::Left));
    assert!(!highlight.reports_pointer(PointerPhase::Move, PointerButton::Left));

    let normal = tracker_after(&[
        ModeEvent::SetDecPrivate(1001),
        ModeEvent::ResetDecPrivate(1001),
        ModeEvent::SetDecPrivate(1000),
    ]);
    assert!(!normal.mouse_x10, "DEC1000 must not alias DEC9");
    assert!(normal.mouse_click);
    assert!(!normal.mouse_highlight, "DEC1000 must not alias DEC1001");
}

#[test]
fn private_ansi_and_keypad_modes_are_tracked_and_ris_restores_birth() {
    let m = tracker_after(&[
        ModeEvent::SetDecPrivate(1),
        ModeEvent::SetDecPrivate(2004),
        ModeEvent::SetDecPrivate(1007),
        ModeEvent::SetDecPrivate(1004),
        ModeEvent::SetDecPrivate(1005),
        ModeEvent::SetDecPrivate(1006),
        ModeEvent::ResetDecPrivate(25),
        ModeEvent::ResetDecPrivate(7),
        ModeEvent::SetMode(4),
        ModeEvent::KeypadApplication,
        ModeEvent::SetDecPrivate(1049),
        ModeEvent::SetMode(20),
        ModeEvent::Other,
    ]);
    assert!(m.app_cursor && m.bracketed_paste && m.alternate_scroll && m.focus_in_out);
    assert!(m.utf8_mouse && m.sgr_mouse && m.insert && m.app_keypad);
    assert!(!m.show_cursor && !m.line_wrap);
    let mut t = ModeTracker::new();
    t.observe(ModeEvent::SetDecPrivate(1003));
    t.observe(ModeEvent::KeypadApplication);
    t.observe(ModeEvent::FullReset);
    assert_eq!(t.modes(), ModeTracker::new().modes());
    t.observe(ModeEvent::KeypadApplication);
    t.observe(ModeEvent::KeypadNormal);
    t.observe(ModeEvent::ResetMode(4));
    assert_eq!(t.modes(), ModeTracker::new().modes());
}

#[test]
fn split_observation_matches_one_pass() {
    let events = [
        ModeEvent::SetDecPrivate(1049),
        ModeEvent::SetDecPrivate(2004),
        ModeEvent::ResetDecPrivate(25),
        ModeEvent::SetDecPrivate(1002),
    ];
    let whole = tracker_after(&events);
    for cut in 0..=events.len() {
        let mut t = ModeTracker::new();
        t.observe_all(&events[..cut]);
        t.observe_all(&events[cut..]);
        assert_eq!(t.modes(), whole, "split at {cut}");
    }
}

fn pointer(phase: PointerPhase, button: PointerButton, modifiers: InputModifiers) -> PointerInput {
    PointerInput {
        row: 2,
        col: 1,
        phase,
        button,
        click_count: if phase == PointerPhase::Move { 0 } else { 1 },
        modifiers,
    }
}

#[test]
fn pointer_admission_follows_the_live_mouse_protocol() {
    let all = InputModifiers { shift: true, alt: true, control: true, meta: true };
    let x10 = tracker_after(&[ModeEvent::SetDecPrivate(9)]);
    let down = pointer_admission(&x10, &pointer(PointerPhase::Down, PointerButton::Left, all)).unwrap();
    assert_eq!(down.kind, NativeMouseKind::Press);
    assert_eq!((down.x, down.y), (1, 2));
    assert_eq!(down.button, NativeButton::Left);
    assert_eq!(down.modifiers, NativeModifiers { shift: true, alt: true, ctrl: true });
    assert_eq!(
        pointer_admission(&x10, &pointer(PointerPhase::Up, PointerButton::Left, all)).unwrap_err(),
        "POINTER_MODE_CHANGED: pointer phase is not reported by live modes"
    );

    let drag = tracker_after(&[ModeEvent::SetDecPrivate(1002), ModeEvent::SetDecPrivate(1006)]);
    let none = InputModifiers::default();
    assert!(pointer_admission(&drag, &pointer(PointerPhase::Move, PointerButton::Left, none)).is_ok());
    assert!(pointer_admission(&drag, &pointer(PointerPhase::Move, PointerButton::NoButton, none)).is_err());
    let any = tracker_after(&[ModeEvent::SetDecPrivate(1003)]);
    let free = pointer_admission(&any, &pointer(PointerPhase::Move, PointerButton::NoButton, none)).unwrap();
    assert_eq!((free.kind, free.button), (NativeMouseKind::Move, NativeButton::NoButton));
    let up = pointer_event(pointer(PointerPhase::Up, PointerButton::Right, none));
    assert_eq!((up.kind, up.button), (NativeMouseKind::Release, NativeButton::Right));
}

#[test]
fn an_encoder_that_writes_nothing_did_not_report_the_phase() {
    assert_eq!(pointer_output(b"\x1b[<0;2;3M".to_vec()).unwrap(), b"\x1b[<0;2;3M".to_vec());
    assert_eq!(
        pointer_output(Vec::new()).unwrap_err(),
        "WEZTERM_POINTER_MODE_CHANGED: pointer phase is not reported"
    );
}

#[test]
fn meta_travels_as_alt() {
    let m = native_modifiers(InputModifiers { shift: false, alt: false, control: false, meta: true });
    assert_eq!(m, NativeModifiers { shift: false, alt: true, ctrl: false });
}

fn wheel(horizontal: i32, vertical: i32, route: WheelRoute) -> WheelInput {
    WheelInput { row: 2, col: 1, horizontal, vertical, modifiers: InputModifiers::default(), route }
}

#[test]
fn wheel_steps_become_one_native_event_each_vertical_first() {
    let mouse = tracker_after(&[ModeEvent::SetDecPrivate(1000), ModeEvent::SetDecPrivate(1006)]);
    let evs = wheel_events(&mouse, false, &wheel(-2, -2, WheelRoute::MouseReport)).unwrap();
    let buttons: Vec<NativeButton> = evs.iter().map(|e| e.button).collect();
    assert_eq!(
        buttons,
        vec![NativeButton::WheelUp, NativeButton::WheelUp, NativeButton::WheelLeft, NativeButton::WheelLeft]
    );
    assert!(evs.iter().all(|e| e.kind == NativeMouseKind::Press && e.x == 1 && e.y == 2));
    let evs = wheel_events(&mouse, false, &wheel(1, 1, WheelRoute::MouseReport)).unwrap();
    let buttons: Vec<NativeButton> = evs.iter().map(|e| e.button).collect();
    assert_eq!(buttons, vec![NativeButton::WheelDown, NativeButton::WheelRight]);

    let alt = tracker_after(&[ModeEvent::SetDecPrivate(1049), ModeEvent::SetDecPrivate(1007)]);
    let evs = wheel_events(&alt, true, &wheel(1, -2, WheelRoute::AlternateScroll)).unwrap();
    let buttons: Vec<NativeButton> = evs.iter().map(|e| e.button).collect();
    assert_eq!(buttons, vec![NativeButton::WheelUp, NativeButton::WheelUp, NativeButton::WheelRight]);
    assert!(wheel_events(&alt, true, &wheel(0, 0, WheelRoute::AlternateScroll)).unwrap().is_empty());
}

#[test]
fn wheel_refuses_routes_selected_from_stale_modes() {
    let off = tracker_after(&[ModeEvent::SetDecPrivate(1000), ModeEvent::ResetDecPrivate(1000)]);
    let e = check_wheel_route(&off, false, WheelRoute::MouseReport).unwrap_err();
    assert!(e.starts_with("WHEEL_MODE_CHANGED:"), "{e}");

    let no_1007 = tracker_after(&[ModeEvent::SetDecPrivate(1007), ModeEvent::ResetDecPrivate(1007)]);
    let e = check_wheel_route(&no_1007, true, WheelRoute::AlternateScroll).unwrap_err();
    assert!(e.starts_with("WHEEL_MODE_CHANGED:"), "{e}");

    let superseded = tracker_after(&[ModeEvent::SetDecPrivate(1007), ModeEvent::SetDecPrivate(1000)]);
    let e = wheel_events(&superseded, true, &wheel(0, -1, WheelRoute::AlternateScroll)).unwrap_err();
    assert!(e.starts_with("WHEEL_MODE_CHANGED:"), "{e}");

    let primary = tracker_after(&[ModeEvent::SetDecPrivate(1007)]);
    assert!(check_wheel_route(&primary, false, WheelRoute::AlternateScroll).is_err());
    assert!(check_wheel_route(&primary, true, WheelRoute::AlternateScroll).is_ok());
}

#[test]
fn a_pointer_reply_leaves_the_captured_replies_as_they_were() {
    let mut log: Vec<Vec<u8>> = vec![b"\x1b[0n".to_vec()];
    let start = log.len();
    log.push(b"\x1b[<0;".to_vec());
    log.push(b"3;2M".to_vec());
    assert_eq!(pointer_reply(&mut log, start), Ok(b"\x1b[<0;3;2M".to_vec()));
    assert_eq!(log, vec![b"\x1b[0n".to_vec()]);
    assert_eq!(
        pointer_reply(&mut log, 1),
        Err("WEZTERM_POINTER_MODE_CHANGED: pointer phase is not reported".to_string())
    );
    assert_eq!(log, vec![b"\x1b[0n".to_vec()]);
}

#[test]
fn replies_taken_since_a_mark_are_joined_in_order() {
    let mut log: Vec<Vec<u8>> = vec![b"a".to_vec(), b"bc".to_vec(), b"".to_vec(), b"d".to_vec()];
    assert_eq!(take_replies_since(&mut log, 1), b"bcd".to_vec());
    assert_eq!(log, vec![b"a".to_vec()]);
    assert_eq!(take_replies_since(&mut log, 1), Vec::<u8>::new());
    assert_eq!(take_replies_since(&mut log, 0), b"a".to_vec());
    assert!(log.is_empty());
}
