//! Terminal mode tracking and the mouse / wheel routing rules.
//!
//! The engine keeps no public getter for most DEC private modes, so the mirror watches the
//! mode actions that the engine's own parser emits and keeps the contract's mode snapshot
//! from them ([`ModeTracker`]). The same snapshot decides whether a pointer phase is
//! reported and whether a wheel route chosen earlier still matches the live modes.
use vstd::prelude::*;
use crate::text::owned;

verus! {

/// The contract's mode snapshot.
#[derive(Debug, Clone, Copy, PartialEq, Eq, Structural)]
pub struct ModeSnap {
    pub bracketed_paste: bool,
    pub app_cursor: bool,
    pub app_keypad: bool,
    pub mouse_x10: bool,
    pub mouse_click: bool,
    pub mouse_highlight: bool,
    pub mouse_drag: bool,
    pub mouse_motion: bool,
    pub sgr_mouse: bool,
    pub utf8_mouse: bool,
    pub focus_in_out: bool,
    pub alternate_scroll: bool,
    pub show_cursor: bool,
    pub line_wrap: bool,
    pub insert: bool,
}

/// The contract's birth state: only cursor visibility (DECTCEM) and auto-wrap (DECAWM)
/// start set; alternate scroll (1007) starts off, as xterm's resource default.
pub open spec fn birth_modes() -> ModeSnap {
    ModeSnap {
        bracketed_paste: false,
        app_cursor: false,
        app_keypad: false,
        mouse_x10: false,
        mouse_click: false,
        mouse_highlight: false,
        mouse_drag: false,
        mouse_motion: false,
        sgr_mouse: false,
        utf8_mouse: false,
        focus_in_out: false,
        alternate_scroll: false,
        show_cursor: true,
        line_wrap: true,
        insert: false,
    }
}

/// A mode action the parser emitted, reduced to what the snapshot reads.
#[derive(Debug, Clone, Copy, PartialEq, Eq, Structural)]
pub enum ModeEvent {
    /// DECSET with the private mode's number.
    SetDecPrivate(u16),
    /// DECRST with the private mode's number.
    ResetDecPrivate(u16),
    /// SM with the ANSI mode's number.
    SetMode(u16),
    /// RM with the ANSI mode's number.
    ResetMode(u16),
    /// DECKPAM.
    KeypadApplication,
    /// DECKPNM.
    KeypadNormal,
    /// RIS.
    FullReset,
    /// Anything else (queries, save/restore, text, other controls).
    Other,
}

/// The snapshot flag a DEC private mode number drives, if any.
pub open spec fn dec_flag(m: ModeSnap, code: u16) -> Option<bool> {
    if code == 1 {
        Some(m.app_cursor)
    } else if code == 7 {
        Some(m.line_wrap)
    } else if code == 25 {
        Some(m.show_cursor)
    } else if code == 9 {
        Some(m.mouse_x10)
    } else if code == 1000 {
        Some(m.mouse_click)
    } else if code == 1001 {
        Some(m.mouse_highlight)
    } else if code == 1002 {
        Some(m.mouse_drag)
    } else if code == 1003 {
        Some(m.mouse_motion)
    } else if code == 1004 {
        Some(m.focus_in_out)
    } else if code == 1005 {
        Some(m.utf8_mouse)
    } else if code == 1006 {
        Some(m.sgr_mouse)
    } else if code == 1007 {
        Some(m.alternate_scroll)
    } else if code == 2004 {
        Some(m.bracketed_paste)
    } else {
        None
    }
}

/// The snapshot after DECSET (`set`) or DECRST (`!set`) of a private mode: only the flag
/// that the mode number drives changes.
#[verifier::opaque]
pub open spec fn with_dec_mode(m: ModeSnap, code: u16, set: bool) -> ModeSnap {
    ModeSnap {
        app_cursor: if code == 1 { set } else { m.app_cursor },
        line_wrap: if code == 7 { set } else { m.line_wrap },
        show_cursor: if code == 25 { set } else { m.show_cursor },
        mouse_x10: if code == 9 { set } else { m.mouse_x10 },
        mouse_click: if code == 1000 { set } else { m.mouse_click },
        mouse_highlight: if code == 1001 { set } else { m.mouse_highlight },
        mouse_drag: if code == 1002 { set } else { m.mouse_drag },
        mouse_motion: if code == 1003 { set } else { m.mouse_motion },
        focus_in_out: if code == 1004 { set } else { m.focus_in_out },
        utf8_mouse: if code == 1005 { set } else { m.utf8_mouse },
        sgr_mouse: if code == 1006 { set } else { m.sgr_mouse },
        alternate_scroll: if code == 1007 { set } else { m.alternate_scroll },
        bracketed_paste: if code == 2004 { set } else { m.bracketed_paste },
        ..m
    }
}

/// The ANSI mode number of IRM (insert/replace).
pub const INSERT_MODE: u16 = 4;

/// The snapshot after SM (`set`) or RM (`!set`) of an ANSI mode: only IRM is tracked.
#[verifier::opaque]
pub open spec fn with_terminal_mode(m: ModeSnap, code: u16, set: bool) -> ModeSnap {
    if code == INSERT_MODE { ModeSnap { insert: set, ..m } } else { m }
}

/// The snapshot after DECKPAM (`set`) or DECKPNM (`!set`).
#[verifier::opaque]
pub open spec fn with_keypad(m: ModeSnap, set: bool) -> ModeSnap {
    ModeSnap { app_keypad: set, ..m }
}

/// The snapshot after one parser action.
pub open spec fn apply_event(m: ModeSnap, ev: ModeEvent) -> ModeSnap {
    match ev {
        ModeEvent::SetDecPrivate(code) => with_dec_mode(m, code, true),
        ModeEvent::ResetDecPrivate(code) => with_dec_mode(m, code, false),
        ModeEvent::SetMode(code) => with_terminal_mode(m, code, true),
        ModeEvent::ResetMode(code) => with_terminal_mode(m, code, false),
        ModeEvent::KeypadApplication => with_keypad(m, true),
        ModeEvent::KeypadNormal => with_keypad(m, false),
        ModeEvent::FullReset => birth_modes(),
        ModeEvent::Other => m,
    }
}

/// The snapshot after a sequence of parser actions, oldest first.
pub open spec fn apply_events(m: ModeSnap, evs: Seq<ModeEvent>) -> ModeSnap
    decreases evs.len(),
{
    if evs.len() == 0 {
        m
    } else {
        apply_event(apply_events(m, evs.drop_last()), evs.last())
    }
}

fn birth() -> (m: ModeSnap)
    ensures
        m == birth_modes(),
{
    ModeSnap {
        bracketed_paste: false,
        app_cursor: false,
        app_keypad: false,
        mouse_x10: false,
        mouse_click: false,
        mouse_highlight: false,
        mouse_drag: false,
        mouse_motion: false,
        sgr_mouse: false,
        utf8_mouse: false,
        focus_in_out: false,
        alternate_scroll: false,
        show_cursor: true,
        line_wrap: true,
        insert: false,
    }
}

fn dec_applied(m: ModeSnap, code: u16, set: bool) -> (r: ModeSnap)
    ensures
        r == with_dec_mode(m, code, set),
{
    reveal(with_dec_mode);
    ModeSnap {
        app_cursor: if code == 1 { set } else { m.app_cursor },
        line_wrap: if code == 7 { set } else { m.line_wrap },
        show_cursor: if code == 25 { set } else { m.show_cursor },
        mouse_x10: if code == 9 { set } else { m.mouse_x10 },
        mouse_click: if code == 1000 { set } else { m.mouse_click },
        mouse_highlight: if code == 1001 { set } else { m.mouse_highlight },
        mouse_drag: if code == 1002 { set } else { m.mouse_drag },
        mouse_motion: if code == 1003 { set } else { m.mouse_motion },
        focus_in_out: if code == 1004 { set } else { m.focus_in_out },
        utf8_mouse: if code == 1005 { set } else { m.utf8_mouse },
        sgr_mouse: if code == 1006 { set } else { m.sgr_mouse },
        alternate_scroll: if code == 1007 { set } else { m.alternate_scroll },
        bracketed_paste: if code == 2004 { set } else { m.bracketed_paste },
        ..m
    }
}

fn keypad_applied(m: ModeSnap, set: bool) -> (r: ModeSnap)
    ensures
        r == with_keypad(m, set),
{
    reveal(with_keypad);
    ModeSnap { app_keypad: set, ..m }
}

fn terminal_mode_applied(m: ModeSnap, code: u16, set: bool) -> (r: ModeSnap)
    ensures
        r == with_terminal_mode(m, code, set),
{
    reveal(with_terminal_mode);
    if code == INSERT_MODE {
        ModeSnap { insert: set, ..m }
    } else {
        m
    }
}

fn applied(m: ModeSnap, ev: ModeEvent) -> (r: ModeSnap)
    ensures
        r == apply_event(m, ev),
{
    match ev {
        ModeEvent::SetDecPrivate(code) => dec_applied(m, code, true),
        ModeEvent::ResetDecPrivate(code) => dec_applied(m, code, false),
        ModeEvent::SetMode(code) => terminal_mode_applied(m, code, true),
        ModeEvent::ResetMode(code) => terminal_mode_applied(m, code, false),
        ModeEvent::KeypadApplication => keypad_applied(m, true),
        ModeEvent::KeypadNormal => keypad_applied(m, false),
        ModeEvent::FullReset => birth(),
        ModeEvent::Other => m,
    }
}

/// Rebuilds the mode snapshot from the parser's mode actions.
pub struct ModeTracker {
    snap: ModeSnap,
}

impl ModeTracker {
    pub closed spec fn snapshot(&self) -> ModeSnap {
        self.snap
    }

    /// A tracker in the contract's birth state.
    pub fn new() -> (t: ModeTracker)
        ensures
            t.snapshot() == birth_modes(),
    {
        ModeTracker { snap: birth() }
    }

    /// The current snapshot.
    pub fn modes(&self) -> (m: ModeSnap)
        ensures
            m == self.snapshot(),
    {
        self.snap
    }

    /// Applies one parser action.
    pub fn observe(&mut self, ev: ModeEvent)
        ensures
            final(self).snapshot() == apply_event(old(self).snapshot(), ev),
            ev == ModeEvent::SetMode(4) ==> final(self).snapshot() == (ModeSnap {
                insert: true,
                ..old(self).snapshot()
            }),
            ev == ModeEvent::ResetMode(4) ==> final(self).snapshot() == (ModeSnap {
                insert: false,
                ..old(self).snapshot()
            }),
    {
        self.snap = applied(self.snap, ev);
        proof {
            lemma_ansi_modes(old(self).snapshot(), 4);
        }
    }

    /// Applies a sequence of parser actions in order.
    pub fn observe_all(&mut self, evs: &[ModeEvent])
        ensures
            final(self).snapshot() == apply_events(old(self).snapshot(), evs@),
    {
        let mut i: usize = 0;
        while i < evs.len()
            invariant
                i <= evs@.len(),
                self.snapshot() == apply_events(old(self).snapshot(), evs@.subrange(0, i as int)),
            decreases evs@.len() - i,
        {
            self.observe(evs[i]);
            i = i + 1;
            assert(evs@.subrange(0, i as int).drop_last() =~= evs@.subrange(0, i - 1));
        }
        assert(evs@.subrange(0, evs@.len() as int) =~= evs@);
    }
}

/// RIS brings every tracked mode back to the contract's birth state, whatever came before.
pub proof fn lemma_full_reset_restores_birth(m: ModeSnap)
    ensures
        apply_event(m, ModeEvent::FullReset) == birth_modes(),
{
}

/// Where a stream is cut does not matter: observing the actions of two chunks one after
/// the other leaves the same snapshot as observing them all at once.
pub proof fn lemma_chunked_observation(m: ModeSnap, first: Seq<ModeEvent>, second: Seq<ModeEvent>)
    ensures
        apply_events(apply_events(m, first), second) == apply_events(m, first + second),
    decreases second.len(),
{
    if second.len() > 0 {
        lemma_chunked_observation(m, first, second.drop_last());
        assert((first + second).drop_last() =~= first + second.drop_last());
        assert((first + second).last() == second.last());
    } else {
        assert(first + second =~= first);
    }
}

/// DECSET/DECRST of one private mode drives its own flag and leaves every other flag as it
/// was: DEC9, DEC1000, DEC1001, DEC1002 and DEC1003 never alias each other.
pub proof fn lemma_dec_modes_do_not_alias(m: ModeSnap, code: u16, set: bool, other: u16)
    ensures
        dec_flag(m, code) is Some ==> dec_flag(with_dec_mode(m, code, set), code) == Some(set),
        other != code ==> dec_flag(with_dec_mode(m, code, set), other) == dec_flag(m, other),
        with_dec_mode(m, code, set).app_keypad == m.app_keypad,
        with_dec_mode(m, code, set).insert == m.insert,
        dec_flag(m, code) is None ==> with_dec_mode(m, code, set) == m,
{
    reveal(with_dec_mode);
}

/// The last DECSET/DECRST of a mode decides it: setting then resetting a tracked mode
/// leaves the snapshot as if only the reset had been seen.
pub proof fn lemma_last_dec_write_wins(m: ModeSnap, code: u16, first: bool, second: bool)
    ensures
        with_dec_mode(with_dec_mode(m, code, first), code, second) == with_dec_mode(m, code, second),
{
    reveal(with_dec_mode);
    let a = with_dec_mode(with_dec_mode(m, code, first), code, second);
    let b = with_dec_mode(m, code, second);
    assert(a.app_cursor == b.app_cursor);
    assert(a.mouse_click == b.mouse_click);
}

/// SM 4 turns insert mode (IRM) on and RM 4 turns it off, whatever came before, and
/// leave every other mode as it was; SM/RM of any other ANSI mode changes nothing.
/// DECKPAM and DECKPNM set and clear the application keypad the same way.
pub proof fn lemma_ansi_modes(m: ModeSnap, code: u16)
    ensures
        apply_event(m, ModeEvent::SetMode(4)) == (ModeSnap { insert: true, ..m }),
        apply_event(m, ModeEvent::ResetMode(4)) == (ModeSnap { insert: false, ..m }),
        apply_events(m, seq![ModeEvent::SetMode(4), ModeEvent::ResetMode(4)]).insert == false,
        apply_events(m, seq![ModeEvent::ResetMode(4), ModeEvent::SetMode(4)]).insert == true,
        code != 4 ==> apply_event(m, ModeEvent::SetMode(code)) == m,
        code != 4 ==> apply_event(m, ModeEvent::ResetMode(code)) == m,
        apply_event(m, ModeEvent::KeypadApplication) == (ModeSnap { app_keypad: true, ..m }),
        apply_event(m, ModeEvent::KeypadNormal) == (ModeSnap { app_keypad: false, ..m }),
        apply_event(m, ModeEvent::Other) == m,
{
    reveal(with_terminal_mode);
    reveal(with_keypad);
    let s1 = seq![ModeEvent::SetMode(4), ModeEvent::ResetMode(4)];
    let s2 = seq![ModeEvent::ResetMode(4), ModeEvent::SetMode(4)];
    assert(s1.drop_last().drop_last() =~= Seq::<ModeEvent>::empty());
    assert(s2.drop_last().drop_last() =~= Seq::<ModeEvent>::empty());
}

/// Each tracked DEC private mode drives its own flag: DECSET sets it and DECRST clears it.
pub proof fn lemma_dec_mode_flags(m: ModeSnap, set: bool)
    ensures
        with_dec_mode(m, 1, set).app_cursor == set,
        with_dec_mode(m, 7, set).line_wrap == set,
        with_dec_mode(m, 25, set).show_cursor == set,
        with_dec_mode(m, 9, set).mouse_x10 == set,
        with_dec_mode(m, 1000, set).mouse_click == set,
        with_dec_mode(m, 1001, set).mouse_highlight == set,
        with_dec_mode(m, 1002, set).mouse_drag == set,
        with_dec_mode(m, 1003, set).mouse_motion == set,
        with_dec_mode(m, 1004, set).focus_in_out == set,
        with_dec_mode(m, 1005, set).utf8_mouse == set,
        with_dec_mode(m, 1006, set).sgr_mouse == set,
        with_dec_mode(m, 1007, set).alternate_scroll == set,
        with_dec_mode(m, 2004, set).bracketed_paste == set,
        with_dec_mode(m, 1002, set) == (ModeSnap { mouse_drag: set, ..m }),
        with_dec_mode(m, 1000, set) == (ModeSnap { mouse_click: set, ..m }),
        apply_event(m, ModeEvent::FullReset).show_cursor && apply_event(m, ModeEvent::FullReset).line_wrap,
        !apply_event(m, ModeEvent::FullReset).insert && !apply_event(m, ModeEvent::FullReset).mouse_click,
{
    reveal(with_dec_mode);
}

/// Whether any mouse protocol is active (DEC9, DEC1000, DEC1001, DEC1002 or DEC1003).
pub open spec fn mouse_reporting_spec(m: ModeSnap) -> bool {
    m.mouse_x10 || m.mouse_click || m.mouse_highlight || m.mouse_drag || m.mouse_motion
}

/// A pointer gesture phase.
#[derive(Debug, Clone, Copy, PartialEq, Eq, Structural)]
pub enum PointerPhase {
    Down,
    Up,
    Move,
}

/// The pointer button of a gesture.
#[derive(Debug, Clone, Copy, PartialEq, Eq, Structural)]
pub enum PointerButton {
    NoButton,
    Left,
    Middle,
    Right,
}

/// Whether the live modes report a pointer phase: presses under any protocol; releases
/// under every protocol but X10 (DEC9); motion under any-event tracking (DEC1003), and
/// under button-event tracking (DEC1002) only while a button is held.
pub open spec fn reports_pointer_spec(m: ModeSnap, phase: PointerPhase, button: PointerButton) -> bool {
    match phase {
        PointerPhase::Down => mouse_reporting_spec(m),
        PointerPhase::Up => m.mouse_click || m.mouse_highlight || m.mouse_drag || m.mouse_motion,
        PointerPhase::Move => m.mouse_motion || (m.mouse_drag && button != PointerButton::NoButton),
    }
}

impl ModeSnap {
    /// Whether any mouse protocol is active.
    pub fn mouse_reporting(&self) -> (b: bool)
        ensures
            b == mouse_reporting_spec(*self),
            b == (self.mouse_x10 || self.mouse_click || self.mouse_highlight || self.mouse_drag
                || self.mouse_motion),
    {
        self.mouse_x10 || self.mouse_click || self.mouse_highlight || self.mouse_drag
            || self.mouse_motion
    }

    /// Whether the live modes report this pointer phase.
    pub fn reports_pointer(&self, phase: PointerPhase, button: PointerButton) -> (b: bool)
        ensures
            b == reports_pointer_spec(*self, phase, button),
            phase == PointerPhase::Down ==> (b == (self.mouse_x10 || self.mouse_click
                || self.mouse_highlight || self.mouse_drag || self.mouse_motion)),
            phase == PointerPhase::Up ==> (b == (self.mouse_click || self.mouse_highlight
                || self.mouse_drag || self.mouse_motion)),
            phase == PointerPhase::Move ==> (b == (self.mouse_motion || (self.mouse_drag
                && button != PointerButton::NoButton))),
    {
        match phase {
            PointerPhase::Down => self.mouse_reporting(),
            PointerPhase::Up => self.mouse_click || self.mouse_highlight || self.mouse_drag
                || self.mouse_motion,
            PointerPhase::Move => self.mouse_motion || (self.mouse_drag && match button {
                PointerButton::NoButton => false,
                _ => true,
            }),
        }
    }
}

/// Which pointer phases the live mouse protocol reports: a press under any protocol
/// (X10, normal, highlight, button-event or any-event tracking); a release under every
/// protocol but X10 alone, so under button-event tracking (DEC 1002) the button is seen to
/// come up after a drag; motion under any-event tracking, and under button-event tracking
/// only while a button is held. With no protocol active nothing is reported.
pub proof fn lemma_pointer_reporting(m: ModeSnap, button: PointerButton)
    ensures
        reports_pointer_spec(m, PointerPhase::Down, button) == (m.mouse_x10 || m.mouse_click
            || m.mouse_highlight || m.mouse_drag || m.mouse_motion),
        reports_pointer_spec(m, PointerPhase::Up, button) == (m.mouse_click || m.mouse_highlight
            || m.mouse_drag || m.mouse_motion),
        reports_pointer_spec(m, PointerPhase::Move, button) == (m.mouse_motion || (m.mouse_drag
            && button != PointerButton::NoButton)),
        m.mouse_drag ==> reports_pointer_spec(m, PointerPhase::Up, button),
        m.mouse_x10 && !m.mouse_click && !m.mouse_highlight && !m.mouse_drag && !m.mouse_motion
            ==> !reports_pointer_spec(m, PointerPhase::Up, button),
        reports_pointer_spec(m, PointerPhase::Up, button) ==> reports_pointer_spec(
            m,
            PointerPhase::Down,
            button,
        ),
        reports_pointer_spec(m, PointerPhase::Move, button) ==> reports_pointer_spec(
            m,
            PointerPhase::Up,
            button,
        ),
{
}

/// Keyboard modifiers held during a pointer or wheel gesture.
#[derive(Debug, Clone, Copy, PartialEq, Eq, Structural, Default)]
pub struct InputModifiers {
    pub shift: bool,
    pub alt: bool,
    pub control: bool,
    pub meta: bool,
}

/// A pointer gesture at a cell.
#[derive(Debug, Clone, Copy, PartialEq, Eq, Structural)]
pub struct PointerInput {
    pub row: u16,
    pub col: u16,
    pub phase: PointerPhase,
    pub button: PointerButton,
    pub click_count: u8,
    pub modifiers: InputModifiers,
}

/// The engine's mouse event kinds.
#[derive(Debug, Clone, Copy, PartialEq, Eq, Structural)]
pub enum NativeMouseKind {
    Press,
    Release,
    Move,
}

/// The engine's mouse buttons, wheel directions included.
#[derive(Debug, Clone, Copy, PartialEq, Eq, Structural)]
pub enum NativeButton {
    NoButton,
    Left,
    Middle,
    Right,
    WheelUp,
    WheelDown,
    WheelLeft,
    WheelRight,
}

/// The engine's key modifiers (Meta has no engine modifier and travels as Alt).
#[derive(Debug, Clone, Copy, PartialEq, Eq, Structural)]
pub struct NativeModifiers {
    pub shift: bool,
    pub alt: bool,
    pub ctrl: bool,
}

/// A mouse event in the engine's terms, at column `x` and row `y`.
#[derive(Debug, Clone, Copy, PartialEq, Eq, Structural)]
pub struct NativeMouseEvent {
    pub kind: NativeMouseKind,
    pub x: usize,
    pub y: i64,
    pub button: NativeButton,
    pub modifiers: NativeModifiers,
}

pub open spec fn native_modifiers_spec(m: InputModifiers) -> NativeModifiers {
    NativeModifiers { shift: m.shift, alt: m.alt || m.meta, ctrl: m.control }
}

/// Shift and Control map to themselves; Alt and Meta both map to the engine's Alt.
pub fn native_modifiers(m: InputModifiers) -> (n: NativeModifiers)
    ensures
        n == native_modifiers_spec(m),
        n.shift == m.shift && n.alt == (m.alt || m.meta) && n.ctrl == m.control,
{
    NativeModifiers { shift: m.shift, alt: m.alt || m.meta, ctrl: m.control }
}

pub open spec fn pointer_event_spec(input: PointerInput) -> NativeMouseEvent {
    NativeMouseEvent {
        kind: match input.phase {
            PointerPhase::Down => NativeMouseKind::Press,
            PointerPhase::Up => NativeMouseKind::Release,
            PointerPhase::Move => NativeMouseKind::Move,
        },
        x: input.col as usize,
        y: input.row as i64,
        button: match input.button {
            PointerButton::NoButton => NativeButton::NoButton,
            PointerButton::Left => NativeButton::Left,
            PointerButton::Middle => NativeButton::Middle,
            PointerButton::Right => NativeButton::Right,
        },
        modifiers: native_modifiers_spec(input.modifiers),
    }
}

/// The engine mouse event for a pointer gesture: down, up and move become press,
/// release and move at the same cell with the same button.
pub fn pointer_event(input: PointerInput) -> (e: NativeMouseEvent)
    ensures
        e == pointer_event_spec(input),
{
    let kind = match input.phase {
        PointerPhase::Down => NativeMouseKind::Press,
        PointerPhase::Up => NativeMouseKind::Release,
        PointerPhase::Move => NativeMouseKind::Move,
    };
    let button = match input.button {
        PointerButton::NoButton => NativeButton::NoButton,
        PointerButton::Left => NativeButton::Left,
        PointerButton::Middle => NativeButton::Middle,
        PointerButton::Right => NativeButton::Right,
    };
    NativeMouseEvent {
        kind,
        x: input.col as usize,
        y: input.row as i64,
        button,
        modifiers: native_modifiers(input.modifiers),
    }
}

pub open spec fn pointer_refusal() -> Seq<char> {
    "POINTER_MODE_CHANGED: pointer phase is not reported by live modes"@
}

/// Admits a pointer gesture only when the live modes report its phase.
pub fn pointer_admission(modes: &ModeSnap, input: &PointerInput) -> (r: Result<NativeMouseEvent, String>)
    ensures
        reports_pointer_spec(*modes, input.phase, input.button) ==> r == Ok::<NativeMouseEvent, String>(
            pointer_event_spec(*input),
        ),
        !reports_pointer_spec(*modes, input.phase, input.button) ==> (r matches Err(e) && e@
            == pointer_refusal()),
        input.phase == PointerPhase::Up ==> (r is Ok <==> (modes.mouse_click || modes.mouse_highlight
            || modes.mouse_drag || modes.mouse_motion)),
        input.phase == PointerPhase::Down ==> (r is Ok <==> (modes.mouse_x10 || modes.mouse_click
            || modes.mouse_highlight || modes.mouse_drag || modes.mouse_motion)),
        input.phase == PointerPhase::Move ==> (r is Ok <==> (modes.mouse_motion || (modes.mouse_drag
            && input.button != PointerButton::NoButton))),
        r matches Ok(e) ==> {
            &&& e.x == input.col as usize
            &&& e.y == input.row as i64
            &&& (input.phase == PointerPhase::Down <==> e.kind == NativeMouseKind::Press)
            &&& (input.phase == PointerPhase::Up <==> e.kind == NativeMouseKind::Release)
            &&& (input.phase == PointerPhase::Move <==> e.kind == NativeMouseKind::Move)
            &&& (input.button == PointerButton::NoButton <==> e.button == NativeButton::NoButton)
            &&& (input.button == PointerButton::Left <==> e.button == NativeButton::Left)
            &&& (input.button == PointerButton::Middle <==> e.button == NativeButton::Middle)
            &&& (input.button == PointerButton::Right <==> e.button == NativeButton::Right)
            &&& e.modifiers.shift == input.modifiers.shift
            &&& e.modifiers.alt == (input.modifiers.alt || input.modifiers.meta)
            &&& e.modifiers.ctrl == input.modifiers.control
        },
{
    if modes.reports_pointer(input.phase, input.button) {
        Ok(pointer_event(*input))
    } else {
        Err(owned("POINTER_MODE_CHANGED: pointer phase is not reported by live modes"))
    }
}

pub open spec fn silent_pointer_refusal() -> Seq<char> {
    "WEZTERM_POINTER_MODE_CHANGED: pointer phase is not reported"@
}

/// What the engine wrote for an admitted pointer event: an encoder that wrote nothing did
/// not report the phase.
pub fn pointer_output(written: Vec<u8>) -> (r: Result<Vec<u8>, String>)
    ensures
        written@.len() > 0 ==> (r matches Ok(out) && out@ == written@),
        written@.len() == 0 ==> (r matches Err(e) && e@ == silent_pointer_refusal()),
{
    if written.len() == 0 {
        Err(owned("WEZTERM_POINTER_MODE_CHANGED: pointer phase is not reported"))
    } else {
        Ok(written)
    }
}

/// The byte strings of a reply log, as abstract values.
pub open spec fn chunk_views(log: Seq<Vec<u8>>) -> Seq<Seq<u8>> {
    log.map_values(|c: Vec<u8>| c@)
}

/// Byte strings joined in order.
pub open spec fn joined(chunks: Seq<Seq<u8>>) -> Seq<u8>
    decreases chunks.len(),
{
    if chunks.len() == 0 {
        seq![]
    } else {
        joined(chunks.drop_last()) + chunks.last()
    }
}

/// Takes out of the engine's reply log what it wrote since the log held `start` entries,
/// joined in order; the entries before `start` stay exactly as they were.
pub fn take_replies_since(log: &mut Vec<Vec<u8>>, start: usize) -> (out: Vec<u8>)
    requires
        start <= old(log)@.len(),
    ensures
        chunk_views(final(log)@) == chunk_views(old(log)@).subrange(0, start as int),
        out@ == joined(chunk_views(old(log)@).subrange(start as int, old(log)@.len() as int)),
{
    let ghost all = chunk_views(log@);
    let mut out: Vec<u8> = Vec::new();
    let mut i: usize = start;
    assert(all.subrange(start as int, start as int) =~= Seq::<Seq<u8>>::empty());
    while i < log.len()
        invariant
            start <= i <= log@.len(),
            all == chunk_views(log@),
            log@ == old(log)@,
            out@ == joined(all.subrange(start as int, i as int)),
        decreases log@.len() - i,
    {
        let chunk = &log[i];
        let ghost before = out@;
        let mut k: usize = 0;
        while k < chunk.len()
            invariant
                k <= chunk@.len(),
                out@ == before + chunk@.subrange(0, k as int),
            decreases chunk@.len() - k,
        {
            out.push(chunk[k]);
            k = k + 1;
            assert(out@ =~= before + chunk@.subrange(0, k as int));
        }
        assert(chunk@.subrange(0, chunk@.len() as int) =~= chunk@);
        assert(all.subrange(start as int, i + 1).drop_last() =~= all.subrange(start as int, i as int));
        assert(all[i as int] == chunk@);
        i = i + 1;
    }
    log.truncate(start);
    assert(chunk_views(log@) =~= all.subrange(0, start as int));
    out
}

/// The reply to an admitted pointer event, taken out of the engine's reply log from the
/// length it had before the event. The replies captured before the event are left exactly
/// as they were (the event's own bytes go to the caller, not to the captured replies); the
/// event is refused when the engine wrote nothing for it.
pub fn pointer_reply(log: &mut Vec<Vec<u8>>, start: usize) -> (r: Result<Vec<u8>, String>)
    requires
        start <= old(log)@.len(),
    ensures
        chunk_views(final(log)@) == chunk_views(old(log)@).subrange(0, start as int),
        joined(chunk_views(old(log)@).subrange(start as int, old(log)@.len() as int)).len() > 0
            ==> (r matches Ok(out) && out@ == joined(
            chunk_views(old(log)@).subrange(start as int, old(log)@.len() as int),
        )),
        joined(chunk_views(old(log)@).subrange(start as int, old(log)@.len() as int)).len() == 0
            ==> (r matches Err(e) && e@ == silent_pointer_refusal()),
{
    pointer_output(take_replies_since(log, start))
}

/// The two wheel routes that reach the PTY.
#[derive(Debug, Clone, Copy, PartialEq, Eq, Structural)]
pub enum WheelRoute {
    MouseReport,
    AlternateScroll,
}

/// Whether a wheel route still matches the live modes: mouse reports need an active mouse
/// protocol; alternate scroll needs the alternate screen and DEC 1007 with no mouse
/// protocol active (a mouse mode enabled later takes priority).
pub open spec fn wheel_route_live_spec(m: ModeSnap, alt_active: bool, route: WheelRoute) -> bool {
    match route {
        WheelRoute::MouseReport => mouse_reporting_spec(m),
        WheelRoute::AlternateScroll => alt_active && m.alternate_scroll && !mouse_reporting_spec(m),
    }
}

pub open spec fn wheel_refusal() -> Seq<char> {
    "WHEEL_MODE_CHANGED: wheel route no longer matches live modes"@
}

/// Rechecks a supplied wheel route against the live modes; a stale route is refused and
/// never re-encoded under the other route.
pub fn check_wheel_route(modes: &ModeSnap, alt_active: bool, route: WheelRoute) -> (r: Result<(), String>)
    ensures
        r is Ok <==> wheel_route_live_spec(*modes, alt_active, route),
        r matches Err(e) ==> e@ == wheel_refusal(),
{
    let live = match route {
        WheelRoute::MouseReport => modes.mouse_reporting(),
        WheelRoute::AlternateScroll => alt_active && modes.alternate_scroll
            && !modes.mouse_reporting(),
    };
    if live {
        Ok(())
    } else {
        Err(owned("WHEEL_MODE_CHANGED: wheel route no longer matches live modes"))
    }
}

/// A wheel gesture in whole terminal-cell steps on both axes.
#[derive(Debug, Clone, Copy, PartialEq, Eq, Structural)]
pub struct WheelInput {
    pub row: u16,
    pub col: u16,
    pub horizontal: i32,
    pub vertical: i32,
    pub modifiers: InputModifiers,
    pub route: WheelRoute,
}

pub open spec fn abs_steps(n: i32) -> nat {
    if n < 0 { (-n) as nat } else { n as nat }
}

/// The native wheel buttons for a gesture: one per vertical step (up for negative, down
/// for positive), then one per horizontal step (left for negative, right for positive).
pub open spec fn wheel_buttons(horizontal: i32, vertical: i32) -> Seq<NativeButton> {
    Seq::new(abs_steps(vertical), |i: int| if vertical < 0 { NativeButton::WheelUp } else { NativeButton::WheelDown })
        + Seq::new(abs_steps(horizontal), |i: int| if horizontal < 0 { NativeButton::WheelLeft } else { NativeButton::WheelRight })
}

pub open spec fn wheel_event_spec(input: WheelInput, button: NativeButton) -> NativeMouseEvent {
    NativeMouseEvent {
        kind: NativeMouseKind::Press,
        x: input.col as usize,
        y: input.row as i64,
        button,
        modifiers: native_modifiers_spec(input.modifiers),
    }
}

/// What a live wheel gesture becomes: one press per step, all at the gesture's cell and
/// with its modifiers (Shift, Alt and Control as they are, Meta as Alt), the vertical steps
/// first (up for a negative count, down for a positive one), then the horizontal steps
/// (left for negative, right for positive).
pub proof fn lemma_wheel_event_fields(input: WheelInput)
    ensures
        ({
            let evs = wheel_buttons(input.horizontal, input.vertical).map_values(
                |b: NativeButton| wheel_event_spec(input, b),
            );
            &&& evs.len() == abs_steps(input.vertical) + abs_steps(input.horizontal)
            &&& forall|i: int| 0 <= i < evs.len() ==> {
                &&& (#[trigger] evs[i]).kind == NativeMouseKind::Press
                &&& evs[i].x == input.col as usize
                &&& evs[i].y == input.row as i64
                &&& evs[i].modifiers.shift == input.modifiers.shift
                &&& evs[i].modifiers.alt == (input.modifiers.alt || input.modifiers.meta)
                &&& evs[i].modifiers.ctrl == input.modifiers.control
                &&& (i < abs_steps(input.vertical) ==> (evs[i].button == NativeButton::WheelUp
                    <==> input.vertical < 0) && (evs[i].button == NativeButton::WheelDown
                    <==> input.vertical > 0))
                &&& (i >= abs_steps(input.vertical) ==> (evs[i].button == NativeButton::WheelLeft
                    <==> input.horizontal < 0) && (evs[i].button == NativeButton::WheelRight
                    <==> input.horizontal > 0))
            }
        }),
{
    let bs = wheel_buttons(input.horizontal, input.vertical);
    let evs = bs.map_values(|b: NativeButton| wheel_event_spec(input, b));
    assert forall|i: int| 0 <= i < evs.len() implies {
        &&& (#[trigger] evs[i]).kind == NativeMouseKind::Press
        &&& evs[i].x == input.col as usize
        &&& evs[i].y == input.row as i64
        &&& evs[i].modifiers.shift == input.modifiers.shift
        &&& evs[i].modifiers.alt == (input.modifiers.alt || input.modifiers.meta)
        &&& evs[i].modifiers.ctrl == input.modifiers.control
        &&& (i < abs_steps(input.vertical) ==> (evs[i].button == NativeButton::WheelUp
            <==> input.vertical < 0) && (evs[i].button == NativeButton::WheelDown
            <==> input.vertical > 0))
        &&& (i >= abs_steps(input.vertical) ==> (evs[i].button == NativeButton::WheelLeft
            <==> input.horizontal < 0) && (evs[i].button == NativeButton::WheelRight
            <==> input.horizontal > 0))
    } by {
        assert(evs[i] == wheel_event_spec(input, bs[i]));
    }
}

fn steps_of(n: i32) -> (s: u32)
    ensures
        s as nat == abs_steps(n),
{
    if n < 0 {
        (-(n as i64)) as u32
    } else {
        n as u32
    }
}

fn push_wheel_events(out: &mut Vec<NativeMouseEvent>, input: &WheelInput, button: NativeButton, count: u32)
    ensures
        final(out)@ == old(out)@ + Seq::new(count as nat, |i: int| wheel_event_spec(*input, button)),
{
    let ev = NativeMouseEvent {
        kind: NativeMouseKind::Press,
        x: input.col as usize,
        y: input.row as i64,
        button,
        modifiers: native_modifiers(input.modifiers),
    };
    let mut k: u32 = 0;
    while k < count
        invariant
            k <= count,
            ev == wheel_event_spec(*input, button),
            out@ == old(out)@ + Seq::new(k as nat, |i: int| wheel_event_spec(*input, button)),
        decreases count - k,
    {
        out.push(ev);
        k = k + 1;
        assert(out@ =~= old(out)@ + Seq::new(k as nat, |i: int| wheel_event_spec(*input, button)));
    }
}

/// The native wheel events for a gesture whose route is still live: one press per step,
/// vertical steps first, at the gesture's cell with its modifiers.
pub fn wheel_events(modes: &ModeSnap, alt_active: bool, input: &WheelInput) -> (r: Result<Vec<NativeMouseEvent>, String>)
    ensures
        !wheel_route_live_spec(*modes, alt_active, input.route) ==> (r matches Err(e) && e@
            == wheel_refusal()),
        wheel_route_live_spec(*modes, alt_active, input.route) ==> (r matches Ok(evs) && evs@
            == wheel_buttons(input.horizontal, input.vertical).map_values(
            |b: NativeButton| wheel_event_spec(*input, b),
        )),
        input.route == WheelRoute::MouseReport ==> (r is Ok <==> (modes.mouse_x10 || modes.mouse_click
            || modes.mouse_highlight || modes.mouse_drag || modes.mouse_motion)),
        input.route == WheelRoute::AlternateScroll ==> (r is Ok <==> (alt_active
            && modes.alternate_scroll && !modes.mouse_x10 && !modes.mouse_click
            && !modes.mouse_highlight && !modes.mouse_drag && !modes.mouse_motion)),
        r matches Ok(evs) ==> {
            &&& evs@.len() == abs_steps(input.vertical) + abs_steps(input.horizontal)
            &&& forall|i: int| 0 <= i < evs@.len() ==> {
                &&& (#[trigger] evs@[i]).kind == NativeMouseKind::Press
                &&& evs@[i].x == input.col as usize
                &&& evs@[i].y == input.row as i64
                &&& evs@[i].modifiers.shift == input.modifiers.shift
                &&& evs@[i].modifiers.alt == (input.modifiers.alt || input.modifiers.meta)
                &&& evs@[i].modifiers.ctrl == input.modifiers.control
                &&& (i < abs_steps(input.vertical) ==> evs@[i].button == (if input.vertical < 0 {
                    NativeButton::WheelUp
                } else {
                    NativeButton::WheelDown
                }))
                &&& (i >= abs_steps(input.vertical) ==> evs@[i].button == (if input.horizontal < 0 {
                    NativeButton::WheelLeft
                } else {
                    NativeButton::WheelRight
                }))
            }
        },
{
    check_wheel_route(modes, alt_active, input.route)?;
    let mut out: Vec<NativeMouseEvent> = Vec::new();
    let vertical = if input.vertical < 0 { NativeButton::WheelUp } else { NativeButton::WheelDown };
    let horizontal = if input.horizontal < 0 { NativeButton::WheelLeft } else { NativeButton::WheelRight };
    push_wheel_events(&mut out, input, vertical, steps_of(input.vertical));
    push_wheel_events(&mut out, input, horizontal, steps_of(input.horizontal));
    assert(out@ =~= wheel_buttons(input.horizontal, input.vertical).map_values(
        |b: NativeButton| wheel_event_spec(*input, b),
    ));
    proof {
        let nv = abs_steps(input.vertical);
        assert forall|i: int| 0 <= i < out@.len() implies {
            &&& (#[trigger] out@[i]).kind == NativeMouseKind::Press
            &&& out@[i].x == input.col as usize
            &&& out@[i].y == input.row as i64
            &&& out@[i].modifiers.shift == input.modifiers.shift
            &&& out@[i].modifiers.alt == (input.modifiers.alt || input.modifiers.meta)
            &&& out@[i].modifiers.ctrl == input.modifiers.control
            &&& (i < nv ==> out@[i].button == vertical)
            &&& (i >= nv ==> out@[i].button == horizontal)
        } by {
            let bs = wheel_buttons(input.horizontal, input.vertical);
            assert(out@[i] == wheel_event_spec(*input, bs[i]));
        }
    }
    Ok(out)
}

} // verus!
