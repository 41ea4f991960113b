//! Data-driven hotkey dispatch: the fixed symbol table from key names to
//! key codes, the bindings derived from a configuration, and the registry
//! state machine that re-registration drives.
use vstd::prelude::*;

use crate::model::{HotkeyConfig, HotkeyConfigV};
use crate::text::str_to_chars;

verus! {

/// Platform-independent codes for the keys the symbol table knows.
#[derive(Debug, Clone, Copy, PartialEq, Eq, Structural)]
pub enum KeyCode {
    F1,
    F2,
    F3,
    F4,
    F5,
    F6,
    F7,
    F8,
    F9,
    F10,
    F11,
    F12,
    Space,
    Escape,
    Enter,
    Tab,
    Backspace,
    Insert,
    Delete,
    Home,
    End,
    PageUp,
    PageDown,
    ArrowUp,
    ArrowDown,
    ArrowLeft,
    ArrowRight,
    KeyA,
    KeyB,
    KeyC,
    KeyD,
    KeyE,
    KeyF,
    KeyG,
    KeyH,
    KeyI,
    KeyJ,
    KeyK,
    KeyL,
    KeyM,
    KeyN,
    KeyO,
    KeyP,
    KeyQ,
    KeyR,
    KeyS,
    KeyT,
    KeyU,
    KeyV,
    KeyW,
    KeyX,
    KeyY,
    KeyZ,
    Digit0,
    Digit1,
    Digit2,
    Digit3,
    Digit4,
    Digit5,
    Digit6,
    Digit7,
    Digit8,
    Digit9,
}

/// The logical actions a global hotkey can trigger.
#[derive(Debug, Clone, Copy, PartialEq, Eq, Structural)]
pub enum HotkeyAction {
    ToggleOverlay,
    PreviousStep,
    NextStep,
    CycleBuildOrder,
    ToggleClickThrough,
    ToggleCompact,
    ResetBuildOrder,
    TogglePause,
}

/// The event emitted when the key bound to `a` is pressed.
pub open spec fn spec_event_name(a: HotkeyAction) -> Seq<char> {
    match a {
        HotkeyAction::ToggleOverlay => "hotkey-toggle-overlay"@,
        HotkeyAction::PreviousStep => "hotkey-previous-step"@,
        HotkeyAction::NextStep => "hotkey-next-step"@,
        HotkeyAction::CycleBuildOrder => "hotkey-cycle-build-order"@,
        HotkeyAction::ToggleClickThrough => "hotkey-toggle-click-through"@,
        HotkeyAction::ToggleCompact => "hotkey-toggle-compact"@,
        HotkeyAction::ResetBuildOrder => "hotkey-reset-build-order"@,
        HotkeyAction::TogglePause => "hotkey-toggle-pause"@,
    }
}

/// The event name for an action, as emitted to observers.
pub fn event_name(a: HotkeyAction) -> (r: String)
    ensures
        r@ == spec_event_name(a),
{
    match a {
        HotkeyAction::ToggleOverlay => "hotkey-toggle-overlay".to_owned(),
        HotkeyAction::PreviousStep => "hotkey-previous-step".to_owned(),
        HotkeyAction::NextStep => "hotkey-next-step".to_owned(),
        HotkeyAction::CycleBuildOrder => "hotkey-cycle-build-order".to_owned(),
        HotkeyAction::ToggleClickThrough => "hotkey-toggle-click-through".to_owned(),
        HotkeyAction::ToggleCompact => "hotkey-toggle-compact".to_owned(),
        HotkeyAction::ResetBuildOrder => "hotkey-reset-build-order".to_owned(),
        HotkeyAction::TogglePause => "hotkey-toggle-pause".to_owned(),
    }
}

/// ASCII upper-casing of one character; anything else passes through.
pub open spec fn spec_upper_char(c: char) -> char {
    if c == 'a' {
        'A'
    } else if c == 'b' {
        'B'
    } else if c == 'c' {
        'C'
    } else if c == 'd' {
        'D'
    } else if c == 'e' {
        'E'
    } else if c == 'f' {
        'F'
    } else if c == 'g' {
        'G'
    } else if c == 'h' {
        'H'
    } else if c == 'i' {
        'I'
    } else if c == 'j' {
        'J'
    } else if c == 'k' {
        'K'
    } else if c == 'l' {
        'L'
    } else if c == 'm' {
        'M'
    } else if c == 'n' {
        'N'
    } else if c == 'o' {
        'O'
    } else if c == 'p' {
        'P'
    } else if c == 'q' {
        'Q'
    } else if c == 'r' {
        'R'
    } else if c == 's' {
        'S'
    } else if c == 't' {
        'T'
    } else if c == 'u' {
        'U'
    } else if c == 'v' {
        'V'
    } else if c == 'w' {
        'W'
    } else if c == 'x' {
        'X'
    } else if c == 'y' {
        'Y'
    } else if c == 'z' {
        'Z'
    } else {
        c
    }
}

fn exec_upper_char(c: char) -> (r: char)
    ensures
        r == spec_upper_char(c),
{
    if c == 'a' {
        'A'
    } else if c == 'b' {
        'B'
    } else if c == 'c' {
        'C'
    } else if c == 'd' {
        'D'
    } else if c == 'e' {
        'E'
    } else if c == 'f' {
        'F'
    } else if c == 'g' {
        'G'
    } else if c == 'h' {
        'H'
    } else if c == 'i' {
        'I'
    } else if c == 'j' {
        'J'
    } else if c == 'k' {
        'K'
    } else if c == 'l' {
        'L'
    } else if c == 'm' {
        'M'
    } else if c == 'n' {
        'N'
    } else if c == 'o' {
        'O'
    } else if c == 'p' {
        'P'
    } else if c == 'q' {
        'Q'
    } else if c == 'r' {
        'R'
    } else if c == 's' {
        'S'
    } else if c == 't' {
        'T'
    } else if c == 'u' {
        'U'
    } else if c == 'v' {
        'V'
    } else if c == 'w' {
        'W'
    } else if c == 'x' {
        'X'
    } else if c == 'y' {
        'Y'
    } else if c == 'z' {
        'Z'
    } else {
        c
    }
}

/// ASCII upper-casing of a key name.
pub open spec fn spec_upper(s: Seq<char>) -> Seq<char> {
    s.map_values(|c: char| spec_upper_char(c))
}

/// The fixed symbol table, matched against the upper-cased key name.
pub open spec fn spec_key_code(s: Seq<char>) -> Option<KeyCode> {
    if s == "F1"@ {
        Some(KeyCode::F1)
    } else if s == "F2"@ {
        Some(KeyCode::F2)
    } else if s == "F3"@ {
        Some(KeyCode::F3)
    } else if s == "F4"@ {
        Some(KeyCode::F4)
    } else if s == "F5"@ {
        Some(KeyCode::F5)
    } else if s == "F6"@ {
        Some(KeyCode::F6)
    } else if s == "F7"@ {
        Some(KeyCode::F7)
    } else if s == "F8"@ {
        Some(KeyCode::F8)
    } else if s == "F9"@ {
        Some(KeyCode::F9)
    } else if s == "F10"@ {
        Some(KeyCode::F10)
    } else if s == "F11"@ {
        Some(KeyCode::F11)
    } else if s == "F12"@ {
        Some(KeyCode::F12)
    } else if s == "SPACE"@ {
        Some(KeyCode::Space)
    } else if s == "ESCAPE"@ {
        Some(KeyCode::Escape)
    } else if s == "ESC"@ {
        Some(KeyCode::Escape)
    } else if s == "ENTER"@ {
        Some(KeyCode::Enter)
    } else if s == "RETURN"@ {
        Some(KeyCode::Enter)
    } else if s == "TAB"@ {
        Some(KeyCode::Tab)
    } else if s == "BACKSPACE"@ {
        Some(KeyCode::Backspace)
    } else if s == "INSERT"@ {
        Some(KeyCode::Insert)
    } else if s == "DELETE"@ {
        Some(KeyCode::Delete)
    } else if s == "DEL"@ {
        Some(KeyCode::Delete)
    } else if s == "HOME"@ {
        Some(KeyCode::Home)
    } else if s == "END"@ {
        Some(KeyCode::End)
    } else if s == "PAGEUP"@ {
        Some(KeyCode::PageUp)
    } else if s == "PGUP"@ {
        Some(KeyCode::PageUp)
    } else if s == "PAGEDOWN"@ {
        Some(KeyCode::PageDown)
    } else if s == "PGDN"@ {
        Some(KeyCode::PageDown)
    } else if s == "UP"@ {
        Some(KeyCode::ArrowUp)
    } else if s == "DOWN"@ {
        Some(KeyCode::ArrowDown)
    } else if s == "LEFT"@ {
        Some(KeyCode::ArrowLeft)
    } else if s == "RIGHT"@ {
        Some(KeyCode::ArrowRight)
    } else if s == "A"@ {
        Some(KeyCode::KeyA)
    } else if s == "B"@ {
        Some(KeyCode::KeyB)
    } else if s == "C"@ {
        Some(KeyCode::KeyC)
    } else if s == "D"@ {
        Some(KeyCode::KeyD)
    } else if s == "E"@ {
        Some(KeyCode::KeyE)
    } else if s == "F"@ {
        Some(KeyCode::KeyF)
    } else if s == "G"@ {
        Some(KeyCode::KeyG)
    } else if s == "H"@ {
        Some(KeyCode::KeyH)
    } else if s == "I"@ {
        Some(KeyCode::KeyI)
    } else if s == "J"@ {
        Some(KeyCode::KeyJ)
    } else if s == "K"@ {
        Some(KeyCode::KeyK)
    } else if s == "L"@ {
        Some(KeyCode::KeyL)
    } else if s == "M"@ {
        Some(KeyCode::KeyM)
    } else if s == "N"@ {
        Some(KeyCode::KeyN)
    } else if s == "O"@ {
        Some(KeyCode::KeyO)
    } else if s == "P"@ {
        Some(KeyCode::KeyP)
    } else if s == "Q"@ {
        Some(KeyCode::KeyQ)
    } else if s == "R"@ {
        Some(KeyCode::KeyR)
    } else if s == "S"@ {
        Some(KeyCode::KeyS)
    } else if s == "T"@ {
        Some(KeyCode::KeyT)
    } else if s == "U"@ {
        Some(KeyCode::KeyU)
    } else if s == "V"@ {
        Some(KeyCode::KeyV)
    } else if s == "W"@ {
        Some(KeyCode::KeyW)
    } else if s == "X"@ {
        Some(KeyCode::KeyX)
    } else if s == "Y"@ {
        Some(KeyCode::KeyY)
    } else if s == "Z"@ {
        Some(KeyCode::KeyZ)
    } else if s == "0"@ {
        Some(KeyCode::Digit0)
    } else if s == "1"@ {
        Some(KeyCode::Digit1)
    } else if s == "2"@ {
        Some(KeyCode::Digit2)
    } else if s == "3"@ {
        Some(KeyCode::Digit3)
    } else if s == "4"@ {
        Some(KeyCode::Digit4)
    } else if s == "5"@ {
        Some(KeyCode::Digit5)
    } else if s == "6"@ {
        Some(KeyCode::Digit6)
    } else if s == "7"@ {
        Some(KeyCode::Digit7)
    } else if s == "8"@ {
        Some(KeyCode::Digit8)
    } else if s == "9"@ {
        Some(KeyCode::Digit9)
    } else {
        None
    }
}

/// Looks up a key name case-insensitively in the fixed symbol table;
/// an unrecognized name yields `None`.
pub fn string_to_code(key: &str) -> (r: Option<KeyCode>)
    ensures
        r == spec_key_code(spec_upper(key@)),
{
    let chars = str_to_chars(key);
    let mut up: Vec<char> = Vec::new();
    let mut i: usize = 0;
    while i < chars.len()
        invariant
            chars@ == key@,
            i <= chars@.len(),
            up@ =~= spec_upper(key@).take(i as int),
        decreases chars@.len() - i,
    {
        up.push(exec_upper_char(chars[i]));
        proof {
            assert(spec_upper(key@)[i as int] == spec_upper_char(key@[i as int]));
            assert(up@ =~= spec_upper(key@).take(i + 1 as int));
        }
        i += 1;
    }
    proof {
        assert(spec_upper(key@).take(chars@.len() as int) =~= spec_upper(key@));
        assert(up@ =~= spec_upper(key@));
    }
    if crate::text::chars_eq_str(&up, "F1") {
        Some(KeyCode::F1)
    } else if crate::text::chars_eq_str(&up, "F2") {
        Some(KeyCode::F2)
    } else if crate::text::chars_eq_str(&up, "F3") {
        Some(KeyCode::F3)
    } else if crate::text::chars_eq_str(&up, "F4") {
        Some(KeyCode::F4)
    } else if crate::text::chars_eq_str(&up, "F5") {
        Some(KeyCode::F5)
    } else if crate::text::chars_eq_str(&up, "F6") {
        Some(KeyCode::F6)
    } else if crate::text::chars_eq_str(&up, "F7") {
        Some(KeyCode::F7)
    } else if crate::text::chars_eq_str(&up, "F8") {
        Some(KeyCode::F8)
    } else if crate::text::chars_eq_str(&up, "F9") {
        Some(KeyCode::F9)
    } else if crate::text::chars_eq_str(&up, "F10") {
        Some(KeyCode::F10)
    } else if crate::text::chars_eq_str(&up, "F11") {
        Some(KeyCode::F11)
    } else if crate::text::chars_eq_str(&up, "F12") {
        Some(KeyCode::F12)
    } else if crate::text::chars_eq_str(&up, "SPACE") {
        Some(KeyCode::Space)
    } else if crate::text::chars_eq_str(&up, "ESCAPE") {
        Some(KeyCode::Escape)
    } else if crate::text::chars_eq_str(&up, "ESC") {
        Some(KeyCode::Escape)
    } else if crate::text::chars_eq_str(&up, "ENTER") {
        Some(KeyCode::Enter)
    } else if crate::text::chars_eq_str(&up, "RETURN") {
        Some(KeyCode::Enter)
    } else if crate::text::chars_eq_str(&up, "TAB") {
        Some(KeyCode::Tab)
    } else if crate::text::chars_eq_str(&up, "BACKSPACE") {
        Some(KeyCode::Backspace)
    } else if crate::text::chars_eq_str(&up, "INSERT") {
        Some(KeyCode::Insert)
    } else if crate::text::chars_eq_str(&up, "DELETE") {
        Some(KeyCode::Delete)
    } else if crate::text::chars_eq_str(&up, "DEL") {
        Some(KeyCode::Delete)
    } else if crate::text::chars_eq_str(&up, "HOME") {
        Some(KeyCode::Home)
    } else if crate::text::chars_eq_str(&up, "END") {
        Some(KeyCode::End)
    } else if crate::text::chars_eq_str(&up, "PAGEUP") {
        Some(KeyCode::PageUp)
    } else if crate::text::chars_eq_str(&up, "PGUP") {
        Some(KeyCode::PageUp)
    } else if crate::text::chars_eq_str(&up, "PAGEDOWN") {
        Some(KeyCode::PageDown)
    } else if crate::text::chars_eq_str(&up, "PGDN") {
        Some(KeyCode::PageDown)
    } else if crate::text::chars_eq_str(&up, "UP") {
        Some(KeyCode::ArrowUp)
    } else if crate::text::chars_eq_str(&up, "DOWN") {
        Some(KeyCode::ArrowDown)
    } else if crate::text::chars_eq_str(&up, "LEFT") {
        Some(KeyCode::ArrowLeft)
    } else if crate::text::chars_eq_str(&up, "RIGHT") {
        Some(KeyCode::ArrowRight)
    } else if crate::text::chars_eq_str(&up, "A") {
        Some(KeyCode::KeyA)
    } else if crate::text::chars_eq_str(&up, "B") {
        Some(KeyCode::KeyB)
    } else if crate::text::chars_eq_str(&up, "C") {
        Some(KeyCode::KeyC)
    } else if crate::text::chars_eq_str(&up, "D") {
        Some(KeyCode::KeyD)
    } else if crate::text::chars_eq_str(&up, "E") {
        Some(KeyCode::KeyE)
    } else if crate::text::chars_eq_str(&up, "F") {
        Some(KeyCode::KeyF)
    } else if crate::text::chars_eq_str(&up, "G") {
        Some(KeyCode::KeyG)
    } else if crate::text::chars_eq_str(&up, "H") {
        Some(KeyCode::KeyH)
    } else if crate::text::chars_eq_str(&up, "I") {
        Some(KeyCode::KeyI)
    } else if crate::text::chars_eq_str(&up, "J") {
        Some(KeyCode::KeyJ)
    } else if crate::text::chars_eq_str(&up, "K") {
        Some(KeyCode::KeyK)
    } else if crate::text::chars_eq_str(&up, "L") {
        Some(KeyCode::KeyL)
    } else if crate::text::chars_eq_str(&up, "M") {
        Some(KeyCode::KeyM)
    } else if crate::text::chars_eq_str(&up, "N") {
        Some(KeyCode::KeyN)
    } else if crate::text::chars_eq_str(&up, "O") {
        Some(KeyCode::KeyO)
    } else if crate::text::chars_eq_str(&up, "P") {
        Some(KeyCode::KeyP)
    } else if crate::text::chars_eq_str(&up, "Q") {
        Some(KeyCode::KeyQ)
    } else if crate::text::chars_eq_str(&up, "R") {
        Some(KeyCode::KeyR)
    } else if crate::text::chars_eq_str(&up, "S") {
        Some(KeyCode::KeyS)
    } else if crate::text::chars_eq_str(&up, "T") {
        Some(KeyCode::KeyT)
    } else if crate::text::chars_eq_str(&up, "U") {
        Some(KeyCode::KeyU)
    } else if crate::text::chars_eq_str(&up, "V") {
        Some(KeyCode::KeyV)
    } else if crate::text::chars_eq_str(&up, "W") {
        Some(KeyCode::KeyW)
    } else if crate::text::chars_eq_str(&up, "X") {
        Some(KeyCode::KeyX)
    } else if crate::text::chars_eq_str(&up, "Y") {
        Some(KeyCode::KeyY)
    } else if crate::text::chars_eq_str(&up, "Z") {
        Some(KeyCode::KeyZ)
    } else if crate::text::chars_eq_str(&up, "0") {
        Some(KeyCode::Digit0)
    } else if crate::text::chars_eq_str(&up, "1") {
        Some(KeyCode::Digit1)
    } else if crate::text::chars_eq_str(&up, "2") {
        Some(KeyCode::Digit2)
    } else if crate::text::chars_eq_str(&up, "3") {
        Some(KeyCode::Digit3)
    } else if crate::text::chars_eq_str(&up, "4") {
        Some(KeyCode::Digit4)
    } else if crate::text::chars_eq_str(&up, "5") {
        Some(KeyCode::Digit5)
    } else if crate::text::chars_eq_str(&up, "6") {
        Some(KeyCode::Digit6)
    } else if crate::text::chars_eq_str(&up, "7") {
        Some(KeyCode::Digit7)
    } else if crate::text::chars_eq_str(&up, "8") {
        Some(KeyCode::Digit8)
    } else if crate::text::chars_eq_str(&up, "9") {
        Some(KeyCode::Digit9)
    } else {
        None
    }
}

/// The key string a configuration assigns to an action.
pub open spec fn spec_action_key(h: HotkeyConfigV, a: HotkeyAction) -> Seq<char> {
    match a {
        HotkeyAction::ToggleOverlay => h.toggle_overlay,
        HotkeyAction::PreviousStep => h.previous_step,
        HotkeyAction::NextStep => h.next_step,
        HotkeyAction::CycleBuildOrder => h.cycle_build_order,
        HotkeyAction::ToggleClickThrough => h.toggle_click_through,
        HotkeyAction::ToggleCompact => h.toggle_compact,
        HotkeyAction::ResetBuildOrder => h.reset_build_order,
        HotkeyAction::TogglePause => h.toggle_pause,
    }
}

/// The registration an action contributes: one entry when its key string
/// is recognized, none otherwise.
pub open spec fn spec_bind_one(h: HotkeyConfigV, a: HotkeyAction) -> Seq<(HotkeyAction, KeyCode)> {
    match spec_key_code(spec_upper(spec_action_key(h, a))) {
        Some(c) => seq![(a, c)],
        None => Seq::empty(),
    }
}

/// The full registration set a configuration yields: one entry per action
/// whose key string resolves, in a fixed order. An unrecognized binding is
/// skipped without disabling the others.
pub open spec fn spec_bindings(h: HotkeyConfigV) -> Seq<(HotkeyAction, KeyCode)> {
    spec_bind_one(h, HotkeyAction::ToggleOverlay) + spec_bind_one(h, HotkeyAction::PreviousStep)
        + spec_bind_one(h, HotkeyAction::NextStep) + spec_bind_one(
        h,
        HotkeyAction::CycleBuildOrder,
    ) + spec_bind_one(h, HotkeyAction::ToggleClickThrough) + spec_bind_one(
        h,
        HotkeyAction::ToggleCompact,
    ) + spec_bind_one(h, HotkeyAction::ResetBuildOrder) + spec_bind_one(
        h,
        HotkeyAction::TogglePause,
    )
}

fn bind_one(h: &HotkeyConfig, a: HotkeyAction, key: &str, out: &mut Vec<(HotkeyAction, KeyCode)>)
    requires
        key@ == spec_action_key(h@, a),
    ensures
        final(out)@ == old(out)@ + spec_bind_one(h@, a),
{
    match string_to_code(key) {
        Some(c) => {
            out.push((a, c));
            proof {
                assert(final(out)@ =~= old(out)@ + spec_bind_one(h@, a));
            }
        },
        None => {
            proof {
                assert(final(out)@ =~= old(out)@ + spec_bind_one(h@, a));
            }
        },
    }
}

/// Derives the registration set from a configuration's hotkey table.
#[verifier::rlimit(100)]
pub fn hotkey_bindings(h: &HotkeyConfig) -> (r: Vec<(HotkeyAction, KeyCode)>)
    ensures
        r@ == spec_bindings(h@),
{
    let mut out: Vec<(HotkeyAction, KeyCode)> = Vec::new();
    bind_one(h, HotkeyAction::ToggleOverlay, h.toggle_overlay.as_str(), &mut out);
    bind_one(h, HotkeyAction::PreviousStep, h.previous_step.as_str(), &mut out);
    bind_one(h, HotkeyAction::NextStep, h.next_step.as_str(), &mut out);
    bind_one(h, HotkeyAction::CycleBuildOrder, h.cycle_build_order.as_str(), &mut out);
    bind_one(h, HotkeyAction::ToggleClickThrough, h.toggle_click_through.as_str(), &mut out);
    bind_one(h, HotkeyAction::ToggleCompact, h.toggle_compact.as_str(), &mut out);
    bind_one(h, HotkeyAction::ResetBuildOrder, h.reset_build_order.as_str(), &mut out);
    bind_one(h, HotkeyAction::TogglePause, h.toggle_pause.as_str(), &mut out);
    proof {
        assert(out@ =~= spec_bindings(h@));
    }
    out
}

/// The set of live global-shortcut registrations. A full re-registration
/// pass replaces the whole set; there is no partial state.
pub struct HotkeyRegistry {
    registered: Vec<(HotkeyAction, KeyCode)>,
}

impl View for HotkeyRegistry {
    type V = Seq<(HotkeyAction, KeyCode)>;

    closed spec fn view(&self) -> Seq<(HotkeyAction, KeyCode)> {
        self.registered@
    }
}

impl HotkeyRegistry {
    /// A registry with nothing registered.
    pub fn new() -> (r: HotkeyRegistry)
        ensures
            r@ == Seq::<(HotkeyAction, KeyCode)>::empty(),
    {
        HotkeyRegistry { registered: Vec::new() }
    }

    /// Drops every live registration.
    pub fn unregister_all(&mut self)
        ensures
            final(self)@ == Seq::<(HotkeyAction, KeyCode)>::empty(),
    {
        self.registered = Vec::new();
    }

    /// Replaces the registration set with the one the configuration
    /// yields, whatever was registered before: stale bindings never
    /// survive a re-registration pass.
    pub fn register_hotkeys(&mut self, h: &HotkeyConfig)
        ensures
            final(self)@ == spec_bindings(h@),
    {
        self.registered = hotkey_bindings(h);
    }

    /// The live registrations, for the shell to mirror.
    pub fn registered(&self) -> (r: &Vec<(HotkeyAction, KeyCode)>)
        ensures
            r@ == self@,
    {
        &self.registered
    }
}

/// Registering the same configuration twice leaves exactly the state one
/// registration leaves: re-registration is idempotent, and never stacks a
/// second registration per binding.
pub proof fn lemma_register_hotkeys_idempotent(
    r1: Seq<(HotkeyAction, KeyCode)>,
    r2: Seq<(HotkeyAction, KeyCode)>,
    h: HotkeyConfigV,
)
    requires
        r1 == spec_bindings(h),
        r2 == spec_bindings(h),
    ensures
        r1 == r2,
{
}

/// Each action holds at most one live registration: two distinct entries
/// of the derived set always belong to distinct actions.
#[verifier::rlimit(100)]
pub proof fn lemma_one_registration_per_action(h: HotkeyConfigV, i: int, j: int)
    requires
        0 <= i < j < spec_bindings(h).len(),
    ensures
        spec_bindings(h)[i].0 != spec_bindings(h)[j].0,
{
    let b1 = spec_bind_one(h, HotkeyAction::ToggleOverlay);
    let b2 = spec_bind_one(h, HotkeyAction::PreviousStep);
    let b3 = spec_bind_one(h, HotkeyAction::NextStep);
    let b4 = spec_bind_one(h, HotkeyAction::CycleBuildOrder);
    let b5 = spec_bind_one(h, HotkeyAction::ToggleClickThrough);
    let b6 = spec_bind_one(h, HotkeyAction::ToggleCompact);
    let b7 = spec_bind_one(h, HotkeyAction::ResetBuildOrder);
    let b8 = spec_bind_one(h, HotkeyAction::TogglePause);
    assert(b1.len() <= 1 && (b1.len() == 1 ==> b1[0].0 == HotkeyAction::ToggleOverlay));
    assert(b2.len() <= 1 && (b2.len() == 1 ==> b2[0].0 == HotkeyAction::PreviousStep));
    assert(b3.len() <= 1 && (b3.len() == 1 ==> b3[0].0 == HotkeyAction::NextStep));
    assert(b4.len() <= 1 && (b4.len() == 1 ==> b4[0].0 == HotkeyAction::CycleBuildOrder));
    assert(b5.len() <= 1 && (b5.len() == 1 ==> b5[0].0 == HotkeyAction::ToggleClickThrough));
    assert(b6.len() <= 1 && (b6.len() == 1 ==> b6[0].0 == HotkeyAction::ToggleCompact));
    assert(b7.len() <= 1 && (b7.len() == 1 ==> b7[0].0 == HotkeyAction::ResetBuildOrder));
    assert(b8.len() <= 1 && (b8.len() == 1 ==> b8[0].0 == HotkeyAction::TogglePause));
    assert(spec_bindings(h) == b1 + b2 + b3 + b4 + b5 + b6 + b7 + b8);
}

} // verus!
