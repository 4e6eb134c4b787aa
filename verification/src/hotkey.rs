//! The hotkey state machine. An OS-level hook reports raw keyboard events;
//! this module tracks modifier flags and the set of pressed key tokens,
//! decides when the push-to-talk and hands-free shortcuts are active, and
//! tells the session orchestrator when to start and stop recording.

use vstd::prelude::*;

use crate::shortcuts::{
    apply_token, empty_shortcut, parse_shortcut, spec_parse, ShortcutModel, ShortcutSpec,
};
use crate::store::AppStore;
use crate::text::{chars_eq, chars_to_string, str_to_chars};

verus! {

/// Modifier flags and currently pressed non-modifier key tokens.
#[derive(Debug, Clone)]
pub struct KeyState {
    pub fn_down: bool,
    pub ctrl_down: bool,
    pub shift_down: bool,
    pub alt_down: bool,
    pub meta_down: bool,
    pub pressed_keys: Vec<String>,
}

/// The mathematical model of a [`KeyState`].
pub struct KeyStateModel {
    pub fn_down: bool,
    pub ctrl_down: bool,
    pub shift_down: bool,
    pub alt_down: bool,
    pub meta_down: bool,
    pub pressed: Seq<Seq<char>>,
}

impl View for KeyState {
    type V = KeyStateModel;

    open spec fn view(&self) -> KeyStateModel {
        KeyStateModel {
            fn_down: self.fn_down,
            ctrl_down: self.ctrl_down,
            shift_down: self.shift_down,
            alt_down: self.alt_down,
            meta_down: self.meta_down,
            pressed: self.pressed_keys@.map_values(|s: String| s@),
        }
    }
}

/// A raw keyboard observation, as the OS hook hands it over.
#[derive(Debug, Clone)]
pub enum KeyEvent {
    /// The five modifier flags changed (or were re-reported).
    Flags { fn_down: bool, ctrl_down: bool, shift_down: bool, alt_down: bool, meta_down: bool },
    /// A non-modifier key went down, named by its token.
    KeyDown { token: String },
    /// A non-modifier key came up, named by its token.
    KeyUp { token: String },
}

/// The model of a [`KeyEvent`].
pub enum KeyEventModel {
    Flags { fn_down: bool, ctrl_down: bool, shift_down: bool, alt_down: bool, meta_down: bool },
    KeyDown { token: Seq<char> },
    KeyUp { token: Seq<char> },
}

impl View for KeyEvent {
    type V = KeyEventModel;

    open spec fn view(&self) -> KeyEventModel {
        match self {
            KeyEvent::Flags { fn_down, ctrl_down, shift_down, alt_down, meta_down } =>
                KeyEventModel::Flags {
                fn_down: *fn_down,
                ctrl_down: *ctrl_down,
                shift_down: *shift_down,
                alt_down: *alt_down,
                meta_down: *meta_down,
            },
            KeyEvent::KeyDown { token } => KeyEventModel::KeyDown { token: token@ },
            KeyEvent::KeyUp { token } => KeyEventModel::KeyUp { token: token@ },
        }
    }
}

/// Whether `t` occurs in `p`.
pub open spec fn contains_tok(p: Seq<Seq<char>>, t: Seq<char>) -> bool {
    exists|i: int| 0 <= i < p.len() && p[i] == t
}

/// `p[i..]` with every occurrence of `t` removed.
pub open spec fn remove_tok_from(p: Seq<Seq<char>>, t: Seq<char>, i: int) -> Seq<Seq<char>>
    decreases p.len() - i when 0 <= i <= p.len()
{
    if i >= p.len() {
        Seq::empty()
    } else if p[i] == t {
        remove_tok_from(p, t, i + 1)
    } else {
        seq![p[i]] + remove_tok_from(p, t, i + 1)
    }
}

/// `p` with every occurrence of `t` removed.
pub open spec fn remove_tok(p: Seq<Seq<char>>, t: Seq<char>) -> Seq<Seq<char>> {
    remove_tok_from(p, t, 0)
}

/// The key state after one raw event. Dropping the `fn` modifier clears the
/// pressed set, so a companion key released out of order cannot linger.
pub open spec fn keys_after(ks: KeyStateModel, e: KeyEventModel) -> KeyStateModel {
    match e {
        KeyEventModel::Flags { fn_down, ctrl_down, shift_down, alt_down, meta_down } =>
            KeyStateModel {
            fn_down,
            ctrl_down,
            shift_down,
            alt_down,
            meta_down,
            pressed: if ks.fn_down && !fn_down {
                Seq::empty()
            } else {
                ks.pressed
            },
        },
        KeyEventModel::KeyDown { token } => KeyStateModel {
            pressed: if contains_tok(ks.pressed, token) {
                ks.pressed
            } else {
                ks.pressed.push(token)
            },
            ..ks
        },
        KeyEventModel::KeyUp { token } => KeyStateModel {
            pressed: remove_tok(ks.pressed, token),
            ..ks
        },
    }
}

/// Whether a shortcut is active in a key state: every required modifier is
/// down and, when the shortcut names a key, exactly that key is pressed.
pub open spec fn spec_active(sc: ShortcutModel, ks: KeyStateModel) -> bool {
    &&& (sc.fn_key ==> ks.fn_down)
    &&& (sc.ctrl ==> ks.ctrl_down)
    &&& (sc.shift ==> ks.shift_down)
    &&& (sc.alt ==> ks.alt_down)
    &&& (sc.meta ==> ks.meta_down)
    &&& (match sc.key {
        Some(k) => ks.pressed.len() == 1 && ks.pressed[0] == k,
        None => true,
    })
}

/// Whether a shortcut is active in a key state.
pub fn is_shortcut_active(sc: &ShortcutSpec, ks: &KeyState) -> (r: bool)
    ensures
        r == spec_active(sc@, ks@),
{
    if sc.fn_key && !ks.fn_down {
        return false;
    }
    if sc.ctrl && !ks.ctrl_down {
        return false;
    }
    if sc.shift && !ks.shift_down {
        return false;
    }
    if sc.alt && !ks.alt_down {
        return false;
    }
    if sc.meta && !ks.meta_down {
        return false;
    }
    match &sc.key {
        Some(k) => {
            if ks.pressed_keys.len() != 1 {
                return false;
            }
            let kc = str_to_chars(k.as_str());
            let pc = str_to_chars(ks.pressed_keys[0].as_str());
            proof {
                assert(ks@.pressed[0] == ks.pressed_keys@[0]@);
            }
            chars_eq(&kc, &pc)
        },
        None => true,
    }
}

/// What one step of the machine asks the orchestrator and UI to do.
pub enum HotkeyAction {
    StartRecording,
    StopRecording,
}

/// The output of one step: an optional recording action and an optional
/// change of the UI hold signal.
pub struct StepOutput {
    pub action: Option<HotkeyAction>,
    pub hold_signal: Option<bool>,
}

/// The hotkey machine: the configured shortcuts, the observed key state,
/// and the recording flags derived from them.
#[derive(Debug, Clone)]
pub struct HotkeyMachine {
    pub push_spec: ShortcutSpec,
    pub hands_free_spec: ShortcutSpec,
    pub keys: KeyState,
    pub is_push_active: bool,
    pub is_hands_free: bool,
    pub is_recording_active: bool,
    pub hold_emitted: bool,
    pub hands_free_combo_prev_active: bool,
}

impl HotkeyMachine {
    /// A fresh machine: nothing pressed, nothing active.
    pub fn new(push_spec: ShortcutSpec, hands_free_spec: ShortcutSpec) -> (r: Self)
        ensures
            r.push_spec@ == push_spec@,
            r.hands_free_spec@ == hands_free_spec@,
            r.keys@.pressed.len() == 0,
            !r.keys@.fn_down && !r.keys@.ctrl_down && !r.keys@.shift_down && !r.keys@.alt_down
                && !r.keys@.meta_down,
            !r.is_push_active && !r.is_hands_free && !r.is_recording_active && !r.hold_emitted
                && !r.hands_free_combo_prev_active,
    {
        let r = HotkeyMachine {
            push_spec,
            hands_free_spec,
            keys: KeyState {
                fn_down: false,
                ctrl_down: false,
                shift_down: false,
                alt_down: false,
                meta_down: false,
                pressed_keys: Vec::new(),
            },
            is_push_active: false,
            is_hands_free: false,
            is_recording_active: false,
            hold_emitted: false,
            hands_free_combo_prev_active: false,
        };
        proof {
            assert(r.keys@.pressed =~= Seq::<Seq<char>>::empty());
        }
        r
    }

    /// Feed one raw keyboard event through the machine.
    ///
    /// The key state is updated first. A rising edge of the hands-free
    /// shortcut flips hands-free mode. Push-to-talk counts only outside
    /// hands-free mode. Recording should run exactly when hands-free mode
    /// is on or push-to-talk is held; when that differs from the current
    /// recording state, the matching action is returned, and when it
    /// differs from the last hold signal, the new signal is returned.
    pub fn on_event(&mut self, e: &KeyEvent) -> (out: StepOutput)
        ensures
            final(self).push_spec@ == old(self).push_spec@,
            final(self).hands_free_spec@ == old(self).hands_free_spec@,
            final(self).keys@ == keys_after(old(self).keys@, e@),
            ({
                let combo = spec_active(old(self).hands_free_spec@, final(self).keys@);
                let hands_free = if combo && !old(self).hands_free_combo_prev_active {
                    !old(self).is_hands_free
                } else {
                    old(self).is_hands_free
                };
                let push = !hands_free && spec_active(old(self).push_spec@, final(self).keys@);
                let should = hands_free || push;
                &&& final(self).hands_free_combo_prev_active == combo
                &&& final(self).is_hands_free == hands_free
                &&& final(self).is_push_active == push
                &&& final(self).is_recording_active == should
                &&& final(self).hold_emitted == should
                &&& out.action == (if should && !old(self).is_recording_active {
                    Some(HotkeyAction::StartRecording)
                } else if !should && old(self).is_recording_active {
                    Some(HotkeyAction::StopRecording)
                } else {
                    None::<HotkeyAction>
                })
                &&& out.hold_signal == (if should != old(self).hold_emitted {
                    Some(should)
                } else {
                    None::<bool>
                })
            }),
    {
        self.apply_key_event(e);
        let combo = is_shortcut_active(&self.hands_free_spec, &self.keys);
        if combo && !self.hands_free_combo_prev_active {
            self.is_hands_free = !self.is_hands_free;
        }
        self.hands_free_combo_prev_active = combo;
        self.is_push_active = if self.is_hands_free {
            false
        } else {
            is_shortcut_active(&self.push_spec, &self.keys)
        };
        let should: bool = self.is_hands_free || self.is_push_active;
        let action: Option<HotkeyAction> = if should != self.is_recording_active {
            if should {
                Some(HotkeyAction::StartRecording)
            } else {
                Some(HotkeyAction::StopRecording)
            }
        } else {
            None
        };
        self.is_recording_active = should;
        let hold_signal: Option<bool> = if should != self.hold_emitted {
            Some(should)
        } else {
            None
        };
        self.hold_emitted = should;
        StepOutput { action, hold_signal }
    }

    /// Record that starting the recorder failed, so the next activation
    /// tries again.
    pub fn note_recording_failed(&mut self)
        ensures
            *final(self) == (HotkeyMachine { is_recording_active: false, ..*old(self) }),
    {
        self.is_recording_active = false;
    }

    /// Update the key state from one raw event.
    fn apply_key_event(&mut self, e: &KeyEvent)
        ensures
            final(self).keys@ == keys_after(old(self).keys@, e@),
            final(self).push_spec == old(self).push_spec,
            final(self).hands_free_spec == old(self).hands_free_spec,
            final(self).is_push_active == old(self).is_push_active,
            final(self).is_hands_free == old(self).is_hands_free,
            final(self).is_recording_active == old(self).is_recording_active,
            final(self).hold_emitted == old(self).hold_emitted,
            final(self).hands_free_combo_prev_active == old(self).hands_free_combo_prev_active,
    {
        match e {
            KeyEvent::Flags { fn_down, ctrl_down, shift_down, alt_down, meta_down } => {
                if self.keys.fn_down && !*fn_down {
                    self.keys.pressed_keys = Vec::new();
                    proof {
                        assert(self.keys@.pressed =~= Seq::<Seq<char>>::empty());
                    }
                }
                self.keys.fn_down = *fn_down;
                self.keys.ctrl_down = *ctrl_down;
                self.keys.shift_down = *shift_down;
                self.keys.alt_down = *alt_down;
                self.keys.meta_down = *meta_down;
            },
            KeyEvent::KeyDown { token } => {
                if !pressed_contains(&self.keys.pressed_keys, token) {
                    let t = clone_via_chars(token);
                    self.keys.pressed_keys.push(t);
                    proof {
                        assert(self.keys@.pressed =~= old(self).keys@.pressed.push(token@));
                    }
                }
            },
            KeyEvent::KeyUp { token } => {
                let kept = remove_pressed(&self.keys.pressed_keys, token);
                self.keys.pressed_keys = kept;
            },
        }
    }
}

/// Copy a string through its characters.
fn clone_via_chars(s: &String) -> (r: String)
    ensures
        r@ == s@,
{
    crate::store::clone_string(s)
}

/// Whether a pressed-key list holds the given token.
fn pressed_contains(p: &Vec<String>, t: &String) -> (r: bool)
    ensures
        r == contains_tok(p@.map_values(|s: String| s@), t@),
{
    let ghost pv = p@.map_values(|s: String| s@);
    let tc = str_to_chars(t.as_str());
    let mut i: usize = 0;
    while i < p.len()
        invariant
            i <= p@.len(),
            pv == p@.map_values(|s: String| s@),
            tc@ == t@,
            forall|j: int| 0 <= j < i ==> pv[j] != t@,
        decreases p@.len() - i,
    {
        let pc = str_to_chars(p[i].as_str());
        proof {
            assert(pv[i as int] == p@[i as int]@);
        }
        if chars_eq(&pc, &tc) {
            return true;
        }
        i = i + 1;
    }
    false
}

/// The pressed-key list with every occurrence of the token removed.
fn remove_pressed(p: &Vec<String>, t: &String) -> (r: Vec<String>)
    ensures
        r@.map_values(|s: String| s@) == remove_tok(p@.map_values(|s: String| s@), t@),
{
    let ghost pv = p@.map_values(|s: String| s@);
    let tc = str_to_chars(t.as_str());
    let mut r: Vec<String> = Vec::new();
    let mut i: usize = 0;
    while i < p.len()
        invariant
            i <= p@.len(),
            pv == p@.map_values(|s: String| s@),
            tc@ == t@,
            remove_tok(pv, t@) == r@.map_values(|s: String| s@) + remove_tok_from(
                pv,
                t@,
                i as int,
            ),
        decreases p@.len() - i,
    {
        let pc = str_to_chars(p[i].as_str());
        proof {
            assert(pv[i as int] == p@[i as int]@);
        }
        if !chars_eq(&pc, &tc) {
            r.push(clone_via_chars(&p[i]));
        }
        i = i + 1;
        proof {
            assert(remove_tok(pv, t@) =~= r@.map_values(|s: String| s@) + remove_tok_from(
                pv,
                t@,
                i as int,
            ));
        }
    }
    proof {
        assert(r@.map_values(|s: String| s@) =~= remove_tok(pv, t@));
    }
    r
}

/// The push-to-talk shortcut used when the stored one does not parse.
pub fn fallback_push_spec() -> (r: ShortcutSpec)
    ensures
        r@ == (ShortcutModel { fn_key: true, ..empty_shortcut() }),
        spec_parse("fn"@) == Some(r@),
{
    proof {
        lemma_parse_fn_literal();
    }
    match parse_shortcut("fn") {
        Ok(p) => p,
        Err(_) => ShortcutSpec::default(),
    }
}

/// The hands-free shortcut used when the stored one does not parse.
pub fn fallback_hands_free_spec() -> (r: ShortcutSpec)
    ensures
        r@ == (ShortcutModel {
            fn_key: true,
            key: Some("space"@),
            ..empty_shortcut()
        }),
        spec_parse("fn+space"@) == Some(r@),
{
    proof {
        lemma_parse_fn_space_literal();
    }
    match parse_shortcut("fn+space") {
        Ok(p) => p,
        Err(_) => {
            let mut d = ShortcutSpec::default();
            d.fn_key = true;
            d.key = Some("space".to_owned());
            d
        },
    }
}

/// `"fn"` parses to the bare `fn` modifier.
proof fn lemma_parse_fn_literal()
    ensures
        spec_parse("fn"@) == Some(ShortcutModel { fn_key: true, ..empty_shortcut() }),
{
    reveal_strlit("fn");
    let s = "fn"@;
    assert(forall|j: int| 0 <= j < s.len() ==> s[j] != '+');
    crate::text::lemma_split_no_sep_tail(s, '+', 0, 0);
    assert(s.subrange(0, s.len() as int) =~= s);
    let parts = seq![s];
    assert(crate::text::spec_split(s, '+') == parts);
    assert(forall|i: int| 0 <= i < s.len() ==> 'a' <= #[trigger] s[i] <= 'z');
    lemma_lit_token_wf(s);
    assert(parts[0] == s);
    assert(forall|k: int| 0 <= k < parts.len() ==> crate::shortcuts::wf_token(#[trigger] parts[k]));
    crate::shortcuts::lemma_norm_tokens_from_id(parts, 0);
    assert(parts.skip(0) =~= parts);
    assert(crate::shortcuts::norm_tokens(s) == parts);
    crate::shortcuts::lemma_parse_singleton(s, empty_shortcut());
    assert(crate::shortcuts::is_tok_fn(s));
    assert(apply_token(empty_shortcut(), s) == Some(
        ShortcutModel { fn_key: true, ..empty_shortcut() },
    ));
}

/// `"fn+space"` parses to the `fn` modifier with the `space` key.
proof fn lemma_parse_fn_space_literal()
    ensures
        spec_parse("fn+space"@) == Some(
            ShortcutModel { fn_key: true, key: Some("space"@), ..empty_shortcut() },
        ),
{
    reveal_strlit("fn+space");
    reveal_strlit("fn");
    reveal_strlit("space");
    let s = "fn+space"@;
    let a = "fn"@;
    let b = "space"@;
    assert(s =~= a + seq!['+'] + b);
    let parts = seq![a, b];
    assert(forall|i: int| 0 <= i < a.len() ==> 'a' <= #[trigger] a[i] <= 'z');
    assert(forall|i: int| 0 <= i < b.len() ==> 'a' <= #[trigger] b[i] <= 'z');
    lemma_lit_token_wf(a);
    lemma_lit_token_wf(b);
    assert(parts[0] == a && parts[1] == b);
    assert(forall|k: int| 0 <= k < parts.len() ==> crate::shortcuts::wf_token(#[trigger] parts[k]));
    assert(forall|k: int|
        0 <= k < parts.len() ==> !crate::text::spec_contains_char(#[trigger] parts[k], '+'));
    assert(crate::text::spec_join(parts, '+') == a + seq!['+'] + b) by {
        assert(crate::text::join_from(parts, '+', 1) == b);
    }
    crate::text::lemma_split_join(parts, '+');
    crate::shortcuts::lemma_norm_tokens_from_id(parts, 0);
    assert(parts.skip(0) =~= parts);
    assert(crate::shortcuts::norm_tokens(s) == parts);
    let m0 = empty_shortcut();
    let m1 = ShortcutModel { fn_key: true, ..m0 };
    let m2 = ShortcutModel { fn_key: true, key: Some(b), ..m0 };
    assert(crate::shortcuts::is_tok_fn(a));
    // `space` is none of the modifier spellings: lengths and first
    // characters tell them apart.
    reveal_strlit("ctrl");
    reveal_strlit("control");
    reveal_strlit("shift");
    reveal_strlit("alt");
    reveal_strlit("option");
    reveal_strlit("meta");
    reveal_strlit("cmd");
    reveal_strlit("command");
    reveal_strlit("win");
    reveal_strlit("super");
    assert("fn"@.len() == 2 && "ctrl"@.len() == 4 && "control"@.len() == 7 && "shift"@.len() == 5
        && "alt"@.len() == 3 && "option"@.len() == 6 && "meta"@.len() == 4 && "cmd"@.len() == 3
        && "command"@.len() == 7 && "win"@.len() == 3 && "super"@.len() == 5);
    assert(b.len() == 5);
    assert(b[0] == 's' && "shift"@[1] == 'h' && b[1] == 'p' && "super"@[1] == 'u');
    assert(!crate::shortcuts::is_modifier_token(b));
    assert(apply_token(m0, a) == Some(m1));
    assert(apply_token(m1, b) == Some(m2));
    assert(crate::shortcuts::parse_from(parts, 2, m2) == Some(m2));
    assert(crate::shortcuts::parse_from(parts, 1, m1) == Some(m2));
    assert(crate::shortcuts::parse_from(parts, 0, m0) == Some(m2));
}

/// A nonempty run of lowercase letters is a well-formed token.
proof fn lemma_lit_token_wf(t: Seq<char>)
    requires
        t.len() > 0,
        forall|i: int| 0 <= i < t.len() ==> 'a' <= #[trigger] t[i] <= 'z',
    ensures
        crate::shortcuts::wf_token(t),
{
    assert(!crate::text::spec_contains_char(t, '+'));
    assert(forall|i: int|
        0 <= i < t.len() ==> crate::text::lower_char(#[trigger] t[i]) == t[i]);
    crate::text::lemma_lower_fixed(t);
}

/// The token named by a macOS virtual keycode, for the keys the shortcuts
/// understand.
pub open spec fn spec_key_token_from_keycode(keycode: i64) -> Option<Seq<char>> {
    if keycode == 36 {
        Some("enter"@)
    } else if keycode == 48 {
        Some("tab"@)
    } else if keycode == 49 {
        Some("space"@)
    } else if keycode == 51 {
        Some("backspace"@)
    } else if keycode == 53 {
        Some("escape"@)
    } else if keycode == 123 {
        Some("left"@)
    } else if keycode == 124 {
        Some("right"@)
    } else if keycode == 125 {
        Some("down"@)
    } else if keycode == 126 {
        Some("up"@)
    } else if keycode == 122 {
        Some("f1"@)
    } else if keycode == 120 {
        Some("f2"@)
    } else if keycode == 99 {
        Some("f3"@)
    } else if keycode == 118 {
        Some("f4"@)
    } else if keycode == 96 {
        Some("f5"@)
    } else if keycode == 97 {
        Some("f6"@)
    } else if keycode == 98 {
        Some("f7"@)
    } else if keycode == 100 {
        Some("f8"@)
    } else if keycode == 101 {
        Some("f9"@)
    } else if keycode == 109 {
        Some("f10"@)
    } else if keycode == 103 {
        Some("f11"@)
    } else if keycode == 111 {
        Some("f12"@)
    } else {
        None
    }
}

/// The token named by a macOS virtual keycode.
pub fn key_token_from_keycode(keycode: i64) -> (r: Option<String>)
    ensures
        r is Some <==> spec_key_token_from_keycode(keycode) is Some,
        r matches Some(s) ==> spec_key_token_from_keycode(keycode) == Some(s@),
{
    if keycode == 36 {
        Some("enter".to_owned())
    } else if keycode == 48 {
        Some("tab".to_owned())
    } else if keycode == 49 {
        Some("space".to_owned())
    } else if keycode == 51 {
        Some("backspace".to_owned())
    } else if keycode == 53 {
        Some("escape".to_owned())
    } else if keycode == 123 {
        Some("left".to_owned())
    } else if keycode == 124 {
        Some("right".to_owned())
    } else if keycode == 125 {
        Some("down".to_owned())
    } else if keycode == 126 {
        Some("up".to_owned())
    } else if keycode == 122 {
        Some("f1".to_owned())
    } else if keycode == 120 {
        Some("f2".to_owned())
    } else if keycode == 99 {
        Some("f3".to_owned())
    } else if keycode == 118 {
        Some("f4".to_owned())
    } else if keycode == 96 {
        Some("f5".to_owned())
    } else if keycode == 97 {
        Some("f6".to_owned())
    } else if keycode == 98 {
        Some("f7".to_owned())
    } else if keycode == 100 {
        Some("f8".to_owned())
    } else if keycode == 101 {
        Some("f9".to_owned())
    } else if keycode == 103 {
        Some("f11".to_owned())
    } else if keycode == 109 {
        Some("f10".to_owned())
    } else if keycode == 111 {
        Some("f12".to_owned())
    } else {
        None
    }
}

/// The token named by a Windows virtual-key code: letters and digits by
/// their character, function keys by name, and the punctuation the raw
/// input hook reports.
pub open spec fn spec_vkey_to_key_token(vkey: u16) -> Option<Seq<char>> {
    if 65 <= vkey <= 90 {
        Some(seq![((vkey + 32) as u8) as char])
    } else if 48 <= vkey <= 57 {
        Some(seq![(vkey as u8) as char])
    } else if vkey == 112 {
        Some("f1"@)
    } else if vkey == 113 {
        Some("f2"@)
    } else if vkey == 114 {
        Some("f3"@)
    } else if vkey == 115 {
        Some("f4"@)
    } else if vkey == 116 {
        Some("f5"@)
    } else if vkey == 117 {
        Some("f6"@)
    } else if vkey == 118 {
        Some("f7"@)
    } else if vkey == 119 {
        Some("f8"@)
    } else if vkey == 120 {
        Some("f9"@)
    } else if vkey == 121 {
        Some("f10"@)
    } else if vkey == 122 {
        Some("f11"@)
    } else if vkey == 123 {
        Some("f12"@)
    } else if vkey == 32 {
        Some("space"@)
    } else if vkey == 13 {
        Some("enter"@)
    } else if vkey == 9 {
        Some("tab"@)
    } else if vkey == 27 {
        Some("escape"@)
    } else if vkey == 8 {
        Some("backspace"@)
    } else if vkey == 189 {
        Some("-"@)
    } else if vkey == 187 {
        Some("="@)
    } else if vkey == 188 {
        Some(","@)
    } else if vkey == 190 {
        Some("."@)
    } else if vkey == 186 {
        Some(";"@)
    } else if vkey == 191 {
        Some("/"@)
    } else if vkey == 192 {
        Some("`"@)
    } else if vkey == 219 {
        Some("["@)
    } else if vkey == 220 {
        Some("\\"@)
    } else if vkey == 221 {
        Some("]"@)
    } else if vkey == 222 {
        Some("'"@)
    } else {
        None
    }
}

/// The token named by a Windows virtual-key code.
pub fn vkey_to_key_token(vkey: u16) -> (r: Option<String>)
    ensures
        r is Some <==> spec_vkey_to_key_token(vkey) is Some,
        r matches Some(s) ==> spec_vkey_to_key_token(vkey) == Some(s@),
{
    if 65 <= vkey && vkey <= 90 {
        let c: char = ((vkey + 32) as u8) as char;
        let mut v: Vec<char> = Vec::new();
        v.push(c);
        proof {
            assert(v@ =~= seq![c]);
        }
        return Some(chars_to_string(&v));
    }
    if 48 <= vkey && vkey <= 57 {
        let c: char = (vkey as u8) as char;
        let mut v: Vec<char> = Vec::new();
        v.push(c);
        proof {
            assert(v@ =~= seq![c]);
        }
        return Some(chars_to_string(&v));
    }
    if vkey == 112 {
        Some("f1".to_owned())
    } else if vkey == 113 {
        Some("f2".to_owned())
    } else if vkey == 114 {
        Some("f3".to_owned())
    } else if vkey == 115 {
        Some("f4".to_owned())
    } else if vkey == 116 {
        Some("f5".to_owned())
    } else if vkey == 117 {
        Some("f6".to_owned())
    } else if vkey == 118 {
        Some("f7".to_owned())
    } else if vkey == 119 {
        Some("f8".to_owned())
    } else if vkey == 120 {
        Some("f9".to_owned())
    } else if vkey == 121 {
        Some("f10".to_owned())
    } else if vkey == 122 {
        Some("f11".to_owned())
    } else if vkey == 123 {
        Some("f12".to_owned())
    } else if vkey == 32 {
        Some("space".to_owned())
    } else if vkey == 13 {
        Some("enter".to_owned())
    } else if vkey == 9 {
        Some("tab".to_owned())
    } else if vkey == 27 {
        Some("escape".to_owned())
    } else if vkey == 8 {
        Some("backspace".to_owned())
    } else if vkey == 189 {
        Some("-".to_owned())
    } else if vkey == 187 {
        Some("=".to_owned())
    } else if vkey == 188 {
        Some(",".to_owned())
    } else if vkey == 190 {
        Some(".".to_owned())
    } else if vkey == 186 {
        Some(";".to_owned())
    } else if vkey == 191 {
        Some("/".to_owned())
    } else if vkey == 192 {
        Some("`".to_owned())
    } else if vkey == 219 {
        Some("[".to_owned())
    } else if vkey == 220 {
        Some("\\".to_owned())
    } else if vkey == 221 {
        Some("]".to_owned())
    } else if vkey == 222 {
        Some("'".to_owned())
    } else {
        None
    }
}

/// Whether a raw-input report names the `fn` key: the configured
/// virtual-key override first, else the configured make-code override,
/// else the best-effort default virtual keys some keyboards use for `fn`.
pub fn is_fn_key(
    vkey: u16,
    makecode: u16,
    vkey_override: Option<u16>,
    makecode_override: Option<u16>,
) -> (r: bool)
    ensures
        r == (match vkey_override {
            Some(v) => vkey == v,
            None => match makecode_override {
                Some(m) => makecode == m,
                None => vkey == 135 || vkey == 134 || vkey == 133,
            },
        }),
{
    if let Some(v) = vkey_override {
        return vkey == v;
    }
    if let Some(m) = makecode_override {
        return makecode == m;
    }
    vkey == 135 || vkey == 134 || vkey == 133
}

/// The configured shortcuts, parsed, with the defaults standing in for
/// strings that do not parse.
pub fn load_shortcuts(store: &AppStore) -> (r: (ShortcutSpec, ShortcutSpec))
    ensures
        r.0@ == (match spec_parse(store.settings.shortcuts.push_to_talk@) {
            Some(p) => p,
            None => ShortcutModel { fn_key: true, ..empty_shortcut() },
        }),
        r.1@ == (match spec_parse(store.settings.shortcuts.hands_free_toggle@) {
            Some(p) => p,
            None => ShortcutModel { fn_key: true, key: Some("space"@), ..empty_shortcut() },
        }),
{
    let push = match parse_shortcut(store.settings.shortcuts.push_to_talk.as_str()) {
        Ok(p) => p,
        Err(_) => fallback_push_spec(),
    };
    let hands_free = match parse_shortcut(store.settings.shortcuts.hands_free_toggle.as_str()) {
        Ok(p) => p,
        Err(_) => fallback_hands_free_spec(),
    };
    (push, hands_free)
}

} // verus!
