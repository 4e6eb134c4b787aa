//! The persistent application state: user settings and the analytics
//! counters, together with the rules that update them. Reading and writing
//! the backing JSON document is the caller's concern; the library works on
//! the in-memory value.

use vstd::prelude::*;

use crate::clock::{days_between_dates, local_date_string, parsed_day_number};
use crate::shortcuts::{format_shortcut, parse_shortcut, spec_format, spec_parse, ShortcutSpec};
use crate::text::spec_word_count;

verus! {

/// The three configurable shortcut strings, kept in canonical form.
#[derive(Debug, Clone, PartialEq, Eq)]
pub struct ShortcutSettings {
    pub push_to_talk: String,
    pub hands_free_toggle: String,
    pub command_mode: String,
}

impl Default for ShortcutSettings {
    /// Push-to-talk on `fn`, hands-free toggle on `fn+space`, command mode
    /// on `fn+ctrl`.
    fn default() -> (r: Self)
        ensures
            r.push_to_talk@ == "fn"@,
            r.hands_free_toggle@ == "fn+space"@,
            r.command_mode@ == "fn+ctrl"@,
    {
        ShortcutSettings {
            push_to_talk: "fn".to_owned(),
            hands_free_toggle: "fn+space".to_owned(),
            command_mode: "fn+ctrl".to_owned(),
        }
    }
}

/// A user-defined abbreviation, expanded after formatting.
#[derive(Debug, Clone, PartialEq, Eq)]
pub struct Snippet {
    pub trigger: String,
    pub expansion: String,
}

/// User settings, as stored in the per-user state document.
#[derive(Debug, Clone)]
pub struct Settings {
    pub input_device: Option<String>,
    pub language: Option<String>,
    pub local_transcription_enabled: bool,
    pub llm_provider: Option<String>,
    pub ollama_base_url: Option<String>,
    pub ollama_model: Option<String>,
    pub shortcuts: ShortcutSettings,
    pub active_transcription_model: String,
    pub snippets: Vec<Snippet>,
    pub personal_dictionary: Vec<String>,
    pub text_formatting_enabled: bool,
    pub text_formatting_mode: String,
    pub system_llm_model: Option<String>,
    pub mute_system_audio: bool,
}

impl Default for Settings {
    fn default() -> (r: Self)
        ensures
            r.input_device is None,
            r.language matches Some(l) && l@ == "en"@,
            r.local_transcription_enabled,
            r.llm_provider matches Some(p) && p@ == "ollama"@,
            r.ollama_base_url matches Some(u) && u@ == "http://localhost:11434"@,
            r.ollama_model is None,
            r.shortcuts.push_to_talk@ == "fn"@,
            r.shortcuts.hands_free_toggle@ == "fn+space"@,
            r.shortcuts.command_mode@ == "fn+ctrl"@,
            r.active_transcription_model@ == "base"@,
            r.snippets@.len() == 0,
            r.personal_dictionary@.len() == 0,
            !r.text_formatting_enabled,
            r.text_formatting_mode@ == "smart"@,
            r.system_llm_model is None,
            !r.mute_system_audio,
    {
        Settings {
            input_device: None,
            language: Some("en".to_owned()),
            local_transcription_enabled: true,
            llm_provider: Some("ollama".to_owned()),
            ollama_base_url: Some("http://localhost:11434".to_owned()),
            ollama_model: None,
            shortcuts: ShortcutSettings::default(),
            active_transcription_model: "base".to_owned(),
            snippets: Vec::new(),
            personal_dictionary: Vec::new(),
            text_formatting_enabled: false,
            text_formatting_mode: "smart".to_owned(),
            system_llm_model: None,
            mute_system_audio: false,
        }
    }
}

/// Cumulative usage counters. Times are whole seconds.
#[derive(Debug, Clone)]
pub struct Analytics {
    pub lifetime_removed_sec: u64,
    pub sessions_count: u64,
    pub day_streak: u64,
    pub last_session_date: Option<String>,
    pub total_words: u64,
    pub total_seconds: u64,
}

impl Default for Analytics {
    fn default() -> (r: Self)
        ensures
            r.lifetime_removed_sec == 0,
            r.sessions_count == 0,
            r.day_streak == 0,
            r.last_session_date is None,
            r.total_words == 0,
            r.total_seconds == 0,
    {
        Analytics {
            lifetime_removed_sec: 0,
            sessions_count: 0,
            day_streak: 0,
            last_session_date: None,
            total_words: 0,
            total_seconds: 0,
        }
    }
}

/// The whole persistent state: analytics plus settings.
#[derive(Debug, Clone)]
pub struct AppStore {
    pub analytics: Analytics,
    pub settings: Settings,
}

impl Default for AppStore {
    fn default() -> (r: Self)
        ensures
            r.analytics.sessions_count == 0,
            r.settings.active_transcription_model@ == "base"@,
    {
        AppStore { analytics: Analytics::default(), settings: Settings::default() }
    }
}

/// Copy a string, keeping its characters.
pub fn clone_string(s: &String) -> (r: String)
    ensures
        r@ == s@,
{
    s.clone()
}

/// Copy an optional string, keeping its characters.
fn clone_opt_string(s: &Option<String>) -> (r: Option<String>)
    ensures
        r is Some <==> s is Some,
        r matches Some(x) ==> (s matches Some(y) && x@ == y@),
{
    match s {
        Some(x) => Some(clone_string(x)),
        None => None,
    }
}

/// The configured input-device id, if any.
pub fn get_input_device_id(store: &AppStore) -> (r: Option<String>)
    ensures
        r is Some <==> store.settings.input_device is Some,
        r matches Some(x) ==> (store.settings.input_device matches Some(y) && x@ == y@),
{
    clone_opt_string(&store.settings.input_device)
}

/// Remember the chosen input device.
pub fn set_input_device_id(store: &mut AppStore, device_id: String)
    ensures
        final(store).settings.input_device == Some(device_id),
        final(store).settings.shortcuts == old(store).settings.shortcuts,
        final(store).settings.active_transcription_model == old(
            store,
        ).settings.active_transcription_model,
        final(store).analytics == old(store).analytics,
{
    store.settings.input_device = Some(device_id);
}

/// The configured push-to-talk shortcut string.
pub fn push_to_talk_shortcut(store: &AppStore) -> (r: String)
    ensures
        r@ == store.settings.shortcuts.push_to_talk@,
{
    clone_string(&store.settings.shortcuts.push_to_talk)
}

/// The configured hands-free toggle shortcut string.
pub fn hands_free_toggle_shortcut(store: &AppStore) -> (r: String)
    ensures
        r@ == store.settings.shortcuts.hands_free_toggle@,
{
    clone_string(&store.settings.shortcuts.hands_free_toggle)
}

/// The name of the transcription model now in use.
pub fn active_model_value(store: &AppStore) -> (r: String)
    ensures
        r@ == store.settings.active_transcription_model@,
{
    clone_string(&store.settings.active_transcription_model)
}

/// The canonical rendering of a shortcut string, if it parses.
pub open spec fn canon_shortcut(s: Seq<char>) -> Option<Seq<char>> {
    match spec_parse(s) {
        None => None,
        Some(p) => Some(spec_format(p)),
    }
}

/// Validate and install the three shortcut strings.
///
/// Each is parsed and re-rendered canonically; push-to-talk and hands-free
/// must differ after that. On any failure the store is unchanged.
pub fn set_shortcuts(
    store: &mut AppStore,
    push_to_talk: &str,
    hands_free_toggle: &str,
    command_mode: &str,
) -> (r: Result<ShortcutSettings, String>)
    ensures
        r matches Ok(sh) ==> {
            &&& canon_shortcut(push_to_talk@) == Some(sh.push_to_talk@)
            &&& canon_shortcut(hands_free_toggle@) == Some(sh.hands_free_toggle@)
            &&& canon_shortcut(command_mode@) == Some(sh.command_mode@)
            &&& sh.push_to_talk@ != sh.hands_free_toggle@
            &&& final(store).settings.shortcuts.push_to_talk@ == sh.push_to_talk@
            &&& final(store).settings.shortcuts.hands_free_toggle@ == sh.hands_free_toggle@
            &&& final(store).settings.shortcuts.command_mode@ == sh.command_mode@
            &&& final(store).analytics == old(store).analytics
        },
        r is Err ==> *final(store) == *old(store) && (canon_shortcut(push_to_talk@) is None
            || canon_shortcut(hands_free_toggle@) is None || canon_shortcut(command_mode@) is None
            || canon_shortcut(push_to_talk@) == canon_shortcut(hands_free_toggle@)),
{
    let push = match parse_shortcut(push_to_talk) {
        Ok(p) => format_shortcut(&p),
        Err(e) => {
            return Err(e);
        },
    };
    let hands_free = match parse_shortcut(hands_free_toggle) {
        Ok(p) => format_shortcut(&p),
        Err(e) => {
            return Err(e);
        },
    };
    if crate::text::chars_eq(&crate::text::str_to_chars(push.as_str()), &crate::text::str_to_chars(
        hands_free.as_str(),
    )) {
        return Err("Push-to-talk and hands-free shortcuts must be different".to_owned());
    }
    let command = match parse_shortcut(command_mode) {
        Ok(p) => format_shortcut(&p),
        Err(e) => {
            return Err(e);
        },
    };
    let sh = ShortcutSettings {
        push_to_talk: push,
        hands_free_toggle: hands_free,
        command_mode: command,
    };
    let out = ShortcutSettings {
        push_to_talk: clone_string(&sh.push_to_talk),
        hands_free_toggle: clone_string(&sh.hands_free_toggle),
        command_mode: clone_string(&sh.command_mode),
    };
    store.settings.shortcuts = sh;
    proof {
        assert(out.push_to_talk@ == final(store).settings.shortcuts.push_to_talk@);
    }
    Ok(out)
}

/// `a + b`, stopping at the largest `u64`.
pub open spec fn sat_add(a: u64, b: u64) -> u64 {
    if a + b > u64::MAX {
        u64::MAX
    } else {
        (a + b) as u64
    }
}

/// `a * b`, stopping at the largest `u64`.
pub open spec fn sat_mul(a: u64, b: u64) -> u64 {
    if a * b > u64::MAX {
        u64::MAX
    } else {
        (a * b) as u64
    }
}

/// The day streak after a session on `today`, given the stored previous
/// session date and the signed day difference between the two (nothing when
/// either date fails to parse).
pub open spec fn streak_after(
    old_streak: u64,
    last: Option<Seq<char>>,
    today: Seq<char>,
    diff: Option<int>,
) -> u64 {
    match last {
        None => 1,
        Some(l) => if l == today {
            old_streak
        } else {
            match diff {
                Some(d) => if d == 1 {
                    sat_add(old_streak, 1)
                } else if d > 1 {
                    1
                } else {
                    old_streak
                },
                None => 1,
            }
        },
    }
}

/// Fold one completed session into the counters, given today's date and
/// the day difference from the previous session date.
///
/// Totals grow by the session's seconds and words; the "time saved"
/// counter grows by the seconds scaled with `saved_factor`; the streak
/// follows [`streak_after`]; the session date becomes `today`.
pub fn apply_session(
    a: &mut Analytics,
    duration_sec: u64,
    word_count: u64,
    saved_factor: u64,
    today: String,
    diff: Option<i64>,
)
    ensures
        final(a).total_words == sat_add(old(a).total_words, word_count),
        final(a).total_seconds == sat_add(old(a).total_seconds, duration_sec),
        final(a).lifetime_removed_sec == sat_add(
            old(a).lifetime_removed_sec,
            sat_mul(duration_sec, saved_factor),
        ),
        final(a).sessions_count == sat_add(old(a).sessions_count, 1),
        final(a).day_streak == streak_after(
            old(a).day_streak,
            match old(a).last_session_date {
                Some(ref l) => Some(l@),
                None => None,
            },
            today@,
            match diff {
                Some(d) => Some(d as int),
                None => None,
            },
        ),
        final(a).last_session_date == Some(today),
{
    a.total_words = a.total_words.saturating_add(word_count);
    a.total_seconds = a.total_seconds.saturating_add(duration_sec);
    proof {
        assert((duration_sec as int) * (saved_factor as int) <= (u64::MAX as int) * (
        u64::MAX as int)) by (nonlinear_arith)
            requires
                duration_sec <= u64::MAX,
                saved_factor <= u64::MAX,
        ;
    }
    let wide: u128 = (duration_sec as u128) * (saved_factor as u128);
    let scaled: u64 = if wide > u64::MAX as u128 {
        u64::MAX
    } else {
        wide as u64
    };
    proof {
        assert(scaled == sat_mul(duration_sec, saved_factor));
    }
    a.lifetime_removed_sec = a.lifetime_removed_sec.saturating_add(scaled);
    a.sessions_count = a.sessions_count.saturating_add(1);
    let streak: u64 = match &a.last_session_date {
        None => 1,
        Some(l) => {
            if crate::text::chars_eq(
                &crate::text::str_to_chars(l.as_str()),
                &crate::text::str_to_chars(today.as_str()),
            ) {
                a.day_streak
            } else {
                match diff {
                    Some(d) => {
                        if d == 1 {
                            a.day_streak.saturating_add(1)
                        } else if d > 1 {
                            1
                        } else {
                            a.day_streak
                        }
                    },
                    None => 1,
                }
            }
        },
    };
    a.day_streak = streak;
    a.last_session_date = Some(today);
}

/// Fold one completed session into the counters, dating it today.
///
/// The totals change exactly as [`apply_session`] says; the streak and
/// session date depend on the wall clock, so only the range of outcomes is
/// promised.
pub fn update_analytics(a: &mut Analytics, duration_sec: u64, word_count: u64, saved_factor: u64)
    ensures
        final(a).total_words == sat_add(old(a).total_words, word_count),
        final(a).total_seconds == sat_add(old(a).total_seconds, duration_sec),
        final(a).lifetime_removed_sec == sat_add(
            old(a).lifetime_removed_sec,
            sat_mul(duration_sec, saved_factor),
        ),
        final(a).sessions_count == sat_add(old(a).sessions_count, 1),
        final(a).last_session_date is Some,
        old(a).last_session_date is None ==> final(a).day_streak == 1,
        final(a).day_streak == old(a).day_streak || final(a).day_streak == sat_add(
            old(a).day_streak,
            1,
        ) || final(a).day_streak == 1,
{
    let today = local_date_string();
    let diff: Option<i64> = match &a.last_session_date {
        Some(l) => days_between_dates(l.as_str(), today.as_str()),
        None => None,
    };
    apply_session(a, duration_sec, word_count, saved_factor, today, diff);
}

/// Words in a transcript, as counted for the analytics.
pub fn transcript_word_count(text: &str) -> (r: usize)
    ensures
        r == spec_word_count(text@),
{
    crate::text::word_count(text)
}

} // verus!
