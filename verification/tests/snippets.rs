use openwispr::snippets::{apply_snippets, apply_snippets_now};
use openwispr::store::Snippet;

fn snip(trigger: &str, expansion: &str) -> Snippet {
    Snippet { trigger: trigger.to_string(), expansion: expansion.to_string() }
}

#[test]
fn triggers_expand_case_insensitively() {
    let snippets = vec![snip("brb", "be right back")];
    let out = apply_snippets("BRB, ok Brb", &snippets, "2024-03-02", "14:05");
    assert_eq!(out, "be right back, ok be right back");
}

#[test]
fn longer_triggers_win_over_their_prefixes() {
    // The longer trigger applies first, so the shorter one cannot shadow
    // it.
    let snippets = vec![snip("sig", "S"), snip("sigfull", "my full autograph")];
    let out = apply_snippets("sigfull and sig", &snippets, "2024-03-02", "14:05");
    assert_eq!(out, "my full autograph and S");
}

#[test]
fn date_and_time_tokens_are_substituted() {
    let snippets = vec![snip("today", "it is {{date}} at {{time}}")];
    let out = apply_snippets("today", &snippets, "2024-03-02", "14:05");
    assert_eq!(out, "it is 2024-03-02 at 14:05");
}

#[test]
fn empty_triggers_are_skipped() {
    let snippets = vec![snip("", "boom"), snip("hi", "hello")];
    let out = apply_snippets("hi there", &snippets, "2024-03-02", "14:05");
    assert_eq!(out, "hello there");
}

#[test]
fn expansion_is_idempotent_when_expansions_hold_no_triggers() {
    let snippets = vec![snip("addr", "12 Main Street"), snip("brb", "be right back")];
    let once = apply_snippets("addr, brb!", &snippets, "2024-03-02", "14:05");
    let twice = apply_snippets(&once, &snippets, "2024-03-02", "14:05");
    assert_eq!(once, twice);
    assert_eq!(once, "12 Main Street, be right back!");
}

#[test]
fn no_snippets_leave_the_text_alone() {
    let out = apply_snippets_now("nothing to expand", &Vec::new());
    assert_eq!(out, "nothing to expand");
}

#[test]
fn replacement_scans_left_to_right_without_overlap() {
    let snippets = vec![snip("aa", "b")];
    let out = apply_snippets("aaa", &snippets, "2024-03-02", "14:05");
    assert_eq!(out, "ba");
}
