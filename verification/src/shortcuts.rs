//! Shortcut specifications: parsing, normalisation and formatting of
//! strings such as `"fn+space"` or `"Ctrl + Shift + K"`.
//!
//! A specification names any subset of the five modifiers and at most one
//! non-modifier key. `normalize_shortcut` lowercases and compacts a raw
//! string; `parse_shortcut` reads it into a [`ShortcutSpec`];
//! `format_shortcut` renders a spec in canonical order.

use vstd::prelude::*;

use crate::text::{
    chars_to_string, is_space, join_chars, lower, lower_char, lower_chars, spec_contains_char,
    spec_join, spec_split, spec_trim, split_chars, str_to_chars, trim_chars, views,
};
use crate::text::{
    lemma_lower_props, lemma_split_parts_no_sep, lemma_trim_is_infix, lemma_trim_props,
};

verus! {

/// A parsed shortcut: five modifier flags and at most one non-modifier key.
#[derive(Debug, Clone, PartialEq, Eq)]
pub struct ShortcutSpec {
    pub fn_key: bool,
    pub ctrl: bool,
    pub shift: bool,
    pub alt: bool,
    pub meta: bool,
    pub key: Option<String>,
}

/// The mathematical model of a [`ShortcutSpec`].
pub struct ShortcutModel {
    pub fn_key: bool,
    pub ctrl: bool,
    pub shift: bool,
    pub alt: bool,
    pub meta: bool,
    pub key: Option<Seq<char>>,
}

impl View for ShortcutSpec {
    type V = ShortcutModel;

    open spec fn view(&self) -> ShortcutModel {
        ShortcutModel {
            fn_key: self.fn_key,
            ctrl: self.ctrl,
            shift: self.shift,
            alt: self.alt,
            meta: self.meta,
            key: match self.key {
                Some(ref k) => Some(k@),
                None => None,
            },
        }
    }
}

impl Default for ShortcutSpec {
    /// The empty shortcut: no modifiers, no key.
    fn default() -> (r: Self)
        ensures
            r@ == empty_shortcut(),
    {
        ShortcutSpec { fn_key: false, ctrl: false, shift: false, alt: false, meta: false, key: None }
    }
}

/// The model of the empty shortcut.
pub open spec fn empty_shortcut() -> ShortcutModel {
    ShortcutModel { fn_key: false, ctrl: false, shift: false, alt: false, meta: false, key: None }
}

/// The normalised tokens drawn from `parts[i..]`: each part trimmed and
/// lowercased, empty parts dropped.
pub open spec fn norm_tokens_from(parts: Seq<Seq<char>>, i: int) -> Seq<Seq<char>>
    decreases parts.len() - i when 0 <= i <= parts.len()
{
    if i >= parts.len() {
        Seq::empty()
    } else {
        let t = lower(spec_trim(parts[i]));
        if t.len() == 0 {
            norm_tokens_from(parts, i + 1)
        } else {
            seq![t] + norm_tokens_from(parts, i + 1)
        }
    }
}

/// The normalised tokens of a raw shortcut string: its `'+'`-separated
/// parts, trimmed and lowercased, with empty parts dropped.
pub open spec fn norm_tokens(s: Seq<char>) -> Seq<Seq<char>> {
    norm_tokens_from(spec_split(s, '+'), 0)
}

/// The normalised form of a raw shortcut string.
pub open spec fn normalize_spec(s: Seq<char>) -> Seq<char> {
    spec_join(norm_tokens(s), '+')
}

/// Whether `t` is a spelling of a modifier.
pub open spec fn is_tok_fn(t: Seq<char>) -> bool {
    t == "fn"@
}

pub open spec fn is_tok_ctrl(t: Seq<char>) -> bool {
    t == "ctrl"@ || t == "control"@
}

pub open spec fn is_tok_shift(t: Seq<char>) -> bool {
    t == "shift"@
}

pub open spec fn is_tok_alt(t: Seq<char>) -> bool {
    t == "alt"@ || t == "option"@
}

pub open spec fn is_tok_meta(t: Seq<char>) -> bool {
    t == "meta"@ || t == "cmd"@ || t == "command"@ || t == "win"@ || t == "super"@
}

/// Whether `t` is any modifier spelling.
pub open spec fn is_modifier_token(t: Seq<char>) -> bool {
    is_tok_fn(t) || is_tok_ctrl(t) || is_tok_shift(t) || is_tok_alt(t) || is_tok_meta(t)
}

/// One parsing step: fold a normalised token into the model, failing when a
/// second non-modifier key appears.
pub open spec fn apply_token(cur: ShortcutModel, t: Seq<char>) -> Option<ShortcutModel> {
    if is_tok_fn(t) {
        Some(ShortcutModel { fn_key: true, ..cur })
    } else if is_tok_ctrl(t) {
        Some(ShortcutModel { ctrl: true, ..cur })
    } else if is_tok_shift(t) {
        Some(ShortcutModel { shift: true, ..cur })
    } else if is_tok_alt(t) {
        Some(ShortcutModel { alt: true, ..cur })
    } else if is_tok_meta(t) {
        Some(ShortcutModel { meta: true, ..cur })
    } else if cur.key is Some {
        None
    } else {
        Some(ShortcutModel { key: Some(t), ..cur })
    }
}

/// Fold the tokens `toks[i..]` into the model `cur`.
pub open spec fn parse_from(toks: Seq<Seq<char>>, i: int, cur: ShortcutModel) -> Option<
    ShortcutModel,
>
    decreases toks.len() - i when 0 <= i <= toks.len()
{
    if i >= toks.len() {
        Some(cur)
    } else {
        match apply_token(cur, toks[i]) {
            None => None,
            Some(nxt) => parse_from(toks, i + 1, nxt),
        }
    }
}

/// What parsing a raw shortcut string yields: the fold of its normalised
/// tokens, or nothing when the string has no tokens or names two keys.
pub open spec fn spec_parse(s: Seq<char>) -> Option<ShortcutModel> {
    if norm_tokens(s).len() == 0 {
        None
    } else {
        parse_from(norm_tokens(s), 0, empty_shortcut())
    }
}

/// A token as parsing leaves it: nonempty, free of `'+'`, without
/// whitespace at either end, and already lowercase.
pub open spec fn wf_token(t: Seq<char>) -> bool {
    &&& t.len() > 0
    &&& !spec_contains_char(t, '+')
    &&& !is_space(t[0])
    &&& !is_space(t[t.len() - 1])
    &&& lower(t) == t
}

/// A model as parsing leaves it: its key, if any, is a well-formed token
/// that is not a modifier spelling.
pub open spec fn wf_shortcut(p: ShortcutModel) -> bool {
    match p.key {
        Some(k) => wf_token(k) && !is_modifier_token(k),
        None => true,
    }
}

/// Whether the model binds anything at all.
pub open spec fn has_binding(p: ShortcutModel) -> bool {
    p.fn_key || p.ctrl || p.shift || p.alt || p.meta || p.key is Some
}

/// The canonical rendering order: `fn`, `ctrl`, `shift`, `alt`, `meta`,
/// then the key.
pub open spec fn canonical_tokens(p: ShortcutModel) -> Seq<Seq<char>> {
    (if p.fn_key {
        seq!["fn"@]
    } else {
        Seq::empty()
    }) + (if p.ctrl {
        seq!["ctrl"@]
    } else {
        Seq::empty()
    }) + (if p.shift {
        seq!["shift"@]
    } else {
        Seq::empty()
    }) + (if p.alt {
        seq!["alt"@]
    } else {
        Seq::empty()
    }) + (if p.meta {
        seq!["meta"@]
    } else {
        Seq::empty()
    }) + (match p.key {
        Some(k) => seq![k],
        None => Seq::empty(),
    })
}

/// What formatting a model yields: its canonical tokens joined with `'+'`.
pub open spec fn spec_format(p: ShortcutModel) -> Seq<char> {
    spec_join(canonical_tokens(p), '+')
}

/// The normalised tokens of a raw shortcut string, as character vectors.
fn shortcut_tokens(raw: &str) -> (r: Vec<Vec<char>>)
    ensures
        views(r@) == norm_tokens(raw@),
{
    let chars = str_to_chars(raw);
    let parts = split_chars(&chars, '+');
    let ghost ps = views(parts@);
    let mut r: Vec<Vec<char>> = Vec::new();
    let mut i: usize = 0;
    while i < parts.len()
        invariant
            i <= parts@.len(),
            ps == views(parts@),
            ps == spec_split(raw@, '+'),
            norm_tokens(raw@) == views(r@) + norm_tokens_from(ps, i as int),
        decreases parts@.len() - i,
    {
        let t = trim_chars(&parts[i]);
        let t = lower_chars(&t);
        if t.len() > 0 {
            r.push(t);
        }
        i = i + 1;
        proof {
            assert(norm_tokens(raw@) =~~= views(r@) + norm_tokens_from(ps, i as int));
        }
    }
    proof {
        assert(views(r@) =~= norm_tokens(raw@));
    }
    r
}

/// Normalise a raw shortcut string: split on `'+'`, trim and lowercase each
/// part, drop empty parts, and re-join with `'+'`.
pub fn normalize_shortcut(raw: &str) -> (r: String)
    ensures
        r@ == normalize_spec(raw@),
{
    let toks = shortcut_tokens(raw);
    let joined = join_chars(&toks, '+');
    chars_to_string(&joined)
}

/// Whether a character vector spells out the given literal.
fn tok_is(t: &Vec<char>, lit: &str) -> (r: bool)
    ensures
        r == (t@ == lit@),
{
    let l = str_to_chars(lit);
    crate::text::chars_eq(t, &l)
}

/// Every normalised token is well formed.
proof fn lemma_norm_tokens_from_wf(parts: Seq<Seq<char>>, i: int)
    requires
        0 <= i <= parts.len(),
        forall|k: int| 0 <= k < parts.len() ==> !spec_contains_char(#[trigger] parts[k], '+'),
    ensures
        forall|k: int|
            0 <= k < norm_tokens_from(parts, i).len() ==> wf_token(
                #[trigger] norm_tokens_from(parts, i)[k],
            ),
    decreases parts.len() - i,
{
    if i < parts.len() {
        lemma_norm_tokens_from_wf(parts, i + 1);
        let part = parts[i];
        let trimmed = spec_trim(part);
        let t = lower(trimmed);
        if t.len() > 0 {
            lemma_trim_props(part);
            lemma_lower_props(trimmed);
            assert(t.len() == trimmed.len());
            assert(!is_space(t[0]) && !is_space(t[t.len() - 1]));
            assert(lower(t) == t);
            lemma_trim_is_infix(part);
            let (a, b): (int, int) = choose|a: int, b: int|
                0 <= a <= b <= part.len() && trimmed == #[trigger] part.subrange(a, b);
            assert(!spec_contains_char(part, '+'));
            assert forall|m: int| 0 <= m < trimmed.len() implies trimmed[m] != '+' by {
                assert(trimmed[m] == part[a + m]);
            }
            assert(!spec_contains_char(t, '+'));
            assert(wf_token(t));
            let whole = norm_tokens_from(parts, i);
            let rest = norm_tokens_from(parts, i + 1);
            assert(whole == seq![t] + rest);
            assert(whole[0] == t);
            assert(forall|k: int| 1 <= k < whole.len() ==> whole[k] == rest[k - 1]);
        }
    }
}

/// Every token of a normalised shortcut string is well formed.
pub proof fn lemma_norm_tokens_wf(s: Seq<char>)
    ensures
        forall|k: int|
            0 <= k < norm_tokens(s).len() ==> wf_token(#[trigger] norm_tokens(s)[k]),
{
    lemma_split_parts_no_sep(s, '+', 0, 0);
    lemma_norm_tokens_from_wf(spec_split(s, '+'), 0);
}

/// Parse a raw shortcut string.
///
/// Succeeds exactly when the string holds at least one token and at most
/// one non-modifier key; the parsed spec is the fold of the normalised
/// tokens over the empty spec.
pub fn parse_shortcut(raw: &str) -> (r: Result<ShortcutSpec, String>)
    ensures
        r matches Ok(p) ==> spec_parse(raw@) == Some(p@) && wf_shortcut(p@) && has_binding(p@),
        r is Err ==> spec_parse(raw@) is None,
        r matches Err(e) ==> (norm_tokens(raw@).len() == 0 ==> e@
            == "Shortcut cannot be empty"@) && (norm_tokens(raw@).len() != 0 ==> e@
            == "Shortcut can include only one non-modifier key"@),
{
    let toks = shortcut_tokens(raw);
    if toks.len() == 0 {
        return Err("Shortcut cannot be empty".to_owned());
    }
    let ghost ts = views(toks@);
    proof {
        lemma_norm_tokens_wf(raw@);
    }
    let mut cur = ShortcutSpec::default();
    let mut i: usize = 0;
    while i < toks.len()
        invariant
            i <= toks@.len(),
            ts == views(toks@),
            ts == norm_tokens(raw@),
            ts.len() > 0,
            forall|k: int| 0 <= k < ts.len() ==> wf_token(#[trigger] ts[k]),
            parse_from(ts, i as int, cur@) == parse_from(ts, 0, empty_shortcut()),
            wf_shortcut(cur@),
            i > 0 ==> has_binding(cur@),
        decreases toks@.len() - i,
    {
        let t = &toks[i];
        proof {
            assert(ts[i as int] == t@);
        }
        if tok_is(t, "fn") {
            cur.fn_key = true;
        } else if tok_is(t, "ctrl") || tok_is(t, "control") {
            cur.ctrl = true;
        } else if tok_is(t, "shift") {
            cur.shift = true;
        } else if tok_is(t, "alt") || tok_is(t, "option") {
            cur.alt = true;
        } else if tok_is(t, "meta") || tok_is(t, "cmd") || tok_is(t, "command") || tok_is(t, "win")
            || tok_is(t, "super") {
            cur.meta = true;
        } else {
            if cur.key.is_some() {
                return Err("Shortcut can include only one non-modifier key".to_owned());
            }
            cur.key = Some(chars_to_string(t));
        }
        i = i + 1;
    }
    Ok(cur)
}

/// Render a shortcut spec in canonical order, tokens joined with `'+'`.
pub fn format_shortcut(sc: &ShortcutSpec) -> (r: String)
    ensures
        r@ == spec_format(sc@),
{
    let mut toks: Vec<Vec<char>> = Vec::new();
    if sc.fn_key {
        toks.push(str_to_chars("fn"));
    }
    if sc.ctrl {
        toks.push(str_to_chars("ctrl"));
    }
    if sc.shift {
        toks.push(str_to_chars("shift"));
    }
    if sc.alt {
        toks.push(str_to_chars("alt"));
    }
    if sc.meta {
        toks.push(str_to_chars("meta"));
    }
    match &sc.key {
        Some(k) => {
            toks.push(str_to_chars(k.as_str()));
        },
        None => {},
    }
    proof {
        assert(views(toks@) =~~= canonical_tokens(sc@));
    }
    let joined = join_chars(&toks, '+');
    chars_to_string(&joined)
}

/// Folding from position `i` folds the suffix of the tokens.
proof fn lemma_parse_from_skip(toks: Seq<Seq<char>>, i: int, cur: ShortcutModel)
    requires
        0 <= i <= toks.len(),
    ensures
        parse_from(toks, i, cur) == parse_from(toks.skip(i), 0, cur),
    decreases toks.len() - i,
{
    let suf = toks.skip(i);
    if i < toks.len() {
        assert(suf[0] == toks[i]);
        match apply_token(cur, toks[i]) {
            None => {},
            Some(nxt) => {
                lemma_parse_from_skip(toks, i + 1, nxt);
                lemma_parse_from_skip(suf, 1, nxt);
                assert(suf.skip(1) =~= toks.skip(i + 1));
            },
        }
    } else {
        assert(suf.len() == 0);
    }
}

/// Folding a concatenation folds the first part, then the second.
proof fn lemma_parse_from_append(a: Seq<Seq<char>>, b: Seq<Seq<char>>, cur: ShortcutModel)
    ensures
        parse_from(a + b, 0, cur) == match parse_from(a, 0, cur) {
            None => None::<ShortcutModel>,
            Some(m) => parse_from(b, 0, m),
        },
    decreases a.len(),
{
    let ab = a + b;
    if a.len() == 0 {
        assert(ab =~= b);
    } else {
        assert(ab[0] == a[0]);
        match apply_token(cur, a[0]) {
            None => {},
            Some(nxt) => {
                lemma_parse_from_skip(ab, 1, nxt);
                assert(ab.skip(1) =~= a.skip(1) + b);
                lemma_parse_from_append(a.skip(1), b, nxt);
                lemma_parse_from_skip(a, 1, nxt);
            },
        }
    }
}

/// A successful fold of well-formed tokens leaves a well-formed, non-empty
/// model.
proof fn lemma_parse_from_wf(toks: Seq<Seq<char>>, i: int, cur: ShortcutModel)
    requires
        0 <= i <= toks.len(),
        forall|k: int| 0 <= k < toks.len() ==> wf_token(#[trigger] toks[k]),
        wf_shortcut(cur),
    ensures
        parse_from(toks, i, cur) matches Some(q) ==> wf_shortcut(q) && (has_binding(cur)
            ==> has_binding(q)) && (i < toks.len() ==> has_binding(q)),
    decreases toks.len() - i,
{
    if i < toks.len() {
        match apply_token(cur, toks[i]) {
            None => {},
            Some(nxt) => {
                lemma_parse_from_wf(toks, i + 1, nxt);
            },
        }
    }
}

/// What parsing promises of its result: the key, if any, is a well-formed
/// non-modifier token, and something is bound.
pub proof fn lemma_parse_wf(s: Seq<char>, p: ShortcutModel)
    requires
        spec_parse(s) == Some(p),
    ensures
        wf_shortcut(p),
        has_binding(p),
{
    lemma_norm_tokens_wf(s);
    lemma_parse_from_wf(norm_tokens(s), 0, empty_shortcut());
}

/// The five canonical modifier spellings are well-formed tokens.
proof fn lemma_modifier_literals_wf()
    ensures
        wf_token("fn"@),
        wf_token("ctrl"@),
        wf_token("shift"@),
        wf_token("alt"@),
        wf_token("meta"@),
{
    reveal_strlit("fn");
    reveal_strlit("ctrl");
    reveal_strlit("shift");
    reveal_strlit("alt");
    reveal_strlit("meta");
    lemma_lit_wf("fn"@);
    lemma_lit_wf("ctrl"@);
    lemma_lit_wf("shift"@);
    lemma_lit_wf("alt"@);
    lemma_lit_wf("meta"@);
}

/// A nonempty sequence of lowercase ASCII letters is a well-formed token.
proof fn lemma_lit_wf(t: Seq<char>)
    requires
        t.len() > 0,
        forall|i: int| 0 <= i < t.len() ==> 'a' <= #[trigger] t[i] <= 'z',
    ensures
        wf_token(t),
{
    assert(!spec_contains_char(t, '+'));
    assert(forall|i: int| 0 <= i < t.len() ==> lower_char(#[trigger] t[i]) == t[i]);
    crate::text::lemma_lower_fixed(t);
}

/// Normalising already-normalised tokens changes nothing.
pub(crate) proof fn lemma_norm_tokens_from_id(parts: Seq<Seq<char>>, i: int)
    requires
        0 <= i <= parts.len(),
        forall|k: int| 0 <= k < parts.len() ==> wf_token(#[trigger] parts[k]),
    ensures
        norm_tokens_from(parts, i) == parts.skip(i),
    decreases parts.len() - i,
{
    let suf = parts.skip(i);
    if i < parts.len() {
        lemma_norm_tokens_from_id(parts, i + 1);
        let part = parts[i];
        crate::text::lemma_trim_fixed(part);
        let t = lower(spec_trim(part));
        assert(t == part);
        assert(norm_tokens_from(parts, i) == seq![part] + parts.skip(i + 1));
        assert(norm_tokens_from(parts, i) =~= suf);
    } else {
        assert(suf.len() == 0);
        assert(norm_tokens_from(parts, i) =~= suf);
    }
}

/// The canonical tokens of a well-formed model are all well-formed, and
/// there is at least one exactly when the model binds something.
proof fn lemma_canonical_tokens_wf(p: ShortcutModel)
    requires
        wf_shortcut(p),
    ensures
        forall|k: int|
            0 <= k < canonical_tokens(p).len() ==> wf_token(#[trigger] canonical_tokens(p)[k]),
        canonical_tokens(p).len() > 0 <==> has_binding(p),
{
    lemma_modifier_literals_wf();
    let toks = canonical_tokens(p);
    assert forall|k: int| 0 <= k < toks.len() implies wf_token(#[trigger] toks[k]) by {
        assert(is_tok_fn(toks[k]) || is_tok_ctrl(toks[k]) || is_tok_shift(toks[k]) || is_tok_alt(
            toks[k],
        ) || is_tok_meta(toks[k]) || (p.key matches Some(key) && toks[k] == key));
    }
}

/// The normalised tokens of a formatted well-formed model are exactly its
/// canonical tokens.
proof fn lemma_format_tokens(p: ShortcutModel)
    requires
        wf_shortcut(p),
        has_binding(p),
    ensures
        norm_tokens(spec_format(p)) == canonical_tokens(p),
{
    let toks = canonical_tokens(p);
    lemma_canonical_tokens_wf(p);
    assert(forall|k: int|
        0 <= k < toks.len() ==> !spec_contains_char(#[trigger] toks[k], '+'));
    crate::text::lemma_split_join(toks, '+');
    lemma_norm_tokens_from_id(toks, 0);
    assert(toks.skip(0) =~= toks);
}

/// Folding a single token is one application of [`apply_token`].
pub(crate) proof fn lemma_parse_singleton(t: Seq<char>, cur: ShortcutModel)
    ensures
        parse_from(seq![t], 0, cur) == apply_token(cur, t),
{
    assert(seq![t][0] == t);
    match apply_token(cur, t) {
        None => {},
        Some(nxt) => {
            assert(parse_from(seq![t], 1, nxt) == Some(nxt));
        },
    }
}

/// Folding the canonical tokens of a well-formed model recovers the model.
proof fn lemma_parse_canonical(p: ShortcutModel)
    requires
        wf_shortcut(p),
        has_binding(p),
    ensures
        parse_from(canonical_tokens(p), 0, empty_shortcut()) == Some(p),
{
    reveal_strlit("fn");
    reveal_strlit("ctrl");
    reveal_strlit("shift");
    reveal_strlit("alt");
    reveal_strlit("meta");
    reveal_strlit("control");
    reveal_strlit("option");
    reveal_strlit("cmd");
    reveal_strlit("command");
    reveal_strlit("win");
    reveal_strlit("super");
    // The literals' lengths, and one character where lengths agree, tell the
    // modifier spellings apart.
    assert("fn"@.len() == 2 && "ctrl"@.len() == 4 && "control"@.len() == 7 && "shift"@.len() == 5
        && "alt"@.len() == 3 && "option"@.len() == 6 && "meta"@.len() == 4 && "cmd"@.len() == 3
        && "command"@.len() == 7 && "win"@.len() == 3 && "super"@.len() == 5);
    assert("meta"@[0] == 'm' && "ctrl"@[0] == 'c');
    let pa = if p.fn_key {
        seq!["fn"@]
    } else {
        Seq::<Seq<char>>::empty()
    };
    let pb = if p.ctrl {
        seq!["ctrl"@]
    } else {
        Seq::<Seq<char>>::empty()
    };
    let pc = if p.shift {
        seq!["shift"@]
    } else {
        Seq::<Seq<char>>::empty()
    };
    let pd = if p.alt {
        seq!["alt"@]
    } else {
        Seq::<Seq<char>>::empty()
    };
    let pe = if p.meta {
        seq!["meta"@]
    } else {
        Seq::<Seq<char>>::empty()
    };
    let pk = match p.key {
        Some(k) => seq![k],
        None => Seq::<Seq<char>>::empty(),
    };
    let m0 = empty_shortcut();
    let m1 = ShortcutModel { fn_key: p.fn_key, ..m0 };
    let m2 = ShortcutModel { ctrl: p.ctrl, ..m1 };
    let m3 = ShortcutModel { shift: p.shift, ..m2 };
    let m4 = ShortcutModel { alt: p.alt, ..m3 };
    let m5 = ShortcutModel { meta: p.meta, ..m4 };
    if p.fn_key {
        lemma_parse_singleton("fn"@, m0);
    }
    assert(parse_from(pa, 0, m0) == Some(m1));
    if p.ctrl {
        lemma_parse_singleton("ctrl"@, m1);
    }
    assert(parse_from(pb, 0, m1) == Some(m2));
    if p.shift {
        lemma_parse_singleton("shift"@, m2);
    }
    assert(parse_from(pc, 0, m2) == Some(m3));
    if p.alt {
        lemma_parse_singleton("alt"@, m3);
    }
    assert(parse_from(pd, 0, m3) == Some(m4));
    if p.meta {
        lemma_parse_singleton("meta"@, m4);
    }
    assert(parse_from(pe, 0, m4) == Some(m5));
    match p.key {
        Some(k) => {
            lemma_parse_singleton(k, m5);
        },
        None => {},
    }
    assert(parse_from(pk, 0, m5) == Some(p));
    lemma_parse_from_append(pa + pb + pc + pd + pe, pk, m0);
    lemma_parse_from_append(pa + pb + pc + pd, pe, m0);
    lemma_parse_from_append(pa + pb + pc, pd, m0);
    lemma_parse_from_append(pa + pb, pc, m0);
    lemma_parse_from_append(pa, pb, m0);
    assert(canonical_tokens(p) == pa + pb + pc + pd + pe + pk);
}

/// Law: parsing, formatting and parsing again is the same as parsing once.
/// Formatting loses nothing that parsing keeps: whatever `parse` reads out
/// of a string, it reads the same spec back out of `format`'s rendering.
pub proof fn lemma_parse_format_parse(s: Seq<char>, p: ShortcutModel)
    requires
        spec_parse(s) == Some(p),
    ensures
        spec_parse(spec_format(p)) == Some(p),
{
    lemma_parse_wf(s, p);
    lemma_format_round_trip(p);
}

/// Law: a well-formed, non-empty shortcut model survives a format / parse
/// round trip unchanged.
pub proof fn lemma_format_round_trip(p: ShortcutModel)
    requires
        wf_shortcut(p),
        has_binding(p),
    ensures
        spec_parse(spec_format(p)) == Some(p),
{
    lemma_format_tokens(p);
    lemma_canonical_tokens_wf(p);
    lemma_parse_canonical(p);
}

/// Law: formatting what was parsed gives back the normalised input on
/// exactly the accepted strings whose normalised tokens already stand in
/// canonical form. (On other accepted strings, such as one naming `ctrl`
/// before `fn` or naming a modifier twice, the two sides differ:
/// formatting canonicalises, normalising does not.)
pub proof fn lemma_format_parse_normalize(s: Seq<char>, p: ShortcutModel)
    requires
        spec_parse(s) == Some(p),
    ensures
        spec_format(p) == normalize_spec(s) <==> norm_tokens(s) == canonical_tokens(p),
{
    if spec_format(p) == normalize_spec(s) {
        // Both sides are joins of nonempty lists of tokens free of `'+'`,
        // and splitting the join recovers the tokens, so equal joins mean
        // equal token lists.
        lemma_parse_wf(s, p);
        lemma_norm_tokens_wf(s);
        lemma_canonical_tokens_wf(p);
        let a = norm_tokens(s);
        let b = canonical_tokens(p);
        assert(forall|k: int| 0 <= k < a.len() ==> !spec_contains_char(#[trigger] a[k], '+'));
        assert(forall|k: int| 0 <= k < b.len() ==> !spec_contains_char(#[trigger] b[k], '+'));
        crate::text::lemma_split_join(a, '+');
        crate::text::lemma_split_join(b, '+');
        assert(spec_split(spec_join(a, '+'), '+') == spec_split(spec_join(b, '+'), '+'));
    }
}

} // verus!
