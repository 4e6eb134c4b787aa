//! Character-level text utilities shared by the parsing and formatting
//! modules. All logic works on `Vec<char>` so that contracts can speak of
//! `Seq<char>` directly; strings are converted at the public boundaries.

use vstd::prelude::*;

verus! {

/// The ASCII whitespace characters that the library trims and splits on.
pub open spec fn is_space(c: char) -> bool {
    c == ' ' || c == '\t' || c == '\n' || c == '\r'
}

/// Executable mirror of [`is_space`].
pub fn is_space_char(c: char) -> (r: bool)
    ensures
        r == is_space(c),
{
    c == ' ' || c == '\t' || c == '\n' || c == '\r'
}

/// ASCII lowercase of one character; other characters are unchanged.
pub open spec fn lower_char(c: char) -> char {
    if 'A' <= c && c <= 'Z' {
        ((c as u8) + 32) as char
    } else {
        c
    }
}

/// Sequence of ASCII-lowercased characters.
pub open spec fn lower(s: Seq<char>) -> Seq<char> {
    s.map_values(|c: char| lower_char(c))
}

/// Executable mirror of [`lower_char`].
pub fn lower_char_exec(c: char) -> (r: char)
    ensures
        r == lower_char(c),
{
    if 'A' <= c && c <= 'Z' {
        ((c as u8) + 32) as char
    } else {
        c
    }
}

/// The characters of a string slice, in order.
pub fn str_to_chars(s: &str) -> (r: Vec<char>)
    ensures
        r@ == s@,
{
    let n: usize = s.unicode_len();
    let mut r: Vec<char> = Vec::new();
    let mut i: usize = 0;
    while i < n
        invariant
            i <= n,
            n == s@.len(),
            r@ == s@.subrange(0, i as int),
        decreases n - i,
    {
        r.push(s.get_char(i));
        i = i + 1;
        proof {
            assert(r@ =~= s@.subrange(0, i as int));
        }
    }
    proof {
        assert(r@ =~= s@);
    }
    r
}

/// Relies on `String`'s `FromIterator<char>` impl: collecting characters
/// yields the string with exactly those characters, in order.
#[verifier::external_body]
pub fn chars_to_string(v: &Vec<char>) -> (r: String)
    ensures
        r@ == v@,
{
    v.iter().collect()
}

/// ASCII-lowercase a character vector.
pub fn lower_chars(v: &Vec<char>) -> (r: Vec<char>)
    ensures
        r@ == lower(v@),
{
    let mut r: Vec<char> = Vec::new();
    let mut i: usize = 0;
    while i < v.len()
        invariant
            i <= v@.len(),
            r@ == lower(v@.subrange(0, i as int)),
        decreases v@.len() - i,
    {
        r.push(lower_char_exec(v[i]));
        i = i + 1;
        proof {
            assert(r@ =~= lower(v@.subrange(0, i as int)));
        }
    }
    proof {
        assert(v@.subrange(0, v@.len() as int) =~= v@);
    }
    r
}

/// Whether two character vectors hold the same characters.
pub fn chars_eq(a: &Vec<char>, b: &Vec<char>) -> (r: bool)
    ensures
        r == (a@ == b@),
{
    if a.len() != b.len() {
        proof {
            assert(a@ != b@);
        }
        return false;
    }
    let mut i: usize = 0;
    while i < a.len()
        invariant
            i <= a@.len(),
            a@.len() == b@.len(),
            forall|j: int| 0 <= j < i ==> a@[j] == b@[j],
        decreases a@.len() - i,
    {
        if a[i] != b[i] {
            proof {
                assert(a@ != b@);
            }
            return false;
        }
        i = i + 1;
    }
    proof {
        assert(a@ =~= b@);
    }
    true
}

/// `s` with its leading ASCII whitespace removed.
pub open spec fn spec_trim_start(s: Seq<char>) -> Seq<char>
    decreases s.len(),
{
    if s.len() > 0 && is_space(s[0]) {
        spec_trim_start(s.skip(1))
    } else {
        s
    }
}

/// `s` with its trailing ASCII whitespace removed.
pub open spec fn spec_trim_end(s: Seq<char>) -> Seq<char>
    decreases s.len(),
{
    if s.len() > 0 && is_space(s[s.len() - 1]) {
        spec_trim_end(s.take(s.len() - 1))
    } else {
        s
    }
}

/// `s` with leading and trailing ASCII whitespace removed.
pub open spec fn spec_trim(s: Seq<char>) -> Seq<char> {
    spec_trim_end(spec_trim_start(s))
}

proof fn lemma_trim_start_skip(s: Seq<char>, i: int)
    requires
        0 <= i <= s.len(),
        forall|j: int| 0 <= j < i ==> is_space(s[j]),
    ensures
        spec_trim_start(s) == spec_trim_start(s.skip(i)),
    decreases i,
{
    if i > 0 {
        assert(s.skip(0) =~= s);
        lemma_trim_start_skip(s.skip(1), i - 1);
        assert(s.skip(1).skip(i - 1) =~= s.skip(i));
    } else {
        assert(s.skip(0) =~= s);
    }
}

proof fn lemma_trim_end_take(s: Seq<char>, i: int)
    requires
        0 <= i <= s.len(),
        forall|j: int| i <= j < s.len() ==> is_space(s[j]),
    ensures
        spec_trim_end(s) == spec_trim_end(s.take(i)),
    decreases s.len() - i,
{
    if i < s.len() {
        let cut = s.take(s.len() - 1);
        assert(is_space(s[s.len() - 1]));
        assert(spec_trim_end(s) == spec_trim_end(cut));
        assert(forall|j: int| 0 <= j < cut.len() ==> cut[j] == s[j]);
        lemma_trim_end_take(cut, i);
        assert(cut.take(i) =~= s.take(i));
    } else {
        assert(s.take(i) =~= s);
    }
}

/// Trim ASCII whitespace from both ends of a character vector.
pub fn trim_chars(v: &Vec<char>) -> (r: Vec<char>)
    ensures
        r@ == spec_trim(v@),
{
    let n: usize = v.len();
    let mut start: usize = 0;
    while start < n && is_space_char(v[start])
        invariant
            start <= n,
            n == v@.len(),
            forall|j: int| 0 <= j < start ==> is_space(v@[j]),
        decreases n - start,
    {
        start = start + 1;
    }
    proof {
        lemma_trim_start_skip(v@, start as int);
        if start < n {
            assert(v@.skip(start as int)[0] == v@[start as int]);
            assert(spec_trim_start(v@.skip(start as int)) == v@.skip(start as int));
        } else {
            assert(v@.skip(start as int) =~= Seq::<char>::empty());
            assert(spec_trim_start(v@) =~= v@.skip(start as int));
        }
    }
    // From here on, spec_trim(v@) == spec_trim_end(v@.skip(start)).
    let mut end: usize = n;
    while end > start && is_space_char(v[end - 1])
        invariant
            start <= end <= n,
            n == v@.len(),
            spec_trim_start(v@) == v@.skip(start as int),
            forall|j: int| end <= j < n ==> is_space(v@[j]),
        decreases end,
    {
        end = end - 1;
    }
    proof {
        let tail = v@.skip(start as int);
        assert(forall|j: int| #![auto] 0 <= j < tail.len() ==> tail[j] == v@[j + start]);
        lemma_trim_end_take(tail, end - start);
        if end > start {
            let cut = tail.take(end - start);
            assert(cut[cut.len() - 1] == v@[end - 1]);
            assert(spec_trim_end(cut) == cut);
        } else {
            assert(tail.take(end - start) =~= Seq::<char>::empty());
        }
        assert(spec_trim(v@) == tail.take(end - start));
    }
    let mut r: Vec<char> = Vec::new();
    let mut i: usize = start;
    while i < end
        invariant
            start <= i <= end <= n,
            n == v@.len(),
            r@ =~= v@.subrange(start as int, i as int),
        decreases end - i,
    {
        r.push(v[i]);
        i = i + 1;
    }
    proof {
        assert(v@.subrange(start as int, end as int) =~= v@.skip(start as int).take(
            end - start,
        ));
    }
    r
}

/// The pieces of `s` between occurrences of `sep`, scanning from `i` with the
/// current piece having begun at `start`.
pub open spec fn split_from(s: Seq<char>, sep: char, start: int, i: int) -> Seq<Seq<char>>
    decreases s.len() - i when 0 <= start <= i <= s.len()
{
    if i >= s.len() {
        seq![s.subrange(start, s.len() as int)]
    } else if s[i] == sep {
        seq![s.subrange(start, i)] + split_from(s, sep, i + 1, i + 1)
    } else {
        split_from(s, sep, start, i + 1)
    }
}

/// The pieces of `s` between occurrences of `sep`. Empty pieces are kept;
/// a separator at either end contributes an empty piece.
pub open spec fn spec_split(s: Seq<char>, sep: char) -> Seq<Seq<char>> {
    split_from(s, sep, 0, 0)
}

/// Split a character vector on a separator character.
pub fn split_chars(v: &Vec<char>, sep: char) -> (r: Vec<Vec<char>>)
    ensures
        views(r@) == spec_split(v@, sep),
{
    let n: usize = v.len();
    let mut r: Vec<Vec<char>> = Vec::new();
    let mut piece: Vec<char> = Vec::new();
    let ghost mut start: int = 0;
    let mut i: usize = 0;
    while i < n
        invariant
            0 <= start <= i <= n,
            n == v@.len(),
            piece@ =~= v@.subrange(start, i as int),
            spec_split(v@, sep) == views(r@) + split_from(v@, sep, start, i as int),
        decreases n - i,
    {
        let c = v[i];
        if c == sep {
            r.push(piece);
            piece = Vec::new();
            proof {
                start = i + 1;
            }
        } else {
            piece.push(c);
        }
        i = i + 1;
        proof {
            assert(piece@ =~= v@.subrange(start, i as int));
            assert(views(r@) + split_from(v@, sep, start, i as int) =~= spec_split(v@, sep));
        }
    }
    r.push(piece);
    proof {
        assert(views(r@) =~= spec_split(v@, sep));
    }
    r
}

/// The views of a sequence of character vectors.
pub open spec fn views(ts: Seq<Vec<char>>) -> Seq<Seq<char>> {
    ts.map_values(|t: Vec<char>| t@)
}

/// The pieces of `parts` from `i` on, joined with `sep` between them.
pub open spec fn join_from(parts: Seq<Seq<char>>, sep: char, i: int) -> Seq<char>
    decreases parts.len() - i when 0 <= i <= parts.len()
{
    if i >= parts.len() {
        Seq::empty()
    } else if i == parts.len() - 1 {
        parts[i]
    } else {
        parts[i] + seq![sep] + join_from(parts, sep, i + 1)
    }
}

/// The pieces of `parts` joined with `sep` between them.
pub open spec fn spec_join(parts: Seq<Seq<char>>, sep: char) -> Seq<char> {
    join_from(parts, sep, 0)
}

/// Append the characters of `part` to `r`.
pub fn append_chars(r: &mut Vec<char>, part: &Vec<char>)
    ensures
        final(r)@ == old(r)@ + part@,
{
    let mut j: usize = 0;
    while j < part.len()
        invariant
            j <= part@.len(),
            r@ =~= old(r)@ + part@.subrange(0, j as int),
        decreases part@.len() - j,
    {
        r.push(part[j]);
        j = j + 1;
    }
    proof {
        assert(r@ =~= old(r)@ + part@);
    }
}

/// Join character vectors with a separator character.
pub fn join_chars(parts: &Vec<Vec<char>>, sep: char) -> (r: Vec<char>)
    ensures
        r@ == spec_join(views(parts@), sep),
{
    let n: usize = parts.len();
    let mut r: Vec<char> = Vec::new();
    if n == 0 {
        proof {
            assert(r@ =~= spec_join(views(parts@), sep));
        }
        return r;
    }
    let mut i: usize = 0;
    while i < n
        invariant
            0 < n == parts@.len(),
            i <= n,
            i < n ==> r@ + join_from(views(parts@), sep, i as int) =~= spec_join(
                views(parts@),
                sep,
            ),
            i == n ==> r@ =~= spec_join(views(parts@), sep),
        decreases n - i,
    {
        append_chars(&mut r, &parts[i]);
        if i + 1 < n {
            r.push(sep);
        }
        i = i + 1;
        proof {
            if i < n {
                assert(r@ + join_from(views(parts@), sep, i as int) =~= spec_join(
                    views(parts@),
                    sep,
                ));
            } else {
                assert(r@ =~= spec_join(views(parts@), sep));
            }
        }
    }
    r
}

/// Joining from position `i` joins the suffix of the parts.
pub(crate) proof fn lemma_join_from_skip(parts: Seq<Seq<char>>, sep: char, i: int)
    requires
        0 <= i <= parts.len(),
    ensures
        join_from(parts, sep, i) == spec_join(parts.skip(i), sep),
    decreases parts.len() - i,
{
    let suf = parts.skip(i);
    if i >= parts.len() {
        assert(suf.len() == 0);
    } else if i == parts.len() - 1 {
        assert(suf.len() == 1);
        assert(suf[0] == parts[i]);
    } else {
        lemma_join_from_skip(parts, sep, i + 1);
        assert(suf.skip(1) =~= parts.skip(i + 1));
        assert(suf[0] == parts[i]);
        assert(spec_join(suf, sep) == suf[0] + seq![sep] + join_from(suf, sep, 1));
        lemma_join_from_skip(suf, sep, 1);
    }
}

/// Scanning past characters that are not the separator does not change the
/// split.
pub(crate) proof fn lemma_split_scan(s: Seq<char>, sep: char, start: int, i: int, k: int)
    requires
        0 <= start <= i <= k <= s.len(),
        forall|j: int| i <= j < k ==> s[j] != sep,
    ensures
        split_from(s, sep, start, i) == split_from(s, sep, start, k),
    decreases k - i,
{
    if i < k {
        lemma_split_scan(s, sep, start, i + 1, k);
    }
}

/// When no separator remains, the split is the single trailing piece.
pub(crate) proof fn lemma_split_no_sep_tail(s: Seq<char>, sep: char, start: int, i: int)
    requires
        0 <= start <= i <= s.len(),
        forall|j: int| i <= j < s.len() ==> s[j] != sep,
    ensures
        split_from(s, sep, start, i) == seq![s.subrange(start, s.len() as int)],
    decreases s.len() - i,
{
    if i < s.len() {
        lemma_split_no_sep_tail(s, sep, start, i + 1);
    }
}

/// Splitting is invariant under dropping an already-scanned prefix.
pub(crate) proof fn lemma_split_shift(s: Seq<char>, sep: char, off: int, start: int, i: int)
    requires
        0 <= off <= start <= i <= s.len(),
    ensures
        split_from(s, sep, start, i) == split_from(s.skip(off), sep, start - off, i - off),
    decreases s.len() - i,
{
    let t = s.skip(off);
    assert(forall|j: int| 0 <= j < t.len() ==> t[j] == s[j + off]);
    if i >= s.len() {
        assert(s.subrange(start, s.len() as int) =~= t.subrange(start - off, t.len() as int));
        assert(split_from(s, sep, start, i) =~~= split_from(t, sep, start - off, i - off));
    } else if s[i] == sep {
        lemma_split_shift(s, sep, off, i + 1, i + 1);
        assert(s.subrange(start, i) =~= t.subrange(start - off, i - off));
        assert(split_from(s, sep, start, i) =~~= split_from(t, sep, start - off, i - off));
    } else {
        lemma_split_shift(s, sep, off, start, i + 1);
    }
}

/// No piece of a split contains the separator.
pub(crate) proof fn lemma_split_parts_no_sep(s: Seq<char>, sep: char, start: int, i: int)
    requires
        0 <= start <= i <= s.len(),
        forall|j: int| start <= j < i ==> s[j] != sep,
    ensures
        forall|k: int|
            0 <= k < split_from(s, sep, start, i).len() ==> !spec_contains_char(
                #[trigger] split_from(s, sep, start, i)[k],
                sep,
            ),
    decreases s.len() - i,
{
    if i >= s.len() {
        let piece = s.subrange(start, s.len() as int);
        assert(forall|m: int| 0 <= m < piece.len() ==> piece[m] == s[start + m]);
        assert(!spec_contains_char(piece, sep));
        let whole = split_from(s, sep, start, i);
        assert(whole == seq![piece]);
        assert(forall|k: int| 0 <= k < whole.len() ==> whole[k] == piece);
    } else if s[i] == sep {
        lemma_split_parts_no_sep(s, sep, i + 1, i + 1);
        let piece = s.subrange(start, i);
        assert(forall|m: int| 0 <= m < piece.len() ==> piece[m] == s[start + m]);
        assert(!spec_contains_char(piece, sep));
        let rest = split_from(s, sep, i + 1, i + 1);
        let whole = split_from(s, sep, start, i);
        assert(whole == seq![piece] + rest);
        assert(whole[0] == piece);
        assert(forall|k: int| 1 <= k < whole.len() ==> whole[k] == rest[k - 1]);
    } else {
        lemma_split_parts_no_sep(s, sep, start, i + 1);
        assert(split_from(s, sep, start, i) == split_from(s, sep, start, i + 1));
    }
}

/// Splitting the join of separator-free pieces returns the pieces.
#[verifier::rlimit(50)]
pub(crate) proof fn lemma_split_join(parts: Seq<Seq<char>>, sep: char)
    requires
        parts.len() > 0,
        forall|k: int| 0 <= k < parts.len() ==> !spec_contains_char(#[trigger] parts[k], sep),
    ensures
        spec_split(spec_join(parts, sep), sep) == parts,
    decreases parts.len(),
{
    let s = spec_join(parts, sep);
    let head = parts[0];
    if parts.len() == 1 {
        assert(s == head);
        assert(forall|j: int| 0 <= j < s.len() ==> s[j] != sep);
        lemma_split_no_sep_tail(s, sep, 0, 0);
        assert(s.subrange(0, s.len() as int) =~= head);
        assert(spec_split(s, sep) =~~= parts);
    } else {
        lemma_join_from_skip(parts, sep, 1);
        let tail = spec_join(parts.skip(1), sep);
        assert(s == head + seq![sep] + tail);
        let h: int = head.len() as int;
        assert(forall|j: int| 0 <= j < h ==> s[j] == head[j] && s[j] != sep);
        lemma_split_scan(s, sep, 0, 0, h);
        assert(s[h] == sep);
        assert(spec_split(s, sep) == seq![s.subrange(0, h)] + split_from(s, sep, h + 1, h + 1));
        assert(s.subrange(0, h) =~= head);
        lemma_split_shift(s, sep, h + 1, h + 1, h + 1);
        assert(s.skip(h + 1) =~= tail);
        lemma_split_join(parts.skip(1), sep);
        assert(seq![s.subrange(0, h)] + split_from(s, sep, h + 1, h + 1) =~~= parts);
    }
}

/// A nonempty trimmed sequence neither begins nor ends with whitespace, and
/// begins where the original did once leading whitespace is gone.
pub(crate) proof fn lemma_trim_start_head(s: Seq<char>)
    ensures
        spec_trim_start(s).len() > 0 ==> !is_space(spec_trim_start(s)[0]),
    decreases s.len(),
{
    if s.len() > 0 && is_space(s[0]) {
        lemma_trim_start_head(s.skip(1));
    }
}

pub(crate) proof fn lemma_trim_end_props(s: Seq<char>)
    ensures
        spec_trim_end(s).len() > 0 ==> !is_space(spec_trim_end(s)[spec_trim_end(s).len() - 1]),
        spec_trim_end(s).len() > 0 ==> s.len() > 0 && spec_trim_end(s)[0] == s[0],
    decreases s.len(),
{
    if s.len() > 0 && is_space(s[s.len() - 1]) {
        lemma_trim_end_props(s.take(s.len() - 1));
    }
}

/// A sequence with no whitespace at either end is its own trim.
pub(crate) proof fn lemma_trim_fixed(s: Seq<char>)
    requires
        s.len() > 0 ==> !is_space(s[0]) && !is_space(s[s.len() - 1]),
    ensures
        spec_trim(s) == s,
{
    assert(spec_trim_start(s) == s);
    assert(spec_trim_end(s) == s);
}

/// The trim of any sequence has no whitespace at either end.
pub(crate) proof fn lemma_trim_props(s: Seq<char>)
    ensures
        spec_trim(s).len() > 0 ==> !is_space(spec_trim(s)[0]) && !is_space(
            spec_trim(s)[spec_trim(s).len() - 1],
        ),
{
    lemma_trim_start_head(s);
    lemma_trim_end_props(spec_trim_start(s));
}

/// Lowercasing is pointwise idempotent, preserves whitespace, and never
/// produces or removes a `'+'`.
pub(crate) proof fn lemma_lower_char_props(c: char)
    ensures
        lower_char(lower_char(c)) == lower_char(c),
        is_space(lower_char(c)) == is_space(c),
        (lower_char(c) == '+') == (c == '+'),
{
}

/// A lowercased sequence is lower-fixed, and keeps its length, whitespace
/// positions and `'+'` positions.
pub(crate) proof fn lemma_lower_props(s: Seq<char>)
    ensures
        lower(lower(s)) == lower(s),
        lower(s).len() == s.len(),
        forall|i: int| 0 <= i < s.len() ==> is_space(#[trigger] lower(s)[i]) == is_space(s[i]),
        forall|i: int| 0 <= i < s.len() ==> (#[trigger] lower(s)[i] == '+') == (s[i] == '+'),
{
    assert(lower(lower(s)) =~= lower(s));
}

/// A sequence that is pointwise lower-fixed is its own lowercase image.
pub(crate) proof fn lemma_lower_fixed(s: Seq<char>)
    requires
        forall|i: int| 0 <= i < s.len() ==> lower_char(#[trigger] s[i]) == s[i],
    ensures
        lower(s) == s,
{
    assert(lower(s) =~= s);
}

/// The trim of a sequence is a contiguous piece of it.
pub(crate) proof fn lemma_trim_is_infix(s: Seq<char>)
    ensures
        exists|a: int, b: int|
            0 <= a <= b <= s.len() && spec_trim(s) == s.subrange(a, b),
{
    lemma_trim_start_skip_form(s);
    let a = choose|a: int| 0 <= a <= s.len() && spec_trim_start(s) == s.skip(a);
    lemma_trim_end_take_form(spec_trim_start(s));
    let t = spec_trim_start(s);
    let b0 = choose|b: int| 0 <= b <= t.len() && spec_trim_end(t) == t.take(b);
    assert(t.take(b0) =~= s.subrange(a, a + b0));
    assert(0 <= a <= a + b0 <= s.len() && spec_trim(s) == s.subrange(a, a + b0));
}

pub(crate) proof fn lemma_trim_start_skip_form(s: Seq<char>)
    ensures
        exists|a: int| 0 <= a <= s.len() && spec_trim_start(s) == s.skip(a),
    decreases s.len(),
{
    if s.len() > 0 && is_space(s[0]) {
        lemma_trim_start_skip_form(s.skip(1));
        let a = choose|a: int|
            0 <= a <= s.skip(1).len() && spec_trim_start(s.skip(1)) == s.skip(1).skip(a);
        assert(s.skip(1).skip(a) =~= s.skip(a + 1));
    } else {
        assert(s.skip(0) =~= s);
    }
}

pub(crate) proof fn lemma_trim_end_take_form(s: Seq<char>)
    ensures
        exists|b: int| 0 <= b <= s.len() && spec_trim_end(s) == s.take(b),
    decreases s.len(),
{
    if s.len() > 0 && is_space(s[s.len() - 1]) {
        let cut = s.take(s.len() - 1);
        lemma_trim_end_take_form(cut);
        let b = choose|b: int| 0 <= b <= cut.len() && spec_trim_end(cut) == #[trigger] cut.take(b);
        assert(cut.take(b) =~= s.take(b));
    } else {
        assert(s.take(s.len() as int) =~= s);
    }
}

/// Whether `s` begins with the prefix `p`.
pub open spec fn spec_starts_with(s: Seq<char>, p: Seq<char>) -> bool {
    s.len() >= p.len() && s.subrange(0, p.len() as int) == p
}

/// Whether `s` ends with the suffix `p`.
pub open spec fn spec_ends_with(s: Seq<char>, p: Seq<char>) -> bool {
    s.len() >= p.len() && s.subrange(s.len() - p.len(), s.len() as int) == p
}

/// Whether `c` occurs in `s`.
pub open spec fn spec_contains_char(s: Seq<char>, c: char) -> bool {
    exists|i: int| 0 <= i < s.len() && s[i] == c
}

/// Whether a character vector begins with a prefix.
pub fn starts_with_chars(v: &Vec<char>, p: &Vec<char>) -> (r: bool)
    ensures
        r == spec_starts_with(v@, p@),
{
    if v.len() < p.len() {
        return false;
    }
    let mut i: usize = 0;
    while i < p.len()
        invariant
            i <= p@.len() <= v@.len(),
            forall|j: int| 0 <= j < i ==> v@[j] == p@[j],
        decreases p@.len() - i,
    {
        if v[i] != p[i] {
            proof {
                assert(v@.subrange(0, p@.len() as int)[i as int] == v@[i as int]);
            }
            return false;
        }
        i = i + 1;
    }
    proof {
        assert(v@.subrange(0, p@.len() as int) =~= p@);
    }
    true
}

/// Whether a character vector ends with a suffix.
pub fn ends_with_chars(v: &Vec<char>, p: &Vec<char>) -> (r: bool)
    ensures
        r == spec_ends_with(v@, p@),
{
    if v.len() < p.len() {
        return false;
    }
    let n: usize = v.len();
    let m: usize = p.len();
    let off: usize = n - m;
    let mut i: usize = 0;
    while i < m
        invariant
            i <= m,
            n == v@.len(),
            m == p@.len(),
            m <= n,
            off == n - m,
            forall|j: int| 0 <= j < i ==> v@[off + j] == p@[j],
        decreases m - i,
    {
        if v[off + i] != p[i] {
            proof {
                assert(v@.subrange(off as int, v@.len() as int)[i as int] == v@[off + i]);
            }
            return false;
        }
        i = i + 1;
    }
    proof {
        assert(v@.subrange(off as int, v@.len() as int) =~= p@);
    }
    true
}

/// Whether a character occurs in a character vector.
pub fn contains_char(v: &Vec<char>, c: char) -> (r: bool)
    ensures
        r == spec_contains_char(v@, c),
{
    let mut i: usize = 0;
    while i < v.len()
        invariant
            i <= v@.len(),
            forall|j: int| 0 <= j < i ==> v@[j] != c,
        decreases v@.len() - i,
    {
        if v[i] == c {
            return true;
        }
        i = i + 1;
    }
    false
}

/// Whether `p` occurs in `s` starting at position `i`.
pub open spec fn match_at(s: Seq<char>, p: Seq<char>, i: int) -> bool {
    0 <= i && i + p.len() <= s.len() && s.subrange(i, i + p.len()) == p
}

/// Whether `p` occurs anywhere in `s`.
pub open spec fn spec_contains_seq(s: Seq<char>, p: Seq<char>) -> bool {
    exists|i: int| match_at(s, p, i)
}

/// Whether `p` occurs in `v` starting at position `i`.
pub fn window_eq(v: &Vec<char>, p: &Vec<char>, i: usize) -> (r: bool)
    ensures
        r == match_at(v@, p@, i as int),
{
    if i > v.len() || p.len() > v.len() - i {
        return false;
    }
    let n: usize = v.len();
    let m: usize = p.len();
    let mut j: usize = 0;
    while j < m
        invariant
            j <= m,
            n == v@.len(),
            m == p@.len(),
            i + m <= n,
            forall|k: int| 0 <= k < j ==> v@[i + k] == p@[k],
        decreases m - j,
    {
        if v[i + j] != p[j] {
            proof {
                assert(v@.subrange(i as int, i + p@.len())[j as int] == v@[i + j]);
            }
            return false;
        }
        j = j + 1;
    }
    proof {
        assert(v@.subrange(i as int, i + p@.len()) =~= p@);
    }
    true
}

/// Whether `p` occurs anywhere in `v`.
pub fn contains_seq(v: &Vec<char>, p: &Vec<char>) -> (r: bool)
    ensures
        r == spec_contains_seq(v@, p@),
{
    let n: usize = v.len();
    let mut i: usize = 0;
    while i < n
        invariant
            i <= n,
            n == v@.len(),
            forall|k: int| 0 <= k < i ==> !match_at(v@, p@, k),
        decreases n - i,
    {
        if window_eq(v, p, i) {
            return true;
        }
        i = i + 1;
    }
    if window_eq(v, p, n) {
        return true;
    }
    proof {
        assert forall|k: int| !match_at(v@, p@, k) by {
            if 0 <= k && k + p@.len() <= v@.len() {
                assert(k <= n);
            }
        }
    }
    false
}

/// Whether `c` is an ASCII decimal digit.
pub open spec fn is_digit(c: char) -> bool {
    '0' <= c && c <= '9'
}

/// Numeric value of a digit character.
pub open spec fn digit_val(c: char) -> int {
    c as int - '0' as int
}

/// Value of the digit string `s[i..]` folded onto the accumulator `acc`.
pub open spec fn digits_val_from(s: Seq<char>, i: int, acc: int) -> int
    decreases s.len() - i when 0 <= i <= s.len()
{
    if i >= s.len() {
        acc
    } else {
        digits_val_from(s, i + 1, acc * 10 + digit_val(s[i]))
    }
}

/// Value of a string of decimal digits.
pub open spec fn digits_val(s: Seq<char>) -> int {
    digits_val_from(s, 0, 0)
}

/// Whether every character of `s` is a decimal digit.
pub open spec fn all_digits(s: Seq<char>) -> bool {
    forall|i: int| 0 <= i < s.len() ==> is_digit(s[i])
}

/// Whether `s` is a decimal integer literal: an optional sign followed by at
/// least one digit.
pub open spec fn is_int_literal(s: Seq<char>) -> bool {
    if s.len() == 0 {
        false
    } else if s[0] == '+' || s[0] == '-' {
        s.len() > 1 && all_digits(s.skip(1))
    } else {
        all_digits(s)
    }
}

/// Signed value of a decimal integer literal.
pub open spec fn int_literal_val(s: Seq<char>) -> int {
    if s.len() > 0 && s[0] == '-' {
        -digits_val(s.skip(1))
    } else if s.len() > 0 && s[0] == '+' {
        digits_val(s.skip(1))
    } else {
        digits_val(s)
    }
}

/// What `str::parse::<i32>` returns on `s`: the literal's value when `s` is
/// a well-formed literal within `i32` range, and nothing otherwise.
pub open spec fn spec_parse_i32(s: Seq<char>) -> Option<int> {
    if is_int_literal(s) && i32::MIN <= int_literal_val(s) <= i32::MAX {
        Some(int_literal_val(s))
    } else {
        None
    }
}

proof fn lemma_digits_val_from_lower(s: Seq<char>, i: int, acc: int)
    requires
        0 <= i <= s.len(),
        all_digits(s),
        acc >= 0,
    ensures
        digits_val_from(s, i, acc) >= acc,
    decreases s.len() - i,
{
    if i < s.len() {
        lemma_digits_val_from_lower(s, i + 1, acc * 10 + digit_val(s[i]));
    }
}

/// Parse a decimal integer, as `str::parse::<i32>` does.
#[verifier::loop_isolation(false)]
pub fn parse_i32_chars(v: &Vec<char>) -> (r: Option<i32>)
    ensures
        r matches Some(p) ==> spec_parse_i32(v@) == Some(p as int),
        r is None ==> spec_parse_i32(v@) is None,
{
    let n: usize = v.len();
    if n == 0 {
        return None;
    }
    let negative: bool = v[0] == '-';
    let signed: bool = negative || v[0] == '+';
    let start: usize = if signed {
        1
    } else {
        0
    };
    if start >= n {
        proof {
            assert(v@[0] == '+' || v@[0] == '-');
            assert(!is_int_literal(v@));
        }
        return None;
    }
    let ghost d = v@.skip(start as int);
    proof {
        assert(v@.skip(0) =~= v@);
    }
    // First pass: every remaining character must be a digit.
    let mut i: usize = start;
    while i < n
        invariant
            start <= i <= n,
            n == v@.len(),
            d == v@.skip(start as int),
            forall|j: int| start <= j < i ==> is_digit(v@[j]),
        decreases n - i,
    {
        let c = v[i];
        if c < '0' || c > '9' {
            proof {
                assert(d[i - start] == v@[i as int]);
                assert(!all_digits(d));
                assert(v@.skip(0) =~= v@);
            }
            return None;
        }
        i = i + 1;
    }
    proof {
        assert(forall|j: int| 0 <= j < d.len() ==> d[j] == v@[j + start]);
        assert(all_digits(d));
    }
    // Second pass: fold the digits, watching for values past `i32` range.
    let bound: u64 = 2147483648;
    let mut acc: u64 = 0;
    let mut too_big: bool = false;
    let mut k: usize = start;
    while k < n
        invariant
            start <= k <= n,
            n == v@.len(),
            d == v@.skip(start as int),
            all_digits(d),
            bound == 2147483648,
            !too_big ==> acc <= bound && digits_val(d) == digits_val_from(
                d,
                k - start,
                acc as int,
            ),
            too_big ==> digits_val(d) > bound,
        decreases n - k,
    {
        let c = v[k];
        proof {
            assert(d[k - start] == v@[k as int]);
            assert(is_digit(v@[k as int]));
        }
        if !too_big {
            let next: u64 = acc * 10 + ((c as u32 - 48) as u64);
            if next > bound {
                proof {
                    lemma_digits_val_from_lower(d, k - start + 1, next as int);
                }
                too_big = true;
            } else {
                acc = next;
            }
        }
        k = k + 1;
    }
    proof {
        if too_big {
            assert(digits_val(d) > bound);
            if negative {
                assert(int_literal_val(v@) < i32::MIN);
            } else {
                assert(int_literal_val(v@) > i32::MAX);
            }
        } else {
            assert(digits_val(d) == acc as int);
        }
    }
    if too_big {
        return None;
    }
    if negative {
        let val: i64 = -(acc as i64);
        proof {
            assert(int_literal_val(v@) == -(acc as int));
        }
        Some(val as i32)
    } else {
        if acc > 2147483647 {
            proof {
                assert(int_literal_val(v@) > i32::MAX);
            }
            return None;
        }
        proof {
            if v@[0] == '+' {
                assert(int_literal_val(v@) == acc as int);
            } else {
                assert(d =~= v@);
                assert(int_literal_val(v@) == acc as int);
            }
        }
        Some(acc as i32)
    }
}

/// Number of whitespace-separated words, counted from position `i` onward,
/// given whether position `i` is inside a word already begun.
pub open spec fn word_count_from(s: Seq<char>, i: int, in_word: bool) -> nat
    decreases s.len() - i when 0 <= i <= s.len()
{
    if i >= s.len() {
        0
    } else if is_space(s[i]) {
        word_count_from(s, i + 1, false)
    } else if in_word {
        word_count_from(s, i + 1, true)
    } else {
        1 + word_count_from(s, i + 1, true)
    }
}

/// Number of whitespace-separated words in `s`.
pub open spec fn spec_word_count(s: Seq<char>) -> nat {
    word_count_from(s, 0, false)
}

/// Count the whitespace-separated words of a string.
pub fn word_count(s: &str) -> (r: usize)
    ensures
        r == spec_word_count(s@),
{
    let v = str_to_chars(s);
    word_count_chars(&v)
}

/// Count the whitespace-separated words of a character vector.
pub fn word_count_chars(v: &Vec<char>) -> (r: usize)
    ensures
        r == spec_word_count(v@),
{
    let mut count: usize = 0;
    let mut in_word: bool = false;
    let mut i: usize = 0;
    while i < v.len()
        invariant
            i <= v@.len(),
            count <= i,
            count + word_count_from(v@, i as int, in_word) == spec_word_count(v@),
        decreases v@.len() - i,
    {
        if is_space_char(v[i]) {
            in_word = false;
        } else {
            if !in_word {
                count = count + 1;
            }
            in_word = true;
        }
        i = i + 1;
    }
    count
}

} // verus!
