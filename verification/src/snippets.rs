//! Snippet expansion: user-defined triggers replaced by their expansions
//! after formatting. Triggers match case-insensitively, left to right and
//! without overlap; longer triggers are applied first so that a short
//! trigger cannot shadow a longer one. The literal tokens `{{date}}` and
//! `{{time}}` inside an expansion become the local date and time.

use vstd::prelude::*;

use crate::clock::{local_date_string, local_time_string};
use crate::store::Snippet;
use crate::text::{chars_to_string, lower, lower_chars, str_to_chars};

verus! {

/// `s` with every occurrence of `pat` replaced by `rep`, scanning left to
/// right without overlap. Matching is exact.
pub open spec fn spec_replace_exact(s: Seq<char>, pat: Seq<char>, rep: Seq<char>) -> Seq<char>
    decreases s.len() when pat.len() > 0
{
    if s.len() < pat.len() {
        s
    } else if s.take(pat.len() as int) == pat {
        rep + spec_replace_exact(s.skip(pat.len() as int), pat, rep)
    } else {
        seq![s[0]] + spec_replace_exact(s.skip(1), pat, rep)
    }
}

/// `s` with every occurrence of `pat_lower` replaced by `rep`, scanning
/// left to right without overlap. A position matches when the lowercased
/// window equals `pat_lower`.
pub open spec fn spec_replace_ci(s: Seq<char>, pat_lower: Seq<char>, rep: Seq<char>) -> Seq<char>
    decreases s.len() when pat_lower.len() > 0
{
    if s.len() < pat_lower.len() {
        s
    } else if lower(s.take(pat_lower.len() as int)) == pat_lower {
        rep + spec_replace_ci(s.skip(pat_lower.len() as int), pat_lower, rep)
    } else {
        seq![s[0]] + spec_replace_ci(s.skip(1), pat_lower, rep)
    }
}

/// Whether the lowercased window of `v` at `i` equals `pat`.
fn window_ci_eq(v: &Vec<char>, pat: &Vec<char>, i: usize) -> (r: bool)
    requires
        i <= v@.len(),
    ensures
        r == (i + pat@.len() <= v@.len() && lower(v@.subrange(i as int, i + pat@.len())) == pat@),
{
    let n: usize = v.len();
    let m: usize = pat.len();
    if m > n - i {
        return false;
    }
    let mut j: usize = 0;
    while j < m
        invariant
            j <= m,
            i <= n,
            n == v@.len(),
            m == pat@.len(),
            i + m <= n,
            forall|k: int| 0 <= k < j ==> crate::text::lower_char(v@[i + k]) == pat@[k],
        decreases m - j,
    {
        if crate::text::lower_char_exec(v[i + j]) != pat[j] {
            proof {
                let w = v@.subrange(i as int, i + pat@.len());
                assert(lower(w)[j as int] == crate::text::lower_char(v@[i + j]));
            }
            return false;
        }
        j = j + 1;
    }
    proof {
        let w = v@.subrange(i as int, i + pat@.len());
        assert(lower(w) =~= pat@);
    }
    true
}

/// Whether the window of `v` at `i` equals `pat` exactly.
fn window_exact_eq(v: &Vec<char>, pat: &Vec<char>, i: usize) -> (r: bool)
    requires
        i <= v@.len(),
    ensures
        r == (i + pat@.len() <= v@.len() && v@.subrange(i as int, i + pat@.len()) == pat@),
{
    let n: usize = v.len();
    let m: usize = pat.len();
    if m > n - i {
        return false;
    }
    let mut j: usize = 0;
    while j < m
        invariant
            j <= m,
            i <= n,
            n == v@.len(),
            m == pat@.len(),
            i + m <= n,
            forall|k: int| 0 <= k < j ==> v@[i + k] == pat@[k],
        decreases m - j,
    {
        if v[i + j] != pat[j] {
            proof {
                let w = v@.subrange(i as int, i + pat@.len());
                assert(w[j as int] == v@[i + j]);
            }
            return false;
        }
        j = j + 1;
    }
    proof {
        let w = v@.subrange(i as int, i + pat@.len());
        assert(w =~= pat@);
    }
    true
}

/// Replace every case-insensitive occurrence of `pat_lower` in `v` by
/// `rep`.
fn replace_ci_chars(v: &Vec<char>, pat_lower: &Vec<char>, rep: &Vec<char>) -> (r: Vec<char>)
    requires
        pat_lower@.len() > 0,
    ensures
        r@ == spec_replace_ci(v@, pat_lower@, rep@),
{
    let n: usize = v.len();
    let m: usize = pat_lower.len();
    let mut out: Vec<char> = Vec::new();
    let mut i: usize = 0;
    proof {
        assert(v@.skip(0) =~= v@);
        assert(out@ + spec_replace_ci(v@, pat_lower@, rep@) =~= spec_replace_ci(
            v@,
            pat_lower@,
            rep@,
        ));
    }
    while i < n
        invariant
            i <= n,
            n == v@.len(),
            m == pat_lower@.len(),
            m > 0,
            spec_replace_ci(v@, pat_lower@, rep@) == out@ + spec_replace_ci(
                v@.skip(i as int),
                pat_lower@,
                rep@,
            ),
        decreases n - i,
    {
        let ghost tail = v@.skip(i as int);
        if window_ci_eq(v, pat_lower, i) {
            crate::text::append_chars(&mut out, rep);
            proof {
                assert(tail.take(m as int) =~= v@.subrange(i as int, i + m));
                assert(tail.skip(m as int) =~= v@.skip(i + m));
            }
            i = i + m;
        } else {
            out.push(v[i]);
            proof {
                if tail.len() >= m {
                    assert(tail.take(m as int) =~= v@.subrange(i as int, i + m));
                }
                assert(tail.skip(1) =~= v@.skip(i + 1));
                assert(tail[0] == v@[i as int]);
            }
            i = i + 1;
        }
        proof {
            assert(spec_replace_ci(v@, pat_lower@, rep@) =~= out@ + spec_replace_ci(
                v@.skip(i as int),
                pat_lower@,
                rep@,
            ));
        }
    }
    proof {
        assert(v@.skip(n as int) =~= Seq::<char>::empty());
        assert(spec_replace_ci(v@, pat_lower@, rep@) =~= out@);
    }
    out
}

/// Replace every exact occurrence of `pat` in `v` by `rep`.
fn replace_exact_chars(v: &Vec<char>, pat: &Vec<char>, rep: &Vec<char>) -> (r: Vec<char>)
    requires
        pat@.len() > 0,
    ensures
        r@ == spec_replace_exact(v@, pat@, rep@),
{
    let n: usize = v.len();
    let m: usize = pat.len();
    let mut out: Vec<char> = Vec::new();
    let mut i: usize = 0;
    proof {
        assert(v@.skip(0) =~= v@);
        assert(out@ + spec_replace_exact(v@, pat@, rep@) =~= spec_replace_exact(v@, pat@, rep@));
    }
    while i < n
        invariant
            i <= n,
            n == v@.len(),
            m == pat@.len(),
            m > 0,
            spec_replace_exact(v@, pat@, rep@) == out@ + spec_replace_exact(
                v@.skip(i as int),
                pat@,
                rep@,
            ),
        decreases n - i,
    {
        let ghost tail = v@.skip(i as int);
        if window_exact_eq(v, pat, i) {
            crate::text::append_chars(&mut out, rep);
            proof {
                assert(tail.take(m as int) =~= v@.subrange(i as int, i + m));
                assert(tail.skip(m as int) =~= v@.skip(i + m));
            }
            i = i + m;
        } else {
            out.push(v[i]);
            proof {
                if tail.len() >= m {
                    assert(tail.take(m as int) =~= v@.subrange(i as int, i + m));
                }
                assert(tail.skip(1) =~= v@.skip(i + 1));
                assert(tail[0] == v@[i as int]);
            }
            i = i + 1;
        }
        proof {
            assert(spec_replace_exact(v@, pat@, rep@) =~= out@ + spec_replace_exact(
                v@.skip(i as int),
                pat@,
                rep@,
            ));
        }
    }
    proof {
        assert(v@.skip(n as int) =~= Seq::<char>::empty());
        assert(spec_replace_exact(v@, pat@, rep@) =~= out@);
    }
    out
}

/// An expansion with its `{{date}}` and `{{time}}` tokens substituted.
pub open spec fn spec_expand_expansion(
    exp: Seq<char>,
    date: Seq<char>,
    time: Seq<char>,
) -> Seq<char> {
    spec_replace_exact(spec_replace_exact(exp, "{{date}}"@, date), "{{time}}"@, time)
}

/// Substitute the date and time tokens of an expansion.
fn expand_expansion(exp: &Vec<char>, date: &Vec<char>, time: &Vec<char>) -> (r: Vec<char>)
    ensures
        r@ == spec_expand_expansion(exp@, date@, time@),
{
    proof {
        reveal_strlit("{{date}}");
        reveal_strlit("{{time}}");
    }
    let date_tok = str_to_chars("{{date}}");
    let time_tok = str_to_chars("{{time}}");
    let with_date = replace_exact_chars(exp, &date_tok, date);
    replace_exact_chars(&with_date, &time_tok, time)
}

/// The model of a snippet: its trigger and expansion texts.
pub type SnipView = (Seq<char>, Seq<char>);

/// The model of one snippet.
pub open spec fn snip_view(s: Snippet) -> SnipView {
    (s.trigger@, s.expansion@)
}

/// The models of a list of snippets.
pub open spec fn snip_views(ss: Seq<Snippet>) -> Seq<SnipView> {
    ss.map_values(|s: Snippet| snip_view(s))
}

/// `x` inserted into `sorted` before the first snippet with a strictly
/// shorter trigger; among equal lengths, `x` comes last.
pub open spec fn insert_by_len(sorted: Seq<SnipView>, x: SnipView) -> Seq<SnipView>
    decreases sorted.len(),
{
    if sorted.len() == 0 {
        seq![x]
    } else if x.0.len() > sorted[0].0.len() {
        seq![x] + sorted
    } else {
        seq![sorted[0]] + insert_by_len(sorted.skip(1), x)
    }
}

/// The snippets `snips[i..]` folded into `acc` by [`insert_by_len`].
pub open spec fn sort_from(snips: Seq<SnipView>, i: int, acc: Seq<SnipView>) -> Seq<SnipView>
    decreases snips.len() - i when 0 <= i <= snips.len()
{
    if i >= snips.len() {
        acc
    } else {
        sort_from(snips, i + 1, insert_by_len(acc, snips[i]))
    }
}

/// The snippets ordered by trigger length, longest first; snippets of
/// equal length keep their order.
pub open spec fn spec_sorted_snippets(snips: Seq<SnipView>) -> Seq<SnipView> {
    sort_from(snips, 0, Seq::empty())
}

/// Inserting before the first strictly shorter trigger is what
/// [`insert_by_len`] does.
proof fn lemma_insert_at(ms: Seq<SnipView>, x: SnipView, j: int)
    requires
        0 <= j <= ms.len(),
        forall|k: int| 0 <= k < j ==> ms[k].0.len() >= x.0.len(),
        j < ms.len() ==> ms[j].0.len() < x.0.len(),
    ensures
        insert_by_len(ms, x) == ms.take(j) + seq![x] + ms.skip(j),
    decreases ms.len(),
{
    if ms.len() == 0 {
        assert(ms.take(0) + seq![x] + ms.skip(0) =~= seq![x]);
    } else if x.0.len() > ms[0].0.len() {
        assert(j == 0);
        assert(ms.take(0) + seq![x] + ms.skip(0) =~= seq![x] + ms);
    } else {
        assert(j >= 1);
        let rest = ms.skip(1);
        assert(forall|k: int| 0 <= k < j - 1 ==> rest[k] == ms[k + 1]);
        assert(j - 1 < rest.len() ==> rest[j - 1] == ms[j]);
        lemma_insert_at(rest, x, j - 1);
        assert(seq![ms[0]] + (rest.take(j - 1) + seq![x] + rest.skip(j - 1)) =~= ms.take(j)
            + seq![x] + ms.skip(j));
    }
}

/// Whether trigger lengths never grow along the list.
pub open spec fn sorted_desc(ss: Seq<SnipView>) -> bool {
    forall|i: int, j: int|
        0 <= i <= j < ss.len() ==> (#[trigger] ss[i]).0.len() >= (#[trigger] ss[j]).0.len()
}

/// Every trigger in `ss` is at most `c` characters long.
spec fn len_bounded(ss: Seq<SnipView>, c: nat) -> bool {
    forall|k: int| 0 <= k < ss.len() ==> (#[trigger] ss[k]).0.len() <= c
}

proof fn lemma_insert_keeps_bound(ss: Seq<SnipView>, x: SnipView, c: nat)
    requires
        len_bounded(ss, c),
        x.0.len() <= c,
    ensures
        len_bounded(insert_by_len(ss, x), c),
    decreases ss.len(),
{
    if ss.len() == 0 {
        assert(insert_by_len(ss, x) == seq![x]);
        assert(insert_by_len(ss, x)[0] == x);
    } else if x.0.len() > ss[0].0.len() {
        let whole = seq![x] + ss;
        assert(whole[0] == x);
        assert(forall|k: int| 1 <= k < whole.len() ==> whole[k] == ss[k - 1]);
    } else {
        assert(forall|k: int| 0 <= k < ss.skip(1).len() ==> ss.skip(1)[k] == ss[k + 1]);
        lemma_insert_keeps_bound(ss.skip(1), x, c);
        let rest = insert_by_len(ss.skip(1), x);
        let whole = seq![ss[0]] + rest;
        assert(whole[0] == ss[0]);
        assert(forall|k: int| 1 <= k < whole.len() ==> whole[k] == rest[k - 1]);
    }
}

proof fn lemma_insert_keeps_sorted(ss: Seq<SnipView>, x: SnipView)
    requires
        sorted_desc(ss),
    ensures
        sorted_desc(insert_by_len(ss, x)),
    decreases ss.len(),
{
    if ss.len() == 0 {
        assert(insert_by_len(ss, x) == seq![x]);
    } else if x.0.len() > ss[0].0.len() {
        let whole = seq![x] + ss;
        assert(whole[0] == x);
        assert(forall|k: int| 1 <= k < whole.len() ==> whole[k] == ss[k - 1]);
    } else {
        let tail = ss.skip(1);
        assert(forall|k: int| 0 <= k < tail.len() ==> tail[k] == ss[k + 1]);
        lemma_insert_keeps_sorted(tail, x);
        lemma_insert_keeps_bound(tail, x, ss[0].0.len());
        let rest = insert_by_len(tail, x);
        let whole = seq![ss[0]] + rest;
        assert(whole[0] == ss[0]);
        assert(forall|k: int| 1 <= k < whole.len() ==> whole[k] == rest[k - 1]);
    }
}

proof fn lemma_sort_from_sorted(snips: Seq<SnipView>, i: int, acc: Seq<SnipView>)
    requires
        0 <= i <= snips.len(),
        sorted_desc(acc),
    ensures
        sorted_desc(sort_from(snips, i, acc)),
    decreases snips.len() - i,
{
    if i < snips.len() {
        lemma_insert_keeps_sorted(acc, snips[i]);
        lemma_sort_from_sorted(snips, i + 1, insert_by_len(acc, snips[i]));
    }
}

/// Law: the snippets are applied longest trigger first: along the order
/// of application, trigger lengths never grow, so a shorter trigger can
/// never fire before a longer one that contains it.
pub proof fn lemma_snippets_apply_longest_first(snips: Seq<SnipView>)
    ensures
        sorted_desc(spec_sorted_snippets(snips)),
{
    lemma_sort_from_sorted(snips, 0, Seq::empty());
}

/// Copy a snippet, keeping its texts.
fn clone_snippet(s: &Snippet) -> (r: Snippet)
    ensures
        snip_view(r) == snip_view(*s),
{
    Snippet {
        trigger: crate::store::clone_string(&s.trigger),
        expansion: crate::store::clone_string(&s.expansion),
    }
}

/// Insert a snippet into a vector sorted longest-trigger-first.
fn insert_sorted(acc: &mut Vec<Snippet>, x: Snippet)
    ensures
        snip_views(final(acc)@) == insert_by_len(snip_views(old(acc)@), snip_view(x)),
{
    let ghost ms = snip_views(old(acc)@);
    let ghost xv = snip_view(x);
    let xl: usize = x.trigger.as_str().unicode_len();
    let mut j: usize = 0;
    let mut place_here: bool = false;
    while j < acc.len() && !place_here
        invariant
            j <= acc@.len(),
            acc@ == old(acc)@,
            ms == snip_views(acc@),
            xl == xv.0.len(),
            forall|k: int| 0 <= k < j ==> ms[k].0.len() >= xv.0.len(),
            place_here ==> j < acc@.len() && ms[j as int].0.len() < xv.0.len(),
        decreases acc@.len() - j + (if place_here { 0int } else { 1int }),
    {
        let hl: usize = acc[j].trigger.as_str().unicode_len();
        proof {
            assert(ms[j as int] == snip_view(acc@[j as int]));
        }
        if hl < xl {
            place_here = true;
        } else {
            j = j + 1;
        }
    }
    proof {
        lemma_insert_at(ms, xv, j as int);
    }
    acc.insert(j, x);
    proof {
        assert(snip_views(acc@) =~= ms.take(j as int) + seq![xv] + ms.skip(j as int));
    }
}

/// The snippets sorted by trigger length, longest first, equal lengths in
/// their given order.
fn sort_snippets(snips: &Vec<Snippet>) -> (r: Vec<Snippet>)
    ensures
        snip_views(r@) == spec_sorted_snippets(snip_views(snips@)),
{
    let ghost sv = snip_views(snips@);
    let mut acc: Vec<Snippet> = Vec::new();
    let mut i: usize = 0;
    proof {
        assert(snip_views(acc@) =~= Seq::<SnipView>::empty());
    }
    while i < snips.len()
        invariant
            i <= snips@.len(),
            sv == snip_views(snips@),
            spec_sorted_snippets(sv) == sort_from(sv, i as int, snip_views(acc@)),
        decreases snips@.len() - i,
    {
        let x = clone_snippet(&snips[i]);
        proof {
            assert(sv[i as int] == snip_view(snips@[i as int]));
        }
        insert_sorted(&mut acc, x);
        i = i + 1;
    }
    acc
}

/// The text after the snippets `snips[i..]` are applied in order: each
/// nonempty trigger's case-insensitive occurrences replaced by its
/// expansion with the date and time substituted.
pub open spec fn apply_from(
    text: Seq<char>,
    snips: Seq<SnipView>,
    i: int,
    date: Seq<char>,
    time: Seq<char>,
) -> Seq<char>
    decreases snips.len() - i when 0 <= i <= snips.len()
{
    if i >= snips.len() {
        text
    } else if snips[i].0.len() == 0 {
        apply_from(text, snips, i + 1, date, time)
    } else {
        apply_from(
            spec_replace_ci(text, lower(snips[i].0), spec_expand_expansion(snips[i].1, date, time)),
            snips,
            i + 1,
            date,
            time,
        )
    }
}

/// The text after snippet expansion: the snippets ordered longest trigger
/// first, then applied in turn.
pub open spec fn spec_apply_snippets(
    text: Seq<char>,
    snips: Seq<SnipView>,
    date: Seq<char>,
    time: Seq<char>,
) -> Seq<char> {
    apply_from(text, spec_sorted_snippets(snips), 0, date, time)
}

/// Expand the snippets in `text`, with the given date and time standing
/// in for `{{date}}` and `{{time}}`.
pub fn apply_snippets(text: &str, snippets: &Vec<Snippet>, date: &str, time: &str) -> (r: String)
    ensures
        r@ == spec_apply_snippets(text@, snip_views(snippets@), date@, time@),
{
    let sorted = sort_snippets(snippets);
    let ghost sv = snip_views(sorted@);
    let date_chars = str_to_chars(date);
    let time_chars = str_to_chars(time);
    let mut cur = str_to_chars(text);
    let mut i: usize = 0;
    while i < sorted.len()
        invariant
            i <= sorted@.len(),
            sv == snip_views(sorted@),
            date_chars@ == date@,
            time_chars@ == time@,
            spec_apply_snippets(text@, snip_views(snippets@), date@, time@) == apply_from(
                cur@,
                sv,
                i as int,
                date@,
                time@,
            ),
        decreases sorted@.len() - i,
    {
        let trigger = str_to_chars(sorted[i].trigger.as_str());
        proof {
            assert(sv[i as int] == snip_view(sorted@[i as int]));
        }
        if trigger.len() > 0 {
            let expansion = str_to_chars(sorted[i].expansion.as_str());
            let expanded = expand_expansion(&expansion, &date_chars, &time_chars);
            let trig_lower = lower_chars(&trigger);
            proof {
                crate::text::lemma_lower_props(trigger@);
            }
            cur = replace_ci_chars(&cur, &trig_lower, &expanded);
        }
        i = i + 1;
    }
    chars_to_string(&cur)
}

/// Expand the snippets in `text`, dated with the wall clock. With no
/// snippets the text passes through unchanged.
pub fn apply_snippets_now(text: &str, snippets: &Vec<Snippet>) -> (r: String)
    ensures
        exists|d: Seq<char>, t: Seq<char>|
            r@ == #[trigger] spec_apply_snippets(text@, snip_views(snippets@), d, t),
        snippets@.len() == 0 ==> r@ == text@,
{
    let date = local_date_string();
    let time = local_time_string();
    let r = apply_snippets(text, snippets, date.as_str(), time.as_str());
    proof {
        assert(r@ == spec_apply_snippets(text@, snip_views(snippets@), date@, time@));
        if snippets@.len() == 0 {
            assert(snip_views(snippets@) =~= Seq::<SnipView>::empty());
            assert(spec_sorted_snippets(snip_views(snippets@)) =~= Seq::<SnipView>::empty());
        }
    }
    r
}

} // verus!
