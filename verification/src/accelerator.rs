//! The keyboard-accelerator grammar.
//!
//! An accelerator is a text string of zero or more modifier tokens —
//! `<Primary>`, `<Shift>`, `<Ctrl>` — followed by the key text. Parsing
//! repeatedly searches for and removes each recognized token, in the fixed
//! order Primary, Shift, Ctrl, accumulating a modifier mask; whatever text
//! remains after all three passes is the key. Unrecognized tokens are not
//! rejected: they are left in place and fold into the key text.

use vstd::prelude::*;
use vstd::string::StrSliceExecFns;

use crate::event::ModifiersState;

verus! {

/// The token naming the platform-conventional "command" modifier.
pub open spec fn primary_token() -> Seq<char> {
    seq!['<', 'P', 'r', 'i', 'm', 'a', 'r', 'y', '>']
}

/// The token naming the shift modifier.
pub open spec fn shift_token() -> Seq<char> {
    seq!['<', 'S', 'h', 'i', 'f', 't', '>']
}

/// The token naming the control modifier.
pub open spec fn ctrl_token() -> Seq<char> {
    seq!['<', 'C', 't', 'r', 'l', '>']
}

/// `pat` occurs in `s` starting at position `i`.
pub open spec fn occurs_at(s: Seq<char>, pat: Seq<char>, i: int) -> bool {
    0 <= i && i + pat.len() <= s.len() && s.subrange(i, i + pat.len() as int) == pat
}

/// `pat` occurs somewhere in `s`.
pub open spec fn contains_token(s: Seq<char>, pat: Seq<char>) -> bool {
    exists|i: int| occurs_at(s, pat, i)
}

/// `s` with every occurrence of `pat` removed, scanning left to right and
/// resuming after each removed occurrence.
pub open spec fn strip_token(s: Seq<char>, pat: Seq<char>) -> Seq<char>
    decreases s.len(),
{
    if pat.len() == 0 || s.len() < pat.len() {
        s
    } else if s.subrange(0, pat.len() as int) == pat {
        strip_token(s.skip(pat.len() as int), pat)
    } else {
        seq![s[0]] + strip_token(s.skip(1), pat)
    }
}

/// The Primary token occurs in the input.
pub open spec fn primary_found(s: Seq<char>) -> bool {
    contains_token(s, primary_token())
}

/// The input after the Primary pass.
pub open spec fn after_primary(s: Seq<char>) -> Seq<char> {
    strip_token(s, primary_token())
}

/// The Shift token occurs in the text left by the Primary pass.
pub open spec fn shift_found(s: Seq<char>) -> bool {
    contains_token(after_primary(s), shift_token())
}

/// The input after the Primary and Shift passes.
pub open spec fn after_shift(s: Seq<char>) -> Seq<char> {
    strip_token(after_primary(s), shift_token())
}

/// The Ctrl token occurs in the text left by the first two passes.
pub open spec fn ctrl_found(s: Seq<char>) -> bool {
    contains_token(after_shift(s), ctrl_token())
}

/// The key text: what remains after all three passes.
pub open spec fn key_spec(s: Seq<char>) -> Seq<char> {
    strip_token(after_shift(s), ctrl_token())
}

/// The modifier mask the three passes accumulate.
pub open spec fn mask_spec(s: Seq<char>) -> ModifiersState {
    ModifiersState {
        shift: shift_found(s),
        ctrl: ctrl_found(s),
        alt: false,
        logo: primary_found(s),
    }
}

/// The mask is absent when no recognized token was found.
pub open spec fn masks_spec(s: Seq<char>) -> Option<ModifiersState> {
    if primary_found(s) || shift_found(s) || ctrl_found(s) {
        Some(mask_spec(s))
    } else {
        None
    }
}

/// A parsed accelerator: the key text and, when at least one recognized
/// modifier token was present, the accumulated mask.
#[derive(Clone, Debug, PartialEq, Eq)]
pub struct KeyEquivalent {
    pub key: Vec<char>,
    pub masks: Option<ModifiersState>,
}

/// The characters of `s`, in order.
fn chars_of(s: &str) -> (r: Vec<char>)
    ensures
        r@ == s@,
{
    let n: usize = s.unicode_len();
    let mut r: Vec<char> = Vec::new();
    let mut i: usize = 0;
    while i < n
        invariant
            n == s@.len(),
            i <= n,
            r@ == s@.subrange(0, i as int),
        decreases n - i,
    {
        let c = s.get_char(i);
        r.push(c);
        proof {
            assert(s@.subrange(0, i + 1) =~= s@.subrange(0, i as int).push(s@[i as int]));
        }
        i = i + 1;
    }
    proof {
        assert(s@.subrange(0, n as int) =~= s@);
    }
    r
}

fn primary_token_chars() -> (r: Vec<char>)
    ensures
        r@ == primary_token(),
{
    let mut r: Vec<char> = Vec::new();
    r.push('<');
    r.push('P');
    r.push('r');
    r.push('i');
    r.push('m');
    r.push('a');
    r.push('r');
    r.push('y');
    r.push('>');
    proof {
        assert(r@ =~= primary_token());
    }
    r
}

fn shift_token_chars() -> (r: Vec<char>)
    ensures
        r@ == shift_token(),
{
    let mut r: Vec<char> = Vec::new();
    r.push('<');
    r.push('S');
    r.push('h');
    r.push('i');
    r.push('f');
    r.push('t');
    r.push('>');
    proof {
        assert(r@ =~= shift_token());
    }
    r
}

fn ctrl_token_chars() -> (r: Vec<char>)
    ensures
        r@ == ctrl_token(),
{
    let mut r: Vec<char> = Vec::new();
    r.push('<');
    r.push('C');
    r.push('t');
    r.push('r');
    r.push('l');
    r.push('>');
    proof {
        assert(r@ =~= ctrl_token());
    }
    r
}

/// Whether `pat` occurs in `s` at position `i`.
fn token_at(s: &Vec<char>, i: usize, pat: &Vec<char>) -> (b: bool)
    requires
        i + pat@.len() <= s@.len(),
    ensures
        b == occurs_at(s@, pat@, i as int),
{
    let n = s.len();
    let m = pat.len();
    let mut j: usize = 0;
    while j < m
        invariant
            n == s@.len(),
            m == pat@.len(),
            i + m <= n,
            j <= m,
            forall|t: int| 0 <= t < j ==> s@[i + t] == pat@[t],
        decreases m - j,
    {
        if s[i + j] != pat[j] {
            proof {
                assert(s@.subrange(i as int, i + m as int)[j as int] == s@[i + j]);
                assert(!occurs_at(s@, pat@, i as int));
            }
            return false;
        }
        j = j + 1;
    }
    proof {
        assert(s@.subrange(i as int, i + m as int) =~= pat@);
    }
    true
}

/// Whether `pat` occurs anywhere in `s`.
fn find_token(s: &Vec<char>, pat: &Vec<char>) -> (b: bool)
    requires
        pat@.len() >= 1,
    ensures
        b == contains_token(s@, pat@),
{
    let n = s.len();
    let m = pat.len();
    if n < m {
        proof {
            assert forall|i: int| !occurs_at(s@, pat@, i) by {}
        }
        return false;
    }
    let mut i: usize = 0;
    while i <= n - m
        invariant
            m >= 1,
            m <= n,
            n == s@.len(),
            m == pat@.len(),
            i <= n - m + 1,
            forall|t: int| 0 <= t < i ==> !occurs_at(s@, pat@, t),
        decreases n - m + 1 - i,
    {
        if token_at(s, i, pat) {
            proof {
                assert(contains_token(s@, pat@)) by {
                    assert(occurs_at(s@, pat@, i as int));
                }
            }
            return true;
        }
        i = i + 1;
    }
    proof {
        assert forall|t: int| !occurs_at(s@, pat@, t) by {
            if 0 <= t < i {
            } else {
            }
        }
    }
    false
}

proof fn lemma_strip_short(s: Seq<char>, pat: Seq<char>)
    requires
        s.len() < pat.len(),
    ensures
        strip_token(s, pat) == s,
{
}

proof fn lemma_strip_match(s: Seq<char>, pat: Seq<char>)
    requires
        pat.len() >= 1,
        pat.len() <= s.len(),
        s.subrange(0, pat.len() as int) == pat,
    ensures
        strip_token(s, pat) == strip_token(s.skip(pat.len() as int), pat),
{
}

proof fn lemma_strip_keep(s: Seq<char>, pat: Seq<char>)
    requires
        pat.len() >= 1,
        s.len() >= 1,
        s.len() < pat.len() || s.subrange(0, pat.len() as int) != pat,
    ensures
        strip_token(s, pat) == seq![s[0]] + strip_token(s.skip(1), pat),
{
    if s.len() < pat.len() {
        assert(strip_token(s, pat) == s);
        lemma_strip_short(s.skip(1), pat);
        assert(seq![s[0]] + s.skip(1) =~= s);
    }
}

/// `s` with every occurrence of `pat` removed, scanning left to right.
fn strip_all(s: &Vec<char>, pat: &Vec<char>) -> (r: Vec<char>)
    requires
        pat@.len() >= 1,
    ensures
        r@ == strip_token(s@, pat@),
{
    let n = s.len();
    let m = pat.len();
    let mut out: Vec<char> = Vec::new();
    let mut i: usize = 0;
    proof {
        assert(s@.skip(0) =~= s@);
        assert(Seq::<char>::empty() + strip_token(s@, pat@) =~= strip_token(s@, pat@));
    }
    while i < n
        invariant
            n == s@.len(),
            m == pat@.len(),
            m >= 1,
            i <= n,
            strip_token(s@, pat@) == out@ + strip_token(s@.skip(i as int), pat@),
        decreases n - i,
    {
        let matched = if n - i >= m {
            token_at(s, i, pat)
        } else {
            false
        };
        if matched {
            proof {
                let tail = s@.skip(i as int);
                assert(tail.subrange(0, m as int) =~= s@.subrange(i as int, i + m as int));
                lemma_strip_match(tail, pat@);
                assert(tail.skip(m as int) =~= s@.skip(i + m as int));
            }
            i = i + m;
        } else {
            proof {
                let tail = s@.skip(i as int);
                if n - i >= m {
                    assert(tail.subrange(0, m as int) =~= s@.subrange(i as int, i + m as int));
                    assert(!occurs_at(s@, pat@, i as int));
                    assert(tail.subrange(0, m as int) != pat@);
                }
                lemma_strip_keep(tail, pat@);
                assert(tail[0] == s@[i as int]);
                assert(tail.skip(1) =~= s@.skip(i + 1));
                assert(out@.push(s@[i as int]) =~= out@ + seq![s@[i as int]]);
                assert((out@ + seq![s@[i as int]]) + strip_token(s@.skip(i + 1), pat@) =~= out@
                    + (seq![s@[i as int]] + strip_token(s@.skip(i + 1), pat@)));
            }
            let c = s[i];
            out.push(c);
            i = i + 1;
        }
    }
    proof {
        assert(s@.skip(n as int) =~= Seq::<char>::empty());
        lemma_strip_short(Seq::<char>::empty(), pat@);
        assert(out@ + Seq::<char>::empty() =~= out@);
    }
    out
}

/// One of the three recognized modifier tokens.
pub open spec fn is_modifier_token(t: Seq<char>) -> bool {
    t == primary_token() || t == shift_token() || t == ctrl_token()
}

/// Text without `'<'`: it can contain no modifier token.
pub open spec fn angle_free(s: Seq<char>) -> bool {
    forall|i: int| 0 <= i < s.len() ==> s[i] != '<'
}

/// The concatenation of a sequence of texts.
pub open spec fn concat_all(ts: Seq<Seq<char>>) -> Seq<char>
    decreases ts.len(),
{
    if ts.len() == 0 {
        Seq::empty()
    } else {
        ts[0] + concat_all(ts.skip(1))
    }
}

/// `ts` with every entry equal to `x` removed.
pub open spec fn remove_tok(ts: Seq<Seq<char>>, x: Seq<char>) -> Seq<Seq<char>>
    decreases ts.len(),
{
    if ts.len() == 0 {
        Seq::empty()
    } else if ts[0] == x {
        remove_tok(ts.skip(1), x)
    } else {
        seq![ts[0]] + remove_tok(ts.skip(1), x)
    }
}

/// A sequence of pairwise-distinct modifier tokens.
pub open spec fn tokens_wf(ts: Seq<Seq<char>>) -> bool {
    &&& forall|i: int| 0 <= i < ts.len() ==> is_modifier_token(#[trigger] ts[i])
    &&& forall|i: int, j: int| 0 <= i < j < ts.len() ==> ts[i] != ts[j]
}

proof fn lemma_token_shape(t: Seq<char>)
    requires
        is_modifier_token(t),
    ensures
        2 <= t.len(),
        t[0] == '<',
        forall|i: int| 1 <= i < t.len() ==> t[i] != '<',
{
    if t == primary_token() {
        assert forall|i: int| 1 <= i < t.len() implies t[i] != '<' by {
            assert(t[1] == 'P' && t[2] == 'r' && t[3] == 'i' && t[4] == 'm' && t[5] == 'a' && t[6]
                == 'r' && t[7] == 'y' && t[8] == '>');
        }
    } else if t == shift_token() {
        assert forall|i: int| 1 <= i < t.len() implies t[i] != '<' by {
            assert(t[1] == 'S' && t[2] == 'h' && t[3] == 'i' && t[4] == 'f' && t[5] == 't' && t[6]
                == '>');
        }
    } else {
        assert forall|i: int| 1 <= i < t.len() implies t[i] != '<' by {
            assert(t[1] == 'C' && t[2] == 't' && t[3] == 'r' && t[4] == 'l' && t[5] == '>');
        }
    }
}

proof fn lemma_tokens_differ_early(t1: Seq<char>, t2: Seq<char>)
    requires
        is_modifier_token(t1),
        is_modifier_token(t2),
        t1 != t2,
    ensures
        t1[1] != t2[1],
{
    assert(primary_token()[1] == 'P');
    assert(shift_token()[1] == 'S');
    assert(ctrl_token()[1] == 'C');
    if t1 == primary_token() && t2 == shift_token() {
    } else if t1 == primary_token() && t2 == ctrl_token() {
    } else if t1 == shift_token() && t2 == primary_token() {
    } else if t1 == shift_token() && t2 == ctrl_token() {
    } else if t1 == ctrl_token() && t2 == primary_token() {
    } else {
    }
}

proof fn lemma_occurs_shift_one(s: Seq<char>, x: Seq<char>, j: int)
    requires
        s.len() >= 1,
        j >= 0,
    ensures
        occurs_at(s, x, j + 1) <==> occurs_at(s.skip(1), x, j),
{
    if occurs_at(s, x, j + 1) {
        assert(s.skip(1).subrange(j, j + x.len() as int) =~= s.subrange(
            j + 1,
            j + 1 + x.len() as int,
        ));
    }
    if occurs_at(s.skip(1), x, j) {
        assert(s.subrange(j + 1, j + 1 + x.len() as int) =~= s.skip(1).subrange(
            j,
            j + x.len() as int,
        ));
    }
}

proof fn lemma_occurs_in_suffix(a: Seq<char>, b: Seq<char>, x: Seq<char>, j: int)
    requires
        j >= 0,
    ensures
        occurs_at(b, x, j) <==> occurs_at(a + b, x, j + a.len()),
{
    if occurs_at(b, x, j) {
        assert((a + b).subrange(j + a.len(), j + a.len() + x.len() as int) =~= b.subrange(
            j,
            j + x.len() as int,
        ));
    }
    if occurs_at(a + b, x, j + a.len()) {
        assert(b.subrange(j, j + x.len() as int) =~= (a + b).subrange(
            j + a.len(),
            j + a.len() + x.len() as int,
        ));
    }
}

/// No occurrence of one modifier token starts inside a different token that
/// prefixes the text.
proof fn lemma_no_occurrence_in_other_token(t: Seq<char>, rest: Seq<char>, x: Seq<char>)
    requires
        is_modifier_token(t),
        is_modifier_token(x),
        t != x,
    ensures
        forall|i: int| 0 <= i < t.len() ==> !occurs_at(t + rest, x, i),
{
    lemma_token_shape(t);
    lemma_token_shape(x);
    lemma_tokens_differ_early(t, x);
    assert forall|i: int| 0 <= i < t.len() implies !occurs_at(t + rest, x, i) by {
        if occurs_at(t + rest, x, i) {
            if i == 0 {
                assert((t + rest).subrange(0, x.len() as int)[1] == x[1]);
                assert((t + rest)[1] == t[1]);
            } else {
                assert((t + rest).subrange(i, i + x.len() as int)[0] == x[0]);
                assert((t + rest)[i] == t[i]);
            }
        }
    }
}

/// Stripping skips over a prefix in which no occurrence starts.
proof fn lemma_strip_over_prefix(a: Seq<char>, rest: Seq<char>, x: Seq<char>)
    requires
        x.len() >= 1,
        forall|i: int| 0 <= i < a.len() ==> !occurs_at(a + rest, x, i),
    ensures
        strip_token(a + rest, x) == a + strip_token(rest, x),
    decreases a.len(),
{
    let s = a + rest;
    if a.len() == 0 {
        assert(s =~= rest);
        assert(a + strip_token(rest, x) =~= strip_token(rest, x));
    } else if s.len() < x.len() {
        lemma_strip_short(s, x);
        assert(rest.len() < x.len());
        lemma_strip_short(rest, x);
    } else {
        assert(!occurs_at(s, x, 0));
        assert(s.subrange(0, x.len() as int) != x);
        lemma_strip_keep(s, x);
        assert(s.skip(1) =~= a.skip(1) + rest);
        assert forall|i: int| 0 <= i < a.skip(1).len() implies !occurs_at(
            a.skip(1) + rest,
            x,
            i,
        ) by {
            lemma_occurs_shift_one(s, x, i);
            assert(!occurs_at(s, x, i + 1));
        }
        lemma_strip_over_prefix(a.skip(1), rest, x);
        assert(s[0] == a[0]);
        assert(seq![a[0]] + (a.skip(1) + strip_token(rest, x)) =~= a + strip_token(rest, x));
    }
}

/// Containment ignores a prefix in which no occurrence starts.
proof fn lemma_contains_over_prefix(a: Seq<char>, rest: Seq<char>, x: Seq<char>)
    requires
        forall|i: int| 0 <= i < a.len() ==> !occurs_at(a + rest, x, i),
    ensures
        contains_token(a + rest, x) == contains_token(rest, x),
{
    let s = a + rest;
    if contains_token(s, x) {
        let i = choose|i: int| occurs_at(s, x, i);
        assert(i >= a.len());
        lemma_occurs_in_suffix(a, rest, x, i - a.len());
        assert(occurs_at(rest, x, i - a.len()));
    }
    if contains_token(rest, x) {
        let j = choose|j: int| occurs_at(rest, x, j);
        lemma_occurs_in_suffix(a, rest, x, j);
        assert(occurs_at(s, x, j + a.len()));
    }
}

/// Angle-free text contains no modifier token and is left unchanged by a
/// strip pass.
proof fn lemma_angle_free_clean(k: Seq<char>, x: Seq<char>)
    requires
        angle_free(k),
        is_modifier_token(x),
    ensures
        !contains_token(k, x),
        strip_token(k, x) == k,
    decreases k.len(),
{
    lemma_token_shape(x);
    assert forall|i: int| !occurs_at(k, x, i) by {
        if occurs_at(k, x, i) {
            assert(k.subrange(i, i + x.len() as int)[0] == x[0]);
            assert(k[i] == '<');
        }
    }
    if k.len() < x.len() {
        lemma_strip_short(k, x);
    } else {
        assert(k.subrange(0, x.len() as int) != x);
        lemma_strip_keep(k, x);
        assert(angle_free(k.skip(1)));
        lemma_angle_free_clean(k.skip(1), x);
        assert(seq![k[0]] + k.skip(1) =~= k);
    }
}

/// One strip pass over a token list followed by angle-free key text removes
/// exactly the occurrences of that token, and finds one exactly when the
/// list holds it.
proof fn lemma_pass_over_token_list(ts: Seq<Seq<char>>, k: Seq<char>, x: Seq<char>)
    requires
        tokens_wf(ts),
        is_modifier_token(x),
        angle_free(k),
    ensures
        strip_token(concat_all(ts) + k, x) == concat_all(remove_tok(ts, x)) + k,
        contains_token(concat_all(ts) + k, x) == ts.contains(x),
    decreases ts.len(),
{
    lemma_token_shape(x);
    if ts.len() == 0 {
        assert(concat_all(ts) + k =~= k);
        lemma_angle_free_clean(k, x);
        assert(concat_all(remove_tok(ts, x)) + k =~= k);
        assert(!ts.contains(x));
    } else {
        let h = ts[0];
        let tail = ts.skip(1);
        assert(tokens_wf(tail)) by {
            assert(forall|i: int| 0 <= i < tail.len() ==> tail[i] == ts[i + 1]);
        }
        let s = concat_all(ts) + k;
        let srest = concat_all(tail) + k;
        assert(s =~= h + srest);
        lemma_pass_over_token_list(tail, k, x);
        if h == x {
            assert((h + srest).subrange(0, x.len() as int) =~= x);
            lemma_strip_match(h + srest, x);
            assert((h + srest).skip(x.len() as int) =~= srest);
            assert(strip_token(s, x) == strip_token(srest, x));
            assert(remove_tok(ts, x) == remove_tok(tail, x));
            assert(contains_token(s, x)) by {
                assert((h + srest).subrange(0, x.len() as int) =~= x);
                assert(occurs_at(s, x, 0));
            }
            assert(ts.contains(x)) by {
                assert(ts[0] == x);
            }
        } else {
            lemma_no_occurrence_in_other_token(h, srest, x);
            lemma_strip_over_prefix(h, srest, x);
            assert(strip_token(s, x) == h + strip_token(srest, x));
            assert(h + (concat_all(remove_tok(tail, x)) + k) =~= (h + concat_all(
                remove_tok(tail, x),
            )) + k);
            assert(remove_tok(ts, x) == seq![h] + remove_tok(tail, x));
            assert(concat_all(seq![h] + remove_tok(tail, x)) == h + concat_all(
                (seq![h] + remove_tok(tail, x)).skip(1),
            ));
            assert((seq![h] + remove_tok(tail, x)).skip(1) =~= remove_tok(tail, x));
            lemma_contains_over_prefix(h, srest, x);
            assert(contains_token(s, x) == tail.contains(x));
            assert(ts.contains(x) == tail.contains(x)) by {
                if tail.contains(x) {
                    let i = choose|i: int| 0 <= i < tail.len() && tail[i] == x;
                    assert(ts[i + 1] == x);
                }
                if ts.contains(x) {
                    let i = choose|i: int| 0 <= i < ts.len() && ts[i] == x;
                    assert(i != 0);
                    assert(tail[i - 1] == x);
                }
            }
        }
    }
}

proof fn lemma_remove_preserves_wf(ts: Seq<Seq<char>>, x: Seq<char>)
    requires
        tokens_wf(ts),
    ensures
        tokens_wf(remove_tok(ts, x)),
        forall|y: Seq<char>| y != x ==> remove_tok(ts, x).contains(y) == ts.contains(y),
        !remove_tok(ts, x).contains(x),
    decreases ts.len(),
{
    if ts.len() > 0 {
        let tail = ts.skip(1);
        assert(tokens_wf(tail)) by {
            assert(forall|i: int| 0 <= i < tail.len() ==> tail[i] == ts[i + 1]);
        }
        lemma_remove_preserves_wf(tail, x);
        let r = remove_tok(ts, x);
        let rt = remove_tok(tail, x);
        assert forall|y: Seq<char>| ts.contains(y) == (ts[0] == y || tail.contains(y)) by {
            assert forall|y: Seq<char>| #[trigger] ts.contains(y) implies (ts[0] == y
                || tail.contains(y)) by {
                let i = choose|i: int| 0 <= i < ts.len() && ts[i] == y;
                if i != 0 {
                    assert(tail[i - 1] == y);
                }
            }
            assert forall|y: Seq<char>| (ts[0] == y || tail.contains(y)) implies #[trigger] ts
                .contains(y) by {
                if ts[0] == y {
                    assert(ts.contains(y)) by {
                        assert(ts[0] == y);
                    }
                } else {
                    let i = choose|i: int| 0 <= i < tail.len() && tail[i] == y;
                    assert(ts[i + 1] == y);
                }
            }
        }
        if ts[0] == x {
            assert(r == rt);
        } else {
            assert(r == seq![ts[0]] + rt);
            assert forall|y: Seq<char>| r.contains(y) == (ts[0] == y || rt.contains(y)) by {
                assert forall|y: Seq<char>| #[trigger] r.contains(y) implies (ts[0] == y
                    || rt.contains(y)) by {
                    let i = choose|i: int| 0 <= i < r.len() && r[i] == y;
                    if i != 0 {
                        assert(rt[i - 1] == y);
                    }
                }
                assert forall|y: Seq<char>| (ts[0] == y || rt.contains(y)) implies #[trigger] r
                    .contains(y) by {
                    if ts[0] == y {
                        assert(r[0] == y);
                    } else {
                        let i = choose|i: int| 0 <= i < rt.len() && rt[i] == y;
                        assert(r[i + 1] == y);
                    }
                }
            }
            assert(tokens_wf(r)) by {
                assert(forall|i: int| 0 <= i < r.len() ==> (i == 0 && r[i] == ts[0] || r[i] == rt[i
                    - 1]));
                assert forall|i: int, j: int| 0 <= i < j < r.len() implies r[i] != r[j] by {
                    if i == 0 {
                        assert(rt.contains(r[j])) by {
                            assert(rt[j - 1] == r[j]);
                        }
                        assert(tail.contains(r[j]));
                        let q = choose|q: int| 0 <= q < tail.len() && tail[q] == r[j];
                        assert(ts[q + 1] == r[j]);
                        assert(ts[0] != ts[q + 1]);
                    }
                }
            }
        }
    }
}

/// Removing the three recognized tokens, in any order that covers all
/// three, empties a list of modifier tokens.
proof fn lemma_three_passes_empty(ts: Seq<Seq<char>>)
    requires
        forall|i: int| 0 <= i < ts.len() ==> is_modifier_token(#[trigger] ts[i]),
    ensures
        remove_tok(remove_tok(remove_tok(ts, primary_token()), shift_token()), ctrl_token())
            == Seq::<Seq<char>>::empty(),
    decreases ts.len(),
{
    if ts.len() > 0 {
        let h = ts[0];
        let tail = ts.skip(1);
        assert(forall|i: int| 0 <= i < tail.len() ==> tail[i] == ts[i + 1]);
        lemma_three_passes_empty(tail);
        let r1 = remove_tok(ts, primary_token());
        let r1t = remove_tok(tail, primary_token());
        if h == primary_token() {
            assert(r1 == r1t);
        } else {
            assert(r1 == seq![h] + r1t);
            assert(r1[0] == h && r1.skip(1) =~= r1t);
            let r2t = remove_tok(r1t, shift_token());
            if h == shift_token() {
                assert(remove_tok(r1, shift_token()) == r2t);
            } else {
                assert(remove_tok(r1, shift_token()) == seq![h] + r2t);
                assert((seq![h] + r2t)[0] == h && (seq![h] + r2t).skip(1) =~= r2t);
                assert(h == ctrl_token());
                assert(remove_tok(seq![h] + r2t, ctrl_token()) == remove_tok(r2t, ctrl_token()));
            }
        }
    }
}

/// Law: the modifier mask and the key depend only on which modifier tokens
/// the accelerator text carries before its key text, not on their order.
/// For any list of distinct recognized tokens followed by key text free of
/// `'<'`, each mask bit is set exactly when the corresponding token is in
/// the list, and the key is exactly the key text.
pub proof fn lemma_parse_token_list(ts: Seq<Seq<char>>, k: Seq<char>)
    requires
        tokens_wf(ts),
        angle_free(k),
    ensures
        primary_found(concat_all(ts) + k) == ts.contains(primary_token()),
        shift_found(concat_all(ts) + k) == ts.contains(shift_token()),
        ctrl_found(concat_all(ts) + k) == ts.contains(ctrl_token()),
        key_spec(concat_all(ts) + k) == k,
{
    let s = concat_all(ts) + k;
    lemma_pass_over_token_list(ts, k, primary_token());
    let ts1 = remove_tok(ts, primary_token());
    lemma_remove_preserves_wf(ts, primary_token());
    assert(after_primary(s) == concat_all(ts1) + k);
    lemma_pass_over_token_list(ts1, k, shift_token());
    assert(shift_found(s) == ts1.contains(shift_token()));
    assert(ts1.contains(shift_token()) == ts.contains(shift_token())) by {
        assert(shift_token() != primary_token()) by {
            assert(shift_token().len() != primary_token().len());
        }
    }
    let ts2 = remove_tok(ts1, shift_token());
    lemma_remove_preserves_wf(ts1, shift_token());
    assert(after_shift(s) == concat_all(ts2) + k);
    lemma_pass_over_token_list(ts2, k, ctrl_token());
    assert(ctrl_found(s) == ts2.contains(ctrl_token()));
    assert(ts2.contains(ctrl_token()) == ts.contains(ctrl_token())) by {
        assert(ctrl_token() != primary_token()) by {
            assert(ctrl_token().len() != primary_token().len());
        }
        assert(ctrl_token() != shift_token()) by {
            assert(ctrl_token().len() != shift_token().len());
        }
    }
    assert(key_spec(s) == concat_all(remove_tok(ts2, ctrl_token())) + k);
    assert(remove_tok(ts2, ctrl_token()) == Seq::<Seq<char>>::empty()) by {
        lemma_three_passes_empty(ts);
    }
    assert(concat_all(Seq::<Seq<char>>::empty()) + k =~= k);
}

/// Law: the order of the modifier tokens in an accelerator does not affect
/// the parse. Two accelerators made of the same set of distinct recognized
/// tokens — in any order — followed by the same key text parse to the same
/// mask and the same key.
pub proof fn lemma_modifier_order_irrelevant(
    ts1: Seq<Seq<char>>,
    ts2: Seq<Seq<char>>,
    k: Seq<char>,
)
    requires
        tokens_wf(ts1),
        tokens_wf(ts2),
        angle_free(k),
        forall|t: Seq<char>| ts1.contains(t) == ts2.contains(t),
    ensures
        masks_spec(concat_all(ts1) + k) == masks_spec(concat_all(ts2) + k),
        key_spec(concat_all(ts1) + k) == key_spec(concat_all(ts2) + k),
{
    lemma_parse_token_list(ts1, k);
    lemma_parse_token_list(ts2, k);
}

/// Parse an accelerator string: search for and remove the three recognized
/// modifier tokens in the fixed order Primary, Shift, Ctrl; the text left
/// after the three passes is the key, and the mask is present exactly when
/// at least one token was found. Unrecognized text is folded into the key.
pub fn parse_accelerator(accelerator: &str) -> (k: KeyEquivalent)
    ensures
        k.key@ == key_spec(accelerator@),
        k.masks == masks_spec(accelerator@),
{
    let chars = chars_of(accelerator);
    let primary = primary_token_chars();
    let shift = shift_token_chars();
    let ctrl = ctrl_token_chars();
    let has_primary = find_token(&chars, &primary);
    let rest1 = strip_all(&chars, &primary);
    let has_shift = find_token(&rest1, &shift);
    let rest2 = strip_all(&rest1, &shift);
    let has_ctrl = find_token(&rest2, &ctrl);
    let key = strip_all(&rest2, &ctrl);
    let masks = if has_primary || has_shift || has_ctrl {
        Some(
            ModifiersState {
                shift: has_shift,
                ctrl: has_ctrl,
                alt: false,
                logo: has_primary,
            },
        )
    } else {
        None
    };
    KeyEquivalent { key, masks }
}

} // verus!
