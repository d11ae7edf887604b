//! Character and string utilities the rest of the library is specified with:
//! ASCII case folding, whitespace and quote trimming, prefix tests, splitting
//! at a separator, and decimal rendering of integers.

use vstd::prelude::*;
use vstd::string::StrSliceExecFns;
use vstd::string::StringExecFns;

verus! {

/// The whitespace characters that trimming removes.
pub open spec fn is_space(c: char) -> bool {
    c == ' ' || c == '\t' || c == '\n' || c == '\r' || c == '\u{c}'
}

/// The quote characters stripped from around an assistant reply.
pub open spec fn is_quote(c: char) -> bool {
    c == '\'' || c == '"' || c == '`'
}

/// ASCII case folding: a lower-case letter maps to its upper-case code,
/// every other character to its own code.
pub open spec fn fold_char(c: char) -> int {
    if 97 <= c as u32 && c as u32 <= 122 {
        c as u32 - 32
    } else {
        c as u32 as int
    }
}

/// Two character sequences are equal up to ASCII case.
pub open spec fn seq_eq_ci(a: Seq<char>, b: Seq<char>) -> bool {
    a.len() == b.len() && (forall|i: int| 0 <= i < a.len() ==> fold_char(a[i]) == fold_char(b[i]))
}

/// `s` begins with `p`, compared case-insensitively.
pub open spec fn starts_with_ci(s: Seq<char>, p: Seq<char>) -> bool {
    p.len() <= s.len() && seq_eq_ci(s.subrange(0, p.len() as int), p)
}

pub open spec fn trim_start_spec(s: Seq<char>) -> Seq<char>
    decreases s.len(),
{
    if s.len() > 0 && is_space(s[0]) {
        trim_start_spec(s.drop_first())
    } else {
        s
    }
}

pub open spec fn trim_end_spec(s: Seq<char>) -> Seq<char>
    decreases s.len(),
{
    if s.len() > 0 && is_space(s[s.len() - 1]) {
        trim_end_spec(s.drop_last())
    } else {
        s
    }
}

/// Surrounding whitespace removed from both ends.
pub open spec fn trim_spec(s: Seq<char>) -> Seq<char> {
    trim_end_spec(trim_start_spec(s))
}

/// Exactly one layer of enclosing quote characters removed: at most one
/// leading and at most one trailing quote.
pub open spec fn strip_quotes_spec(s: Seq<char>) -> Seq<char> {
    let t = if s.len() > 0 && is_quote(s[0]) {
        s.drop_first()
    } else {
        s
    };
    if t.len() > 0 && is_quote(t[t.len() - 1]) {
        t.drop_last()
    } else {
        t
    }
}

/// At most one trailing `c` removed.
pub open spec fn strip_one_suffix(s: Seq<char>, c: char) -> Seq<char> {
    if s.len() > 0 && s[s.len() - 1] == c {
        s.drop_last()
    } else {
        s
    }
}

/// Whether `c` occurs in `s`.
pub open spec fn contains_char(s: Seq<char>, c: char) -> bool
    decreases s.len(),
{
    s.len() > 0 && (s[0] == c || contains_char(s.drop_first(), c))
}

/// Everything after the first occurrence of `c`; empty when `c` is absent.
pub open spec fn after_first(s: Seq<char>, c: char) -> Seq<char>
    decreases s.len(),
{
    if s.len() == 0 {
        Seq::empty()
    } else if s[0] == c {
        s.drop_first()
    } else {
        after_first(s.drop_first(), c)
    }
}

pub open spec fn digit_char(d: int) -> char {
    if d == 0 {
        '0'
    } else if d == 1 {
        '1'
    } else if d == 2 {
        '2'
    } else if d == 3 {
        '3'
    } else if d == 4 {
        '4'
    } else if d == 5 {
        '5'
    } else if d == 6 {
        '6'
    } else if d == 7 {
        '7'
    } else if d == 8 {
        '8'
    } else {
        '9'
    }
}

/// The decimal digits of `n`, most significant first.
pub open spec fn dec_nat(n: nat) -> Seq<char>
    decreases n,
{
    if n < 10 {
        seq![digit_char(n as int)]
    } else {
        dec_nat(n / 10).push(digit_char((n % 10) as int))
    }
}

/// Decimal rendering of an integer, with a leading minus sign when negative.
pub open spec fn dec_int(n: int) -> Seq<char> {
    if n < 0 {
        seq!['-'] + dec_nat((-n) as nat)
    } else {
        dec_nat(n as nat)
    }
}

/// A character whose code lies outside both ASCII letter ranges is the only
/// character with its case fold.
pub proof fn lemma_fold_rigid(c: char)
    requires
        !(65 <= c as u32 <= 90),
        !(97 <= c as u32 <= 122),
    ensures
        forall|d: char| fold_char(d) == fold_char(c) ==> d == c,
{
    assert forall|d: char| fold_char(d) == fold_char(c) implies d == c by {
        vstd::utf8::char_u32_cast(d, d as u32);
        vstd::utf8::char_u32_cast(c, c as u32);
    }
}

/// Characters with equal case folds agree on being whitespace, on being quote
/// characters, and on being any of the separators the directive grammar reads:
/// folding moves only the letters `a` through `z`.
pub proof fn lemma_fold_special(c: char, d: char)
    requires
        fold_char(c) == fold_char(d),
    ensures
        is_space(c) == is_space(d),
        is_quote(c) == is_quote(d),
        (c == ' ') == (d == ' '),
        (c == ']') == (d == ']'),
        (c == ':') == (d == ':'),
{
    lemma_fold_rigid(' ');
    lemma_fold_rigid('\t');
    lemma_fold_rigid('\n');
    lemma_fold_rigid('\r');
    lemma_fold_rigid('\u{c}');
    lemma_fold_rigid('\'');
    lemma_fold_rigid('"');
    lemma_fold_rigid('`');
    lemma_fold_rigid(']');
    lemma_fold_rigid(':');
}

pub proof fn lemma_seq_eq_ci_drop_first(a: Seq<char>, b: Seq<char>)
    requires
        seq_eq_ci(a, b),
        a.len() > 0,
    ensures
        seq_eq_ci(a.drop_first(), b.drop_first()),
{
    assert forall|i: int| 0 <= i < a.drop_first().len() implies fold_char(a.drop_first()[i])
        == fold_char(b.drop_first()[i]) by {
        assert(a.drop_first()[i] == a[i + 1]);
        assert(b.drop_first()[i] == b[i + 1]);
    }
}

pub proof fn lemma_seq_eq_ci_drop_last(a: Seq<char>, b: Seq<char>)
    requires
        seq_eq_ci(a, b),
        a.len() > 0,
    ensures
        seq_eq_ci(a.drop_last(), b.drop_last()),
{
}

/// Sequences equal up to case are trimmed at the same places.
pub proof fn lemma_trim_start_ci(a: Seq<char>, b: Seq<char>)
    requires
        seq_eq_ci(a, b),
    ensures
        seq_eq_ci(trim_start_spec(a), trim_start_spec(b)),
    decreases a.len(),
{
    if a.len() > 0 {
        lemma_fold_special(a[0], b[0]);
        if is_space(a[0]) {
            lemma_seq_eq_ci_drop_first(a, b);
            lemma_trim_start_ci(a.drop_first(), b.drop_first());
        }
    }
}

pub proof fn lemma_trim_end_ci(a: Seq<char>, b: Seq<char>)
    requires
        seq_eq_ci(a, b),
    ensures
        seq_eq_ci(trim_end_spec(a), trim_end_spec(b)),
    decreases a.len(),
{
    if a.len() > 0 {
        lemma_fold_special(a[a.len() - 1], b[b.len() - 1]);
        if is_space(a[a.len() - 1]) {
            lemma_seq_eq_ci_drop_last(a, b);
            lemma_trim_end_ci(a.drop_last(), b.drop_last());
        }
    }
}

pub proof fn lemma_strip_quotes_ci(a: Seq<char>, b: Seq<char>)
    requires
        seq_eq_ci(a, b),
    ensures
        seq_eq_ci(strip_quotes_spec(a), strip_quotes_spec(b)),
{
    if a.len() > 0 {
        lemma_fold_special(a[0], b[0]);
    }
    let ta = if a.len() > 0 && is_quote(a[0]) {
        a.drop_first()
    } else {
        a
    };
    let tb = if b.len() > 0 && is_quote(b[0]) {
        b.drop_first()
    } else {
        b
    };
    if a.len() > 0 && is_quote(a[0]) {
        lemma_seq_eq_ci_drop_first(a, b);
    }
    assert(seq_eq_ci(ta, tb));
    if ta.len() > 0 {
        lemma_fold_special(ta[ta.len() - 1], tb[tb.len() - 1]);
        if is_quote(ta[ta.len() - 1]) {
            lemma_seq_eq_ci_drop_last(ta, tb);
        }
    }
}

/// Case-equal sequences contain a case-rigid character at the same places.
pub proof fn lemma_after_first_ci(a: Seq<char>, b: Seq<char>, c: char)
    requires
        seq_eq_ci(a, b),
        forall|d: char| fold_char(d) == fold_char(c) ==> d == c,
    ensures
        contains_char(a, c) == contains_char(b, c),
        seq_eq_ci(after_first(a, c), after_first(b, c)),
    decreases a.len(),
{
    if a.len() > 0 {
        assert((a[0] == c) == (b[0] == c)) by {
            if a[0] == c {
                assert(fold_char(b[0]) == fold_char(c));
            }
            if b[0] == c {
                assert(fold_char(a[0]) == fold_char(c));
            }
        }
        lemma_seq_eq_ci_drop_first(a, b);
        if a[0] != c {
            lemma_after_first_ci(a.drop_first(), b.drop_first(), c);
        }
    }
}

pub proof fn lemma_strip_one_suffix_ci(a: Seq<char>, b: Seq<char>, c: char)
    requires
        seq_eq_ci(a, b),
        forall|d: char| fold_char(d) == fold_char(c) ==> d == c,
    ensures
        seq_eq_ci(strip_one_suffix(a, c), strip_one_suffix(b, c)),
{
    if a.len() > 0 {
        assert((a[a.len() - 1] == c) == (b[b.len() - 1] == c)) by {
            if a[a.len() - 1] == c {
                assert(fold_char(b[b.len() - 1]) == fold_char(c));
            }
            if b[b.len() - 1] == c {
                assert(fold_char(a[a.len() - 1]) == fold_char(c));
            }
        }
        if a[a.len() - 1] == c {
            lemma_seq_eq_ci_drop_last(a, b);
        }
    }
}

/// Case-equal sequences start with the same prefixes, up to case.
pub proof fn lemma_starts_with_ci_congruence(a: Seq<char>, b: Seq<char>, p: Seq<char>)
    requires
        seq_eq_ci(a, b),
    ensures
        starts_with_ci(a, p) == starts_with_ci(b, p),
{
    if p.len() <= a.len() {
        assert forall|i: int| 0 <= i < p.len() implies fold_char(a.subrange(0, p.len() as int)[i])
            == fold_char(b.subrange(0, p.len() as int)[i]) by {
            assert(a.subrange(0, p.len() as int)[i] == a[i]);
            assert(b.subrange(0, p.len() as int)[i] == b[i]);
        }
    }
}

/// Stripping one layer of quotes removes exactly the enclosing pair: no
/// deeper layer is touched.
pub proof fn lemma_strip_quotes_one_layer(s: Seq<char>, q1: char, q2: char)
    requires
        is_quote(q1),
        is_quote(q2),
    ensures
        strip_quotes_spec(seq![q1] + s + seq![q2]) == s,
{
    let t = seq![q1] + s + seq![q2];
    assert(t.len() == s.len() + 2);
    assert(t[0] == q1);
    assert(t.drop_first() =~= s + seq![q2]);
    assert((s + seq![q2])[s.len() as int] == q2);
    assert((s + seq![q2]).drop_last() =~= s);
}

/// Where a character is absent, everything after its first occurrence is the
/// empty sequence.
pub proof fn lemma_after_first_absent(s: Seq<char>, c: char)
    requires
        !contains_char(s, c),
    ensures
        after_first(s, c) == Seq::<char>::empty(),
    decreases s.len(),
{
    if s.len() > 0 {
        lemma_after_first_absent(s.drop_first(), c);
    }
}

pub proof fn lemma_trim_start_skip(s: Seq<char>, i: int)
    requires
        0 <= i <= s.len(),
        forall|j: int| 0 <= j < i ==> is_space(s[j]),
    ensures
        trim_start_spec(s) == trim_start_spec(s.subrange(i, s.len() as int)),
    decreases i,
{
    if i == 0 {
        assert(s.subrange(0, s.len() as int) =~= s);
    } else {
        assert(is_space(s[0]));
        assert(s.drop_first() =~= s.subrange(1, s.len() as int));
        lemma_trim_start_skip(s.drop_first(), i - 1);
        assert(s.drop_first().subrange(i - 1, s.drop_first().len() as int) =~= s.subrange(
            i,
            s.len() as int,
        ));
    }
}

pub proof fn lemma_trim_end_skip(s: Seq<char>, i: int)
    requires
        0 <= i <= s.len(),
        forall|j: int| i <= j < s.len() ==> is_space(s[j]),
    ensures
        trim_end_spec(s) == trim_end_spec(s.subrange(0, i)),
    decreases s.len() - i,
{
    if i == s.len() {
        assert(s.subrange(0, s.len() as int) =~= s);
    } else {
        assert(is_space(s[s.len() - 1]));
        assert(s.drop_last() =~= s.subrange(0, s.len() - 1));
        lemma_trim_end_skip(s.drop_last(), i);
        assert(s.drop_last().subrange(0, i) =~= s.subrange(0, i));
    }
}

pub proof fn lemma_after_first_skip(s: Seq<char>, c: char, i: int)
    requires
        0 <= i <= s.len(),
        forall|j: int| 0 <= j < i ==> s[j] != c,
    ensures
        after_first(s, c) == after_first(s.subrange(i, s.len() as int), c),
        contains_char(s, c) == contains_char(s.subrange(i, s.len() as int), c),
    decreases i,
{
    if i == 0 {
        assert(s.subrange(0, s.len() as int) =~= s);
    } else {
        assert(s[0] != c);
        assert(s.drop_first() =~= s.subrange(1, s.len() as int));
        lemma_after_first_skip(s.drop_first(), c, i - 1);
        assert(s.drop_first().subrange(i - 1, s.drop_first().len() as int) =~= s.subrange(
            i,
            s.len() as int,
        ));
    }
}

pub fn is_space_char(c: char) -> (b: bool)
    ensures
        b == is_space(c),
{
    c == ' ' || c == '\t' || c == '\n' || c == '\r' || c == '\u{c}'
}

pub fn is_quote_char(c: char) -> (b: bool)
    ensures
        b == is_quote(c),
{
    c == '\'' || c == '"' || c == '`'
}

pub fn fold_char_exec(c: char) -> (r: u32)
    ensures
        r as int == fold_char(c),
{
    let u: u32 = c as u32;
    if 97 <= u && u <= 122 {
        u - 32
    } else {
        u
    }
}

pub fn trim_start_str(s: &str) -> (r: &str)
    ensures
        r@ == trim_start_spec(s@),
{
    let n: usize = s.unicode_len();
    let mut lo: usize = 0;
    while lo < n && is_space_char(s.get_char(lo))
        invariant
            n == s@.len(),
            lo <= n,
            forall|j: int| 0 <= j < lo ==> is_space(s@[j]),
        decreases n - lo,
    {
        lo = lo + 1;
    }
    proof {
        lemma_trim_start_skip(s@, lo as int);
        let rest = s@.subrange(lo as int, s@.len() as int);
        if lo < n {
            assert(rest[0] == s@[lo as int]);
            assert(!is_space(rest[0]));
            assert(trim_start_spec(rest) == rest);
        } else {
            assert(rest.len() == 0);
            assert(trim_start_spec(rest) == rest);
        }
    }
    s.substring_char(lo, n)
}

pub fn trim_end_str(s: &str) -> (r: &str)
    ensures
        r@ == trim_end_spec(s@),
{
    let n: usize = s.unicode_len();
    let mut hi: usize = n;
    while hi > 0 && is_space_char(s.get_char(hi - 1))
        invariant
            n == s@.len(),
            hi <= n,
            forall|j: int| hi <= j < n ==> is_space(s@[j]),
        decreases hi,
    {
        hi = hi - 1;
    }
    proof {
        lemma_trim_end_skip(s@, hi as int);
        let rest = s@.subrange(0, hi as int);
        if hi > 0 {
            assert(rest[rest.len() - 1] == s@[hi - 1]);
            assert(!is_space(rest[rest.len() - 1]));
            assert(trim_end_spec(rest) == rest);
        } else {
            assert(rest.len() == 0);
            assert(trim_end_spec(rest) == rest);
        }
    }
    s.substring_char(0, hi)
}

pub fn trim_str(s: &str) -> (r: &str)
    ensures
        r@ == trim_spec(s@),
{
    trim_end_str(trim_start_str(s))
}

pub fn strip_quotes_str(s: &str) -> (r: &str)
    ensures
        r@ == strip_quotes_spec(s@),
{
    let n: usize = s.unicode_len();
    let lo: usize = if n > 0 && is_quote_char(s.get_char(0)) {
        1
    } else {
        0
    };
    let hi: usize = if n > lo && is_quote_char(s.get_char(n - 1)) {
        n - 1
    } else {
        n
    };
    proof {
        let t = if s@.len() > 0 && is_quote(s@[0]) {
            s@.drop_first()
        } else {
            s@
        };
        assert(t =~= s@.subrange(lo as int, n as int));
        if t.len() > 0 && is_quote(t[t.len() - 1]) {
            assert(t.drop_last() =~= s@.subrange(lo as int, hi as int));
        } else {
            assert(t =~= s@.subrange(lo as int, hi as int));
        }
    }
    s.substring_char(lo, hi)
}

pub fn has_prefix_ci(s: &str, pat: &str) -> (b: bool)
    ensures
        b == starts_with_ci(s@, pat@),
{
    let n: usize = s.unicode_len();
    let m: usize = pat.unicode_len();
    if n < m {
        return false;
    }
    let mut i: usize = 0;
    while i < m
        invariant
            m <= n,
            n == s@.len(),
            m == pat@.len(),
            i <= m,
            forall|j: int| 0 <= j < i ==> fold_char(s@[j]) == fold_char(pat@[j]),
        decreases m - i,
    {
        if fold_char_exec(s.get_char(i)) != fold_char_exec(pat.get_char(i)) {
            proof {
                assert(s@.subrange(0, m as int)[i as int] == s@[i as int]);
                assert(!seq_eq_ci(s@.subrange(0, m as int), pat@));
            }
            return false;
        }
        i = i + 1;
    }
    proof {
        assert forall|j: int| 0 <= j < m implies fold_char(s@.subrange(0, m as int)[j])
            == fold_char(pat@[j]) by {
            assert(s@.subrange(0, m as int)[j] == s@[j]);
        }
        assert(seq_eq_ci(s@.subrange(0, m as int), pat@));
    }
    true
}

pub fn eq_ci_str(s: &str, pat: &str) -> (b: bool)
    ensures
        b == seq_eq_ci(s@, pat@),
{
    let n: usize = s.unicode_len();
    let m: usize = pat.unicode_len();
    if n != m {
        return false;
    }
    let mut i: usize = 0;
    while i < m
        invariant
            n == s@.len(),
            m == pat@.len(),
            n == m,
            i <= m,
            forall|j: int| 0 <= j < i ==> fold_char(s@[j]) == fold_char(pat@[j]),
        decreases m - i,
    {
        if fold_char_exec(s.get_char(i)) != fold_char_exec(pat.get_char(i)) {
            return false;
        }
        i = i + 1;
    }
    true
}

pub fn str_eq(a: &str, b: &str) -> (r: bool)
    ensures
        r == (a@ == b@),
{
    let n: usize = a.unicode_len();
    let m: usize = b.unicode_len();
    if n != m {
        return false;
    }
    let mut i: usize = 0;
    while i < n
        invariant
            n == a@.len(),
            m == b@.len(),
            n == m,
            i <= n,
            forall|j: int| 0 <= j < i ==> a@[j] == b@[j],
        decreases n - i,
    {
        if a.get_char(i) != b.get_char(i) {
            return false;
        }
        i = i + 1;
    }
    proof {
        assert(a@ =~= b@);
    }
    true
}

pub fn find_char(s: &str, c: char) -> (r: Option<usize>)
    ensures
        match r {
            Some(i) => i < s@.len() && s@[i as int] == c && contains_char(s@, c) && after_first(
                s@,
                c,
            ) == s@.subrange(i as int + 1, s@.len() as int),
            None => !contains_char(s@, c),
        },
{
    let n: usize = s.unicode_len();
    let mut i: usize = 0;
    while i < n
        invariant
            n == s@.len(),
            i <= n,
            forall|j: int| 0 <= j < i ==> s@[j] != c,
        decreases n - i,
    {
        if s.get_char(i) == c {
            proof {
                lemma_after_first_skip(s@, c, i as int);
                let rest = s@.subrange(i as int, s@.len() as int);
                assert(rest[0] == c);
                assert(rest.drop_first() =~= s@.subrange(i as int + 1, s@.len() as int));
            }
            return Some(i);
        }
        i = i + 1;
    }
    proof {
        lemma_after_first_skip(s@, c, n as int);
        assert(s@.subrange(n as int, s@.len() as int).len() == 0);
    }
    None
}

pub fn strip_suffix_char(s: &str, c: char) -> (r: &str)
    ensures
        r@ == strip_one_suffix(s@, c),
{
    let n: usize = s.unicode_len();
    if n > 0 && s.get_char(n - 1) == c {
        proof {
            assert(s@.drop_last() =~= s@.subrange(0, n - 1));
        }
        s.substring_char(0, n - 1)
    } else {
        s
    }
}

fn digit_of(d: u64) -> (c: char)
    requires
        d < 10,
    ensures
        c == digit_char(d as int),
{
    if d == 0 {
        '0'
    } else if d == 1 {
        '1'
    } else if d == 2 {
        '2'
    } else if d == 3 {
        '3'
    } else if d == 4 {
        '4'
    } else if d == 5 {
        '5'
    } else if d == 6 {
        '6'
    } else if d == 7 {
        '7'
    } else if d == 8 {
        '8'
    } else {
        '9'
    }
}

/// Relies on std's `String::push`: it appends exactly the given character.
#[verifier::external_body]
pub(crate) fn push_char(s: &mut String, c: char)
    ensures
        final(s)@ == old(s)@.push(c),
{
    s.push(c);
}

pub fn u64_to_string(n: u64) -> (r: String)
    ensures
        r@ == dec_nat(n as nat),
    decreases n,
{
    if n < 10 {
        let mut s = String::new();
        push_char(&mut s, digit_of(n));
        proof {
            assert(s@ =~= seq![digit_char(n as int)]);
        }
        s
    } else {
        let mut s = u64_to_string(n / 10);
        push_char(&mut s, digit_of(n % 10));
        s
    }
}

pub fn i64_to_string(n: i64) -> (r: String)
    ensures
        r@ == dec_int(n as int),
{
    if n >= 0 {
        u64_to_string(n as u64)
    } else {
        let m: u64 = ((-(n + 1)) as u64) + 1;
        proof {
            assert(m as int == -(n as int));
        }
        let mut s = String::from_str("-");
        let digits = u64_to_string(m);
        s.append(digits.as_str());
        proof {
            reveal_strlit("-");
            assert("-"@ =~= seq!['-']);
        }
        s
    }
}

} // verus!
