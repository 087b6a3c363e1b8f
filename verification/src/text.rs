//! Character-level helpers: whitespace trimming, path joining, the last
//! segment of a URL path, and decimal formatting, each specified over
//! `Seq<char>`.

use vstd::prelude::*;

verus! {

/// Whitespace as `str::trim` understands it: the Unicode `White_Space`
/// characters.
pub open spec fn is_space_char(c: char) -> bool {
    c == ' ' || c == '\t' || c == '\n' || c == '\r' || c == '\u{b}' || c == '\u{c}'
        || c == '\u{85}' || c == '\u{a0}' || c == '\u{1680}' || c == '\u{2000}'
        || c == '\u{2001}' || c == '\u{2002}' || c == '\u{2003}' || c == '\u{2004}'
        || c == '\u{2005}' || c == '\u{2006}' || c == '\u{2007}' || c == '\u{2008}'
        || c == '\u{2009}' || c == '\u{200a}' || c == '\u{2028}' || c == '\u{2029}'
        || c == '\u{202f}' || c == '\u{205f}' || c == '\u{3000}'
}

/// Decides `is_space_char` on a concrete character.
pub fn is_space(c: char) -> (r: bool)
    ensures
        r == is_space_char(c),
{
    c == ' ' || c == '\t' || c == '\n' || c == '\r' || c == '\u{b}' || c == '\u{c}'
        || c == '\u{85}' || c == '\u{a0}' || c == '\u{1680}' || c == '\u{2000}'
        || c == '\u{2001}' || c == '\u{2002}' || c == '\u{2003}' || c == '\u{2004}'
        || c == '\u{2005}' || c == '\u{2006}' || c == '\u{2007}' || c == '\u{2008}'
        || c == '\u{2009}' || c == '\u{200a}' || c == '\u{2028}' || c == '\u{2029}'
        || c == '\u{202f}' || c == '\u{205f}' || c == '\u{3000}'
}

/// `s` with its leading whitespace removed.
pub open spec fn trim_start_spec(s: Seq<char>) -> Seq<char>
    decreases s.len(),
{
    if s.len() > 0 && is_space_char(s[0]) {
        trim_start_spec(s.drop_first())
    } else {
        s
    }
}

/// `s` with its trailing whitespace removed.
pub open spec fn trim_end_spec(s: Seq<char>) -> Seq<char>
    decreases s.len(),
{
    if s.len() > 0 && is_space_char(s[s.len() - 1]) {
        trim_end_spec(s.drop_last())
    } else {
        s
    }
}

/// `s` with leading and trailing whitespace removed: what `str::trim`
/// returns.
pub open spec fn trim_spec(s: Seq<char>) -> Seq<char> {
    trim_end_spec(trim_start_spec(s))
}

proof fn lemma_trim_start_subrange(s: Seq<char>, i: int)
    requires
        0 <= i <= s.len(),
        forall|j: int| 0 <= j < i ==> is_space_char(s[j]),
    ensures
        trim_start_spec(s) == trim_start_spec(s.subrange(i, s.len() as int)),
    decreases i,
{
    if i > 0 {
        lemma_trim_start_subrange(s, i - 1);
        let t = s.subrange(i - 1, s.len() as int);
        assert(t.len() > 0 && is_space_char(t[0]));
        assert(t.drop_first() =~= s.subrange(i, s.len() as int));
    } else {
        assert(s.subrange(0, s.len() as int) =~= s);
    }
}

proof fn lemma_trim_end_subrange(s: Seq<char>, j: int)
    requires
        0 <= j <= s.len(),
        forall|k: int| j <= k < s.len() ==> is_space_char(s[k]),
    ensures
        trim_end_spec(s) == trim_end_spec(s.subrange(0, j)),
    decreases s.len() - j,
{
    if j < s.len() {
        let t = s.subrange(0, j + 1);
        lemma_trim_end_subrange(s, j + 1);
        assert(t.len() > 0 && is_space_char(t[t.len() - 1]));
        assert(t.drop_last() =~= s.subrange(0, j));
    } else {
        assert(s.subrange(0, s.len() as int) =~= s);
    }
}

/// A nonempty trimmed-at-the-start sequence does not begin with whitespace.
proof fn lemma_trim_start_no_leading(s: Seq<char>)
    ensures
        trim_start_spec(s).len() > 0 ==> !is_space_char(trim_start_spec(s)[0]),
    decreases s.len(),
{
    if s.len() > 0 && is_space_char(s[0]) {
        lemma_trim_start_no_leading(s.drop_first());
    }
}

/// A nonempty trimmed-at-the-end sequence does not end with whitespace.
proof fn lemma_trim_end_no_trailing(s: Seq<char>)
    ensures
        trim_end_spec(s).len() > 0 ==> !is_space_char(
            trim_end_spec(s)[trim_end_spec(s).len() - 1],
        ),
    decreases s.len(),
{
    if s.len() > 0 && is_space_char(s[s.len() - 1]) {
        lemma_trim_end_no_trailing(s.drop_last());
    }
}

/// Trimming at the end keeps a prefix of the sequence.
proof fn lemma_trim_end_prefix(s: Seq<char>)
    ensures
        trim_end_spec(s).len() <= s.len(),
        trim_end_spec(s) == s.subrange(0, trim_end_spec(s).len() as int),
    decreases s.len(),
{
    if s.len() > 0 && is_space_char(s[s.len() - 1]) {
        lemma_trim_end_prefix(s.drop_last());
        assert(s.drop_last() =~= s.subrange(0, s.len() - 1));
        assert(s.subrange(0, s.len() - 1).subrange(0, trim_end_spec(s).len() as int) =~= s
            .subrange(0, trim_end_spec(s).len() as int));
    } else {
        assert(s.subrange(0, s.len() as int) =~= s);
    }
}

/// Trimming an already trimmed sequence changes nothing.
pub proof fn lemma_trim_idempotent(s: Seq<char>)
    ensures
        trim_spec(trim_spec(s)) == trim_spec(s),
{
    let t = trim_spec(s);
    lemma_trim_start_no_leading(s);
    lemma_trim_end_prefix(trim_start_spec(s));
    if t.len() > 0 {
        assert(t[0] == trim_start_spec(s)[0]);
    }
    assert(trim_start_spec(t) == t);
    lemma_trim_end_no_trailing(trim_start_spec(s));
    assert(trim_end_spec(t) == t);
}

/// `str::trim`, verified: removes leading and trailing whitespace. The
/// result is fully trimmed, so trimming it again changes nothing.
pub fn trim_str(s: &str) -> (r: String)
    ensures
        r@ == trim_spec(s@),
        trim_spec(r@) == r@,
{
    proof {
        lemma_trim_idempotent(s@);
    }
    let n = s.unicode_len();
    let mut i: usize = 0;
    while i < n && is_space(s.get_char(i))
        invariant
            0 <= i <= n,
            n == s@.len(),
            forall|j: int| 0 <= j < i ==> is_space_char(s@[j]),
        decreases n - i,
    {
        i = i + 1;
    }
    proof {
        lemma_trim_start_subrange(s@, i as int);
    }
    if i == n {
        proof {
            assert(s@.subrange(n as int, n as int) =~= Seq::<char>::empty());
        }
        return String::new();
    }
    let mut j: usize = n;
    while j > i && is_space(s.get_char(j - 1))
        invariant
            i <= j <= n,
            n == s@.len(),
            i < n,
            forall|k: int| j <= k < n ==> is_space_char(s@[k]),
        decreases j,
    {
        j = j - 1;
    }
    proof {
        let t = s@.subrange(i as int, n as int);
        assert(t[0] == s@[i as int]);
        assert(trim_start_spec(t) == t);
        assert forall|k: int| j as int - i as int <= k < t.len() implies is_space_char(
            t[k],
        ) by {
            assert(t[k] == s@[i as int + k]);
        }
        lemma_trim_end_subrange(t, j as int - i as int);
        let u = s@.subrange(i as int, j as int);
        assert(t.subrange(0, j as int - i as int) =~= u);
        if j > i {
            assert(u[u.len() - 1] == s@[j as int - 1]);
            assert(!is_space_char(u[u.len() - 1]));
        }
        assert(trim_end_spec(u) == u);
        assert(trim_spec(s@) == u);
    }
    let r = s.substring_char(i, j);
    r.to_owned()
}

/// `base`, a separating slash, then `name`: the path of one file under a
/// directory.
pub open spec fn join_path_spec(base: Seq<char>, name: Seq<char>) -> Seq<char> {
    base + seq!['/'] + name
}

/// Joins a directory and a file name with a slash.
pub fn join_path(base: &str, name: &str) -> (r: String)
    ensures
        r@ == join_path_spec(base@, name@),
{
    proof {
        reveal_strlit("/");
        assert("/"@ =~= seq!['/']);
    }
    let r = String::from_str(base).concat("/").concat(name);
    r
}

/// Everything after the last `'/'` of `s`; all of `s` when it has none.
/// What `s.split('/').last()` returns.
pub open spec fn last_segment_spec(s: Seq<char>) -> Seq<char>
    decreases s.len(),
{
    if s.len() == 0 {
        s
    } else if s[s.len() - 1] == '/' {
        Seq::<char>::empty()
    } else {
        last_segment_spec(s.drop_last()).push(s[s.len() - 1])
    }
}

proof fn lemma_last_segment_suffix(s: Seq<char>, j: int)
    requires
        0 <= j <= s.len(),
        forall|k: int| j <= k < s.len() ==> s[k] != '/',
    ensures
        last_segment_spec(s) == last_segment_spec(s.subrange(0, j)) + s.subrange(
            j,
            s.len() as int,
        ),
    decreases s.len(),
{
    if j == s.len() {
        assert(s.subrange(0, j) =~= s);
        assert(last_segment_spec(s) + s.subrange(j, s.len() as int) =~= last_segment_spec(s));
    } else {
        let t = s.drop_last();
        lemma_last_segment_suffix(t, j);
        assert(t.subrange(0, j) =~= s.subrange(0, j));
        assert(last_segment_spec(s) == last_segment_spec(t).push(s[s.len() - 1]));
        assert((last_segment_spec(s.subrange(0, j)) + t.subrange(j, t.len() as int)).push(
            s[s.len() - 1],
        ) =~= last_segment_spec(s.subrange(0, j)) + s.subrange(j, s.len() as int));
    }
}

/// The file-name part of a resource URL: the text after its last slash.
pub fn last_segment(s: &str) -> (r: String)
    ensures
        r@ == last_segment_spec(s@),
{
    let n = s.unicode_len();
    let mut j: usize = n;
    while j > 0 && s.get_char(j - 1) != '/'
        invariant
            0 <= j <= n,
            n == s@.len(),
            forall|k: int| j <= k < n ==> s@[k] != '/',
        decreases j,
    {
        j = j - 1;
    }
    proof {
        lemma_last_segment_suffix(s@, j as int);
        if j > 0 {
            let t = s@.subrange(0, j as int);
            assert(t[t.len() - 1] == '/');
            assert(last_segment_spec(t) =~= Seq::<char>::empty());
        }
        assert(last_segment_spec(s@) =~= s@.subrange(j as int, n as int));
    }
    let r = s.substring_char(j, n);
    r.to_owned()
}

/// The decimal digit `d` as a character, for `d < 10`.
pub open spec fn digit_char(d: nat) -> char {
    if d == 0 {
        '0'
    } else if d == 1 {
        '1'
    } else if d == 2 {
        '2'
    } else if d == 3 {
        '3'
    } else if d == 4 {
        '4'
    } else if d == 5 {
        '5'
    } else if d == 6 {
        '6'
    } else if d == 7 {
        '7'
    } else if d == 8 {
        '8'
    } else {
        '9'
    }
}

/// The decimal digits of `n`, most significant first, without leading
/// zeros (except for `n == 0`, written `"0"`).
pub open spec fn dec_digits(n: nat) -> Seq<char>
    decreases n,
{
    if n < 10 {
        seq![digit_char(n)]
    } else {
        dec_digits(n / 10).push(digit_char(n % 10))
    }
}

/// One decimal digit as a string slice.
fn digit_str(d: u64) -> (r: &'static str)
    requires
        d < 10,
    ensures
        r@ == seq![digit_char(d as nat)],
{
    proof {
        reveal_strlit("0");
        reveal_strlit("1");
        reveal_strlit("2");
        reveal_strlit("3");
        reveal_strlit("4");
        reveal_strlit("5");
        reveal_strlit("6");
        reveal_strlit("7");
        reveal_strlit("8");
        reveal_strlit("9");
        assert("0"@ =~= seq!['0']);
        assert("1"@ =~= seq!['1']);
        assert("2"@ =~= seq!['2']);
        assert("3"@ =~= seq!['3']);
        assert("4"@ =~= seq!['4']);
        assert("5"@ =~= seq!['5']);
        assert("6"@ =~= seq!['6']);
        assert("7"@ =~= seq!['7']);
        assert("8"@ =~= seq!['8']);
        assert("9"@ =~= seq!['9']);
    }
    if d == 0 {
        "0"
    } else if d == 1 {
        "1"
    } else if d == 2 {
        "2"
    } else if d == 3 {
        "3"
    } else if d == 4 {
        "4"
    } else if d == 5 {
        "5"
    } else if d == 6 {
        "6"
    } else if d == 7 {
        "7"
    } else if d == 8 {
        "8"
    } else {
        "9"
    }
}

/// Writes `n` in decimal, as `format!("{}", n)` would.
pub fn u64_to_dec(n: u64) -> (r: String)
    ensures
        r@ == dec_digits(n as nat),
{
    let mut digits: Vec<u64> = Vec::new();
    let mut m: u64 = n;
    proof {
        assert(dec_digits(n as nat) + digits_tail(digits@) =~= dec_digits(n as nat));
    }
    while m >= 10
        invariant
            dec_digits(n as nat) == dec_digits(m as nat) + digits_tail(digits@),
            forall|k: int| 0 <= k < digits@.len() ==> digits@[k] < 10,
        decreases m,
    {
        let ghost before = digits@;
        let ghost prev = m as nat;
        let d = m % 10;
        digits.push(d);
        m = m / 10;
        proof {
            assert(digits@.drop_last() =~= before);
            assert(digits_tail(digits@) == seq![digit_char(d as nat)] + digits_tail(before));
            assert(dec_digits(prev) == dec_digits(prev / 10).push(digit_char(prev % 10)));
            assert(dec_digits(prev / 10).push(digit_char(prev % 10)) + digits_tail(before)
                =~= dec_digits(m as nat) + digits_tail(digits@));
        }
    }
    proof {
        assert(dec_digits(m as nat) == seq![digit_char(m as nat)]);
    }
    let ghost before = digits@;
    digits.push(m);
    proof {
        assert(digits@.drop_last() =~= before);
        assert(digits_tail(digits@) == seq![digit_char(m as nat)] + digits_tail(before));
        assert(dec_digits(m as nat) + digits_tail(before) =~= digits_tail(digits@));
    }
    let mut r = String::new();
    let mut i: usize = digits.len();
    proof {
        assert(digits@.subrange(0, i as int) =~= digits@);
        assert(r@ + digits_tail(digits@) =~= digits_tail(digits@));
    }
    while i > 0
        invariant
            0 <= i <= digits@.len(),
            forall|k: int| 0 <= k < digits@.len() ==> digits@[k] < 10,
            dec_digits(n as nat) == r@ + digits_tail(digits@.subrange(0, i as int)),
        decreases i,
    {
        i = i - 1;
        let s = digit_str(digits[i]);
        r.append(s);
        proof {
            let pre = digits@.subrange(0, i as int + 1);
            assert(pre.drop_last() =~= digits@.subrange(0, i as int));
            assert(digits_tail(pre) == seq![digit_char(pre[pre.len() - 1] as nat)] + digits_tail(
                pre.drop_last(),
            ));
            assert(dec_digits(n as nat) =~= r@ + digits_tail(digits@.subrange(0, i as int)));
        }
    }
    proof {
        assert(digits@.subrange(0, 0) =~= Seq::<u64>::empty());
        assert(dec_digits(n as nat) =~= r@);
    }
    r
}

/// The characters of a run of collected digits, least significant first in
/// `ds`, read back most significant first.
pub open spec fn digits_tail(ds: Seq<u64>) -> Seq<char>
    decreases ds.len(),
{
    if ds.len() == 0 {
        Seq::<char>::empty()
    } else {
        seq![digit_char(ds[ds.len() - 1] as nat)] + digits_tail(ds.drop_last())
    }
}

} // verus!
