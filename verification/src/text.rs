//! Character-level string helpers shared by the other modules.

use vstd::prelude::*;
use vstd::string::*;

verus! {

/// Appends one character to a string.
#[verifier::external_body]
pub(crate) fn push_char(s: &mut String, c: char)
    ensures
        final(s)@ == old(s)@.push(c),
{
    s.push(c);
}

/// Appends a string slice to a string.
pub fn push_str(s: &mut String, t: &str)
    ensures
        final(s)@ == old(s)@ + t@,
{
    s.append(t);
}

/// The characters of a string, in order.
pub fn chars_of(s: &str) -> (out: Vec<char>)
    ensures
        out@ == s@,
{
    let mut out: Vec<char> = Vec::new();
    for c in it: s.chars()
        invariant
            out@ == it.seq().take(it.index() as int),
    {
        out.push(c);
    }
    out
}

/// A string made of the given characters.
pub fn string_of(cs: &Vec<char>) -> (s: String)
    ensures
        s@ == cs@,
{
    let mut s = String::new();
    let mut i: usize = 0;
    while i < cs.len()
        invariant
            i <= cs@.len(),
            s@ == cs@.take(i as int),
        decreases cs@.len() - i,
    {
        push_char(&mut s, cs[i]);
        i = i + 1;
        proof {
            assert(s@ =~= cs@.take(i as int));
        }
    }
    proof {
        assert(cs@.take(cs@.len() as int) =~= cs@);
    }
    s
}

/// Whether `p` occurs in `s` at position `i`.
pub open spec fn occurs_at(s: Seq<char>, p: Seq<char>, i: int) -> bool {
    0 <= i && i + p.len() <= s.len() && s.subrange(i, i + p.len()) == p
}

/// `s` with every occurrence of the non-empty pattern `p` replaced by `w`,
/// matches taken from the left and never overlapping (the rule of
/// `str::replace`).
pub open spec fn replaced(s: Seq<char>, p: Seq<char>, w: Seq<char>) -> Seq<char>
    recommends
        p.len() > 0,
    decreases s.len(),
{
    if s.len() == 0 || p.len() == 0 {
        s
    } else if occurs_at(s, p, 0) {
        w + replaced(s.skip(p.len() as int), p, w)
    } else {
        seq![s[0]] + replaced(s.skip(1), p, w)
    }
}

/// Whether the characters `p` occur in `cs` at position `i`.
pub fn occurs_at_exec(cs: &Vec<char>, p: &Vec<char>, i: usize) -> (b: bool)
    requires
        i <= cs@.len(),
    ensures
        b == occurs_at(cs@, p@, i as int),
{
    if p.len() > cs.len() - i {
        return false;
    }
    let mut k: usize = 0;
    while k < p.len()
        invariant
            i + p@.len() <= cs@.len(),
            cs@.len() <= usize::MAX,
            k <= p@.len(),
            forall|j: int| 0 <= j < k ==> cs@[i + j] == p@[j],
        decreases p@.len() - k,
    {
        if cs[i + k] != p[k] {
            proof {
                assert(cs@.subrange(i as int, i + p@.len())[k as int] != p@[k as int]);
            }
            return false;
        }
        k = k + 1;
    }
    proof {
        assert(cs@.subrange(i as int, i + p@.len()) =~= p@);
    }
    true
}

/// `s` with every occurrence of `pat` replaced by `with`, as
/// `str::replace` does it.
pub fn replace_all(s: &str, pat: &str, with: &str) -> (out: String)
    requires
        pat@.len() > 0,
    ensures
        out@ == replaced(s@, pat@, with@),
{
    let cs = chars_of(s);
    let ps = chars_of(pat);
    let mut out = String::new();
    let mut i: usize = 0;
    proof {
        assert(cs@.skip(0) =~= cs@);
        assert(out@ + replaced(cs@, ps@, with@) =~= replaced(cs@, ps@, with@));
    }
    while i < cs.len()
        invariant
            cs@ == s@,
            ps@ == pat@,
            ps@.len() > 0,
            i <= cs@.len(),
            out@ + replaced(cs@.skip(i as int), ps@, with@) == replaced(s@, pat@, with@),
        decreases cs@.len() - i,
    {
        let ghost rest = cs@.skip(i as int);
        proof {
            assert(rest.len() > 0);
        }
        if occurs_at_exec(&cs, &ps, i) {
            proof {
                assert(rest.subrange(0, ps@.len() as int) =~= cs@.subrange(i as int, i + ps@.len()));
                assert(occurs_at(rest, ps@, 0));
                assert(rest.skip(ps@.len() as int) =~= cs@.skip(i + ps@.len()));
            }
            push_str(&mut out, with);
            i = i + ps.len();
        } else {
            proof {
                if ps@.len() <= rest.len() {
                    assert(rest.subrange(0, ps@.len() as int) =~= cs@.subrange(
                        i as int,
                        i + ps@.len(),
                    ));
                }
                assert(!occurs_at(rest, ps@, 0));
                assert(rest.skip(1) =~= cs@.skip(i + 1));
                assert(seq![cs@[i as int]] =~= seq![rest[0]]);
            }
            push_char(&mut out, cs[i]);
            proof {
                assert(out@ + replaced(cs@.skip(i + 1), ps@, with@) =~= replaced(s@, pat@, with@));
            }
            i = i + 1;
        }
    }
    proof {
        assert(cs@.skip(i as int) =~= Seq::<char>::empty());
        assert(out@ + Seq::<char>::empty() =~= out@);
    }
    out
}

/// The decimal digit for `d`.
pub open spec fn digit_char(d: nat) -> char {
    ((48 + d) as u32) as char
}

/// The decimal digits of `n`, as `usize`'s `Display` writes them.
pub open spec fn decimal(n: nat) -> Seq<char>
    decreases n,
{
    if n < 10 {
        seq![digit_char(n)]
    } else {
        decimal(n / 10).push(digit_char(n % 10))
    }
}

/// Appends the decimal digits of `n`.
pub fn push_decimal(s: &mut String, n: usize)
    ensures
        final(s)@ == old(s)@ + decimal(n as nat),
    decreases n,
{
    if n >= 10 {
        push_decimal(s, n / 10);
    }
    let d: u8 = (n % 10) as u8;
    let c = (48u8 + d) as char;
    proof {
        assert(c == digit_char((n % 10) as nat));
    }
    push_char(s, c);
}

/// Unicode `White_Space`, the set `char::is_whitespace` tests for.
pub open spec fn is_white_space(c: char) -> bool {
    ||| ('\u{9}' <= c <= '\u{d}')
    ||| c == ' '
    ||| c == '\u{85}'
    ||| c == '\u{a0}'
    ||| c == '\u{1680}'
    ||| ('\u{2000}' <= c <= '\u{200a}')
    ||| c == '\u{2028}'
    ||| c == '\u{2029}'
    ||| c == '\u{202f}'
    ||| c == '\u{205f}'
    ||| c == '\u{3000}'
}

/// Whether `c` is Unicode white space.
pub fn white_space(c: char) -> (b: bool)
    ensures
        b == is_white_space(c),
{
    ('\u{9}' <= c && c <= '\u{d}') || c == ' ' || c == '\u{85}' || c == '\u{a0}' || c == '\u{1680}'
        || ('\u{2000}' <= c && c <= '\u{200a}') || c == '\u{2028}' || c == '\u{2029}' || c
        == '\u{202f}' || c == '\u{205f}' || c == '\u{3000}'
}

/// `s` without its leading white space.
pub open spec fn trim_start(s: Seq<char>) -> Seq<char>
    decreases s.len(),
{
    if s.len() > 0 && is_white_space(s[0]) {
        trim_start(s.drop_first())
    } else {
        s
    }
}

/// `s` without its trailing white space.
pub open spec fn trim_end(s: Seq<char>) -> Seq<char>
    decreases s.len(),
{
    if s.len() > 0 && is_white_space(s.last()) {
        trim_end(s.drop_last())
    } else {
        s
    }
}

/// `s` without leading and trailing white space, as `str::trim` gives it.
pub open spec fn trimmed(s: Seq<char>) -> Seq<char> {
    trim_end(trim_start(s))
}

/// The bounds of `cs[lo..hi]` once white space is trimmed from both ends.
pub fn trim_bounds(cs: &Vec<char>, lo: usize, hi: usize) -> (r: (usize, usize))
    requires
        lo <= hi <= cs@.len(),
    ensures
        lo <= r.0 <= r.1 <= hi,
        cs@.subrange(r.0 as int, r.1 as int) == trimmed(cs@.subrange(lo as int, hi as int)),
{
    let mut a = lo;
    while a < hi && white_space(cs[a])
        invariant
            lo <= a <= hi <= cs@.len(),
            trim_start(cs@.subrange(lo as int, hi as int)) == trim_start(cs@.subrange(a as int, hi as int)),
        decreases hi - a,
    {
        proof {
            assert(cs@.subrange(a as int, hi as int).drop_first() =~= cs@.subrange(a + 1, hi as int));
        }
        a = a + 1;
    }
    proof {
        let t = cs@.subrange(a as int, hi as int);
        if a < hi {
            assert(t[0] == cs@[a as int]);
        }
        assert(trim_start(t) == t);
    }
    let mut b = hi;
    while b > a && white_space(cs[b - 1])
        invariant
            lo <= a <= b <= hi <= cs@.len(),
            trim_end(cs@.subrange(a as int, hi as int)) == trim_end(cs@.subrange(a as int, b as int)),
        decreases b - a,
    {
        proof {
            assert(cs@.subrange(a as int, b as int).drop_last() =~= cs@.subrange(a as int, b - 1));
        }
        b = b - 1;
    }
    proof {
        let t = cs@.subrange(a as int, b as int);
        if a < b {
            assert(t.last() == cs@[b - 1]);
        }
        assert(trim_end(t) == t);
    }
    (a, b)
}

/// The position of the first `c` in `s`, or the length of `s` when there is
/// none.
pub open spec fn index_of_or_len(s: Seq<char>, c: char) -> nat
    decreases s.len(),
{
    if s.len() == 0 {
        0
    } else if s[0] == c {
        0
    } else {
        1 + index_of_or_len(s.drop_first(), c)
    }
}

/// `index_of_or_len` finds the first occurrence, or none.
pub proof fn lemma_index_of_or_len(s: Seq<char>, c: char)
    ensures
        index_of_or_len(s, c) <= s.len(),
        forall|j: int| 0 <= j < index_of_or_len(s, c) ==> s[j] != c,
        index_of_or_len(s, c) < s.len() ==> s[index_of_or_len(s, c) as int] == c,
    decreases s.len(),
{
    if s.len() > 0 && s[0] != c {
        lemma_index_of_or_len(s.drop_first(), c);
        assert forall|j: int| 0 <= j < index_of_or_len(s, c) implies s[j] != c by {
            if j > 0 {
                assert(s[j] == s.drop_first()[j - 1]);
            }
        }
    }
}

/// Finds the first `c` in `cs[lo..hi]`, answering `hi` when there is none.
pub fn find_char(cs: &Vec<char>, lo: usize, hi: usize, c: char) -> (k: usize)
    requires
        lo <= hi <= cs@.len(),
    ensures
        lo <= k <= hi,
        k - lo == index_of_or_len(cs@.subrange(lo as int, hi as int), c),
{
    let mut k = lo;
    while k < hi && cs[k] != c
        invariant
            lo <= k <= hi <= cs@.len(),
            forall|j: int| lo <= j < k ==> cs@[j] != c,
        decreases hi - k,
    {
        k = k + 1;
    }
    proof {
        let s = cs@.subrange(lo as int, hi as int);
        lemma_index_of_or_len(s, c);
        let m = index_of_or_len(s, c) as int;
        if m < k - lo {
            assert(s[m] == cs@[lo + m]);
        }
        if k < hi && m > k - lo {
            assert(s[k - lo] == cs@[k as int]);
        }
    }
    k
}

/// Whether `c` is an ASCII decimal digit.
pub open spec fn is_digit(c: char) -> bool {
    '0' <= c <= '9'
}

/// The value of a digit.
pub open spec fn digit_value(c: char) -> nat {
    ((c as u32) - 48) as nat
}

/// The value of a sequence of decimal digits.
pub open spec fn digits_value(s: Seq<char>) -> nat
    decreases s.len(),
{
    if s.len() == 0 {
        0
    } else {
        digits_value(s.drop_last()) * 10 + digit_value(s.last())
    }
}

/// The digits of an unsigned number: an optional leading `+`, then the rest.
pub open spec fn unsigned_digits(s: Seq<char>) -> Seq<char> {
    if s.len() > 0 && s[0] == '+' {
        s.drop_first()
    } else {
        s
    }
}

/// What `s.parse::<usize>()` accepts: an optional `+`, then at least one
/// ASCII digit and nothing else, with a value that fits a `usize`.
pub open spec fn parsed_usize(s: Seq<char>) -> Option<nat> {
    let d = unsigned_digits(s);
    if d.len() > 0 && (forall|i: int| 0 <= i < d.len() ==> #[trigger] is_digit(d[i]))
        && digits_value(d) <= usize::MAX {
        Some(digits_value(d))
    } else {
        None
    }
}

/// A longer run of digits is worth at least as much as its prefix.
pub proof fn lemma_digits_value_prefix(s: Seq<char>, k: int)
    requires
        0 <= k <= s.len(),
    ensures
        digits_value(s.take(k)) <= digits_value(s),
    decreases s.len() - k,
{
    if k < s.len() {
        lemma_digits_value_prefix(s, k + 1);
        assert(s.take(k + 1).drop_last() =~= s.take(k));
    } else {
        assert(s.take(k) =~= s);
    }
}

/// Parses `cs[lo..hi]` as `str::parse::<usize>` would.
pub fn parse_usize(cs: &Vec<char>, lo: usize, hi: usize) -> (r: Option<usize>)
    requires
        lo <= hi <= cs@.len(),
    ensures
        r matches Some(v) ==> parsed_usize(cs@.subrange(lo as int, hi as int)) == Some(v as nat),
        r is None ==> parsed_usize(cs@.subrange(lo as int, hi as int)) is None,
{
    let ghost s = cs@.subrange(lo as int, hi as int);
    let start = if lo < hi && cs[lo] == '+' {
        lo + 1
    } else {
        lo
    };
    let ghost d = cs@.subrange(start as int, hi as int);
    proof {
        assert(unsigned_digits(s) =~= d);
    }
    if start == hi {
        return None;
    }
    let mut value: u128 = 0;
    let mut overflow = false;
    let mut i = start;
    while i < hi
        invariant
            lo <= start < hi <= cs@.len(),
            start <= i <= hi,
            d == cs@.subrange(start as int, hi as int),
            s == cs@.subrange(lo as int, hi as int),
            unsigned_digits(s) == d,
            forall|j: int| start <= j < i ==> #[trigger] is_digit(cs@[j]),
            !overflow ==> value == digits_value(cs@.subrange(start as int, i as int)),
            !overflow ==> value <= usize::MAX,
            overflow ==> digits_value(cs@.subrange(start as int, i as int)) > usize::MAX,
        decreases hi - i,
    {
        let c = cs[i];
        if !('0' <= c && c <= '9') {
            proof {
                assert(!is_digit(d[i - start]));
            }
            return None;
        }
        let ghost prev = cs@.subrange(start as int, i as int);
        let ghost next = cs@.subrange(start as int, i + 1);
        proof {
            assert(next.drop_last() =~= prev);
            assert(next.last() == c);
        }
        if !overflow {
            let digit = ((c as u32) - 48) as u128;
            assert(value * 10 <= usize::MAX * 10) by (nonlinear_arith)
                requires
                    value <= usize::MAX,
            ;
            value = value * 10 + digit;
            if value > usize::MAX as u128 {
                overflow = true;
            }
        } else {
            proof {
                assert(digits_value(next) >= digits_value(prev)) by (nonlinear_arith)
                    requires
                        digits_value(next) == digits_value(prev) * 10 + digit_value(c),
                ;
            }
        }
        i = i + 1;
    }
    proof {
        assert(cs@.subrange(start as int, hi as int) == d);
        assert forall|j: int| 0 <= j < d.len() implies #[trigger] is_digit(d[j]) by {
            assert(d[j] == cs@[start + j]);
        }
    }
    if overflow {
        None
    } else {
        Some(value as usize)
    }
}

/// Whether two strings hold the same characters.
pub fn same_text(a: &str, b: &str) -> (r: bool)
    ensures
        r == (a@ == b@),
{
    let xs = chars_of(a);
    let ys = chars_of(b);
    if xs.len() != ys.len() {
        return false;
    }
    let mut i: usize = 0;
    while i < xs.len()
        invariant
            xs@ == a@,
            ys@ == b@,
            xs@.len() == ys@.len(),
            i <= xs@.len(),
            forall|j: int| 0 <= j < i ==> xs@[j] == ys@[j],
        decreases xs@.len() - i,
    {
        if xs[i] != ys[i] {
            proof {
                assert(xs@[i as int] != ys@[i as int]);
            }
            return false;
        }
        i = i + 1;
    }
    proof {
        assert(xs@ =~= ys@);
    }
    true
}

/// Whether `p` occurs somewhere in `s`, as `str::contains` answers it.
pub open spec fn contains_seq(s: Seq<char>, p: Seq<char>) -> bool {
    exists|i: int| occurs_at(s, p, i)
}

/// Whether `pat` occurs in `s`.
pub fn contains_text(s: &str, pat: &str) -> (r: bool)
    ensures
        r == contains_seq(s@, pat@),
{
    let cs = chars_of(s);
    let ps = chars_of(pat);
    let mut i: usize = 0;
    loop
        invariant
            cs@ == s@,
            ps@ == pat@,
            i <= cs@.len(),
            forall|j: int| 0 <= j < i ==> !occurs_at(cs@, ps@, j),
        decreases cs@.len() - i,
    {
        if occurs_at_exec(&cs, &ps, i) {
            return true;
        }
        if i == cs.len() {
            proof {
                assert forall|j: int| !occurs_at(cs@, ps@, j) by {
                    if 0 <= j && j <= i && j != i {
                        assert(j < i);
                    }
                }
            }
            return false;
        }
        i = i + 1;
    }
}


/// A string made of the characters `cs[lo..hi]`.
pub fn string_of_range(cs: &Vec<char>, lo: usize, hi: usize) -> (s: String)
    requires
        lo <= hi <= cs@.len(),
    ensures
        s@ == cs@.subrange(lo as int, hi as int),
{
    let mut s = String::new();
    let mut i: usize = lo;
    while i < hi
        invariant
            lo <= i <= hi <= cs@.len(),
            s@ == cs@.subrange(lo as int, i as int),
        decreases hi - i,
    {
        push_char(&mut s, cs[i]);
        i = i + 1;
        proof {
            assert(s@ =~= cs@.subrange(lo as int, i as int));
        }
    }
    s
}


/// Whether `c` occurs nowhere in `s`.
pub open spec fn lacks(s: Seq<char>, c: char) -> bool {
    forall|i: int| 0 <= i < s.len() ==> s[i] != c
}

/// Replacing never brings in a character that neither the text (outside
/// the pattern, when the pattern is that very character) nor the
/// replacement holds.
pub proof fn lemma_replaced_lacks(s: Seq<char>, p: Seq<char>, w: Seq<char>, c: char)
    requires
        p.len() > 0,
        lacks(w, c),
        lacks(s, c) || p == seq![c],
    ensures
        lacks(replaced(s, p, w), c),
    decreases s.len(),
{
    if s.len() > 0 {
        if occurs_at(s, p, 0) {
            let rest = s.skip(p.len() as int);
            assert(lacks(s, c) ==> lacks(rest, c)) by {
                if lacks(s, c) {
                    assert forall|i: int| 0 <= i < rest.len() implies rest[i] != c by {
                        assert(rest[i] == s[i + p.len()]);
                    }
                }
            }
            lemma_replaced_lacks(rest, p, w, c);
            let r = replaced(s, p, w);
            assert(r == w + replaced(rest, p, w));
        } else {
            let rest = s.skip(1);
            assert(lacks(s, c) ==> lacks(rest, c)) by {
                if lacks(s, c) {
                    assert forall|i: int| 0 <= i < rest.len() implies rest[i] != c by {
                        assert(rest[i] == s[i + 1]);
                    }
                }
            }
            if p == seq![c] {
                if s[0] == c {
                    assert(s.subrange(0, 1) =~= seq![c]);
                }
            }
            assert(s[0] != c);
            lemma_replaced_lacks(rest, p, w, c);
            let r = replaced(s, p, w);
            assert(r == seq![s[0]] + replaced(rest, p, w));
        }
    }
}

} // verus!
