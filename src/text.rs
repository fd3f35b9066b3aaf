//! Text helpers: decimal numbers, splitting, lines and trimming.

use vstd::prelude::*;
use vstd::string::*;

verus! {

/// The ASCII digit for a value below ten.
pub open spec fn digit_char(d: nat) -> char {
    if d == 0 { '0' }
    else if d == 1 { '1' }
    else if d == 2 { '2' }
    else if d == 3 { '3' }
    else if d == 4 { '4' }
    else if d == 5 { '5' }
    else if d == 6 { '6' }
    else if d == 7 { '7' }
    else if d == 8 { '8' }
    else { '9' }
}

/// The base-ten form of `n`: no sign, no leading zeros.
pub open spec fn decimal_of(n: nat) -> Seq<char>
    decreases n,
{
    if n < 10 {
        seq![digit_char(n)]
    } else {
        decimal_of(n / 10).push(digit_char(n % 10))
    }
}

pub open spec fn is_digit(c: char) -> bool {
    '0' <= c && c <= '9'
}

pub open spec fn all_digits(d: Seq<char>) -> bool {
    forall|i: int| 0 <= i < d.len() ==> is_digit(#[trigger] d[i])
}

/// The value of a run of ASCII digits.
pub open spec fn digits_value(s: Seq<char>) -> nat
    decreases s.len(),
{
    if s.len() == 0 {
        0
    } else {
        digits_value(s.drop_last()) * 10 + ((s.last() as u32) - 48) as nat
    }
}

/// The text with one leading `+` removed, if it has one.
pub open spec fn unsigned_digits(s: Seq<char>) -> Seq<char> {
    if s.len() > 0 && s[0] == '+' {
        s.skip(1)
    } else {
        s
    }
}

/// The unsigned 64-bit integer that `s` writes: an optional `+`, then one or
/// more ASCII digits whose value fits.
pub open spec fn u64_of(s: Seq<char>) -> Option<u64> {
    let d = unsigned_digits(s);
    if d.len() > 0 && all_digits(d) && digits_value(d) <= u64::MAX {
        Some(digits_value(d) as u64)
    } else {
        None
    }
}

/// The one-character text of a digit.
fn digit_text(d: u64) -> (r: &'static str)
    requires
        d < 10,
    ensures
        r@ == seq![digit_char(d as nat)],
{
    proof {
        reveal_strlit("0");
        reveal_strlit("1");
        reveal_strlit("2");
        reveal_strlit("3");
        reveal_strlit("4");
        reveal_strlit("5");
        reveal_strlit("6");
        reveal_strlit("7");
        reveal_strlit("8");
        reveal_strlit("9");
    }
    if d == 0 { "0" }
    else if d == 1 { "1" }
    else if d == 2 { "2" }
    else if d == 3 { "3" }
    else if d == 4 { "4" }
    else if d == 5 { "5" }
    else if d == 6 { "6" }
    else if d == 7 { "7" }
    else if d == 8 { "8" }
    else { "9" }
}

/// Writes `n` in base ten.
pub fn decimal(n: u64) -> (r: String)
    ensures
        r@ == decimal_of(n as nat),
    decreases n,
{
    if n < 10 {
        String::from_str(digit_text(n))
    } else {
        let mut r = decimal(n / 10);
        r.append(digit_text(n % 10));
        r
    }
}

/// A prefix of a run of digits is worth no more than the whole run.
proof fn lemma_prefix_value_le(t: Seq<char>, k: int)
    requires
        0 <= k <= t.len(),
    ensures
        digits_value(t.subrange(0, k)) <= digits_value(t),
    decreases t.len(),
{
    if k < t.len() {
        assert(t.drop_last().subrange(0, k) =~= t.subrange(0, k));
        lemma_prefix_value_le(t.drop_last(), k);
    } else {
        assert(t.subrange(0, k) =~= t);
    }
}

/// Reads an unsigned 64-bit integer: an optional `+`, then one or more ASCII
/// digits whose value fits.
pub fn parse_u64(s: &str) -> (r: Option<u64>)
    ensures
        r == u64_of(s@),
{
    let n = s.unicode_len();
    let mut start: usize = 0;
    if n > 0 && s.get_char(0) == '+' {
        start = 1;
    }
    let ghost d = unsigned_digits(s@);
    assert(d =~= s@.subrange(start as int, n as int));
    if start == n {
        return None;
    }
    let mut value: u64 = 0;
    let mut i: usize = start;
    assert(s@.subrange(start as int, start as int) =~= Seq::<char>::empty());
    while i < n
        invariant
            n == s@.len(),
            start < n,
            start <= i <= n,
            d == s@.subrange(start as int, n as int),
            d == unsigned_digits(s@),
            forall|k: int| start <= k < i ==> is_digit(#[trigger] s@[k]),
            value as nat == digits_value(s@.subrange(start as int, i as int)),
        decreases n - i,
    {
        let c = s.get_char(i);
        if !('0' <= c && c <= '9') {
            assert(d[i - start] == s@[i as int]);
            assert(!is_digit(d[i - start]));
            assert(!all_digits(d));
            return None;
        }
        let dv: u64 = ((c as u32) - 48) as u64;
        let ghost next = s@.subrange(start as int, i + 1);
        assert(next.drop_last() =~= s@.subrange(start as int, i as int));
        assert(digits_value(next) == value as nat * 10 + dv as nat);
        if value > (u64::MAX - dv) / 10 {
            assert(value as nat * 10 + dv as nat > u64::MAX) by (nonlinear_arith)
                requires
                    value > (u64::MAX - dv) / 10,
                    dv < 10,
            ;
            proof {
                if all_digits(d) {
                    assert(d.subrange(0, i + 1 - start) =~= next);
                    lemma_prefix_value_le(d, i + 1 - start);
                    assert(digits_value(d) > u64::MAX);
                }
            }
            return None;
        }
        assert(value as nat * 10 + dv as nat <= u64::MAX) by (nonlinear_arith)
            requires
                value <= (u64::MAX - dv) / 10,
                dv < 10,
        ;
        value = value * 10 + dv;
        i = i + 1;
    }
    assert(s@.subrange(start as int, n as int) == d);
    assert(all_digits(d)) by {
        assert(forall|k: int| 0 <= k < d.len() ==> d[k] == s@[k + start]);
    }
    Some(value)
}

/// What `str::trim` leaves of a text.
pub uninterp spec fn trimmed(s: Seq<char>) -> Seq<char>;

/// Relies on `str::trim`: removes leading and trailing Unicode white space;
/// the result depends on the characters alone.
#[verifier::external_body]
pub(crate) fn trim_text(s: &str) -> (r: String)
    ensures
        r@ == trimmed(s@),
{
    s.trim().to_string()
}

/// The pieces of `s` between occurrences of `sep`; there is always at least one.
pub open spec fn split_on(s: Seq<char>, sep: char) -> Seq<Seq<char>>
    decreases s.len(),
{
    if s.len() == 0 {
        seq![Seq::empty()]
    } else {
        let rest = split_on(s.drop_last(), sep);
        if s.last() == sep {
            rest.push(Seq::empty())
        } else {
            rest.update(rest.len() - 1, rest.last().push(s.last()))
        }
    }
}

pub open spec fn views_of(v: Seq<&str>) -> Seq<Seq<char>> {
    v.map_values(|p: &str| p@)
}

/// Splits `s` at every `sep`.
pub fn split_text<'a>(s: &'a str, sep: char) -> (r: Vec<&'a str>)
    ensures
        views_of(r@) == split_on(s@, sep),
{
    let n = s.unicode_len();
    let mut parts: Vec<&'a str> = Vec::new();
    let mut start: usize = 0;
    let mut i: usize = 0;
    proof {
        assert(s@.subrange(0, 0) =~= Seq::<char>::empty());
        assert(views_of(parts@) + seq![s@.subrange(0, 0)] =~= split_on(s@.subrange(0, 0), sep));
    }
    while i < n
        invariant
            n == s@.len(),
            start <= i <= n,
            views_of(parts@) + seq![s@.subrange(start as int, i as int)] == split_on(
                s@.subrange(0, i as int),
                sep,
            ),
        decreases n - i,
    {
        let c = s.get_char(i);
        let ghost before = views_of(parts@);
        let ghost cur = s@.subrange(start as int, i as int);
        proof {
            assert(s@.subrange(0, i + 1).drop_last() =~= s@.subrange(0, i as int));
        }
        if c == sep {
            let piece = s.substring_char(start, i);
            parts.push(piece);
            start = i + 1;
            proof {
                assert(views_of(parts@) =~= before.push(cur));
                assert(s@.subrange(start as int, i + 1) =~= Seq::<char>::empty());
                assert(views_of(parts@) + seq![s@.subrange(start as int, i + 1)] =~= (before
                    + seq![cur]).push(Seq::empty()));
            }
        } else {
            proof {
                assert(s@.subrange(start as int, i + 1) =~= cur.push(c));
                assert(before + seq![cur.push(c)] =~= (before + seq![cur]).update(
                    before.len() as int,
                    cur.push(c),
                ));
            }
        }
        i = i + 1;
    }
    let piece = s.substring_char(start, n);
    let ghost before = views_of(parts@);
    parts.push(piece);
    proof {
        assert(views_of(parts@) =~= before + seq![piece@]);
        assert(s@.subrange(0, n as int) =~= s@);
    }
    parts
}

/// A line without the `\r` that a `\r\n` ending leaves on it.
pub open spec fn strip_cr(l: Seq<char>) -> Seq<char> {
    if l.len() > 0 && l.last() == '\r' {
        l.drop_last()
    } else {
        l
    }
}

/// The last line among `ls` that is not empty.
pub open spec fn last_nonempty(ls: Seq<Seq<char>>) -> Option<Seq<char>>
    decreases ls.len(),
{
    if ls.len() == 0 {
        None
    } else if strip_cr(ls.last()).len() > 0 {
        Some(strip_cr(ls.last()))
    } else {
        last_nonempty(ls.drop_last())
    }
}

/// The last non-empty line of a text, if it has one.
pub open spec fn last_line(s: Seq<char>) -> Option<Seq<char>> {
    last_nonempty(split_on(s, '\n'))
}

/// Finds the last non-empty line of `s`.
pub fn last_line_of<'a>(s: &'a str) -> (r: Option<&'a str>)
    ensures
        match r {
            Some(l) => last_line(s@) == Some(l@),
            None => last_line(s@) is None,
        },
{
    let lines = split_text(s, '\n');
    let ghost all = views_of(lines@);
    let mut j: usize = lines.len();
    proof {
        assert(all.subrange(0, j as int) =~= all);
    }
    while j > 0
        invariant
            j <= lines@.len(),
            all == views_of(lines@),
            all == split_on(s@, '\n'),
            last_nonempty(all.subrange(0, j as int)) == last_line(s@),
        decreases j,
    {
        let line = lines[j - 1];
        let len = line.unicode_len();
        let body = if len > 0 && line.get_char(len - 1) == '\r' {
            line.substring_char(0, len - 1)
        } else {
            line
        };
        proof {
            assert(all[j - 1] == line@);
            assert(all.subrange(0, j as int).drop_last() =~= all.subrange(0, j - 1));
            if len > 0 && line@.last() == '\r' {
                assert(body@ =~= line@.drop_last());
            }
        }
        if body.unicode_len() > 0 {
            return Some(body);
        }
        j = j - 1;
    }
    None
}

} // verus!
