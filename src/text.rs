use vstd::prelude::*;
use vstd::string::*;

verus! {

/// `s` with every occurrence of the character `c` replaced by `rep`.
pub open spec fn replaced_char(s: Seq<char>, c: char, rep: Seq<char>) -> Seq<char>
    decreases s.len(),
{
    if s.len() == 0 {
        Seq::empty()
    } else {
        replaced_char(s.drop_last(), c, rep) + (if s.last() == c {
            rep
        } else {
            seq![s.last()]
        })
    }
}

/// `s` without the occurrences of `c` at its end.
pub open spec fn trimmed_end(s: Seq<char>, c: char) -> Seq<char>
    decreases s.len(),
{
    if s.len() > 0 && s.last() == c {
        trimmed_end(s.drop_last(), c)
    } else {
        s
    }
}

/// `s` without the occurrences of `c` at its start.
pub open spec fn trimmed_start(s: Seq<char>, c: char) -> Seq<char>
    decreases s.len(),
{
    if s.len() > 0 && s[0] == c {
        trimmed_start(s.drop_first(), c)
    } else {
        s
    }
}

/// The lines joined, with `sep` between each two neighbours.
pub open spec fn joined(lines: Seq<Seq<char>>, sep: Seq<char>) -> Seq<char>
    decreases lines.len(),
{
    if lines.len() == 0 {
        Seq::empty()
    } else if lines.len() == 1 {
        lines[0]
    } else {
        joined(lines.drop_last(), sep) + sep + lines.last()
    }
}

pub open spec fn has_prefix(s: Seq<char>, prefix: Seq<char>) -> bool {
    prefix.len() <= s.len() && s.subrange(0, prefix.len() as int) == prefix
}

/// The character of the decimal digit `d`.
pub open spec fn digit_char(d: nat) -> char {
    if d == 0 {
        '0'
    } else if d == 1 {
        '1'
    } else if d == 2 {
        '2'
    } else if d == 3 {
        '3'
    } else if d == 4 {
        '4'
    } else if d == 5 {
        '5'
    } else if d == 6 {
        '6'
    } else if d == 7 {
        '7'
    } else if d == 8 {
        '8'
    } else {
        '9'
    }
}

/// The decimal digits of `n`, most significant first, without leading zeros.
pub open spec fn digits_of(n: nat) -> Seq<char>
    decreases n,
{
    if n < 10 {
        seq![digit_char(n)]
    } else {
        digits_of(n / 10) + seq![digit_char(n % 10)]
    }
}

/// `n` written in decimal, with a leading `-` when it is negative.
pub open spec fn decimal(n: int) -> Seq<char> {
    if n < 0 {
        seq!['-'] + digits_of((-n) as nat)
    } else {
        digits_of(n as nat)
    }
}

fn append_char_of(out: &mut String, s: &str, i: usize)
    requires
        i < s@.len() <= usize::MAX,
    ensures
        final(out)@ == old(out)@ + seq![s@[i as int]],
{
    let one = s.substring_char(i, i + 1);
    assert(one@ =~= seq![s@[i as int]]);
    out.append(one);
}

/// Replaces each occurrence of the character `c` in `s` by `rep`.
pub fn replace_char(s: &str, c: char, rep: &str) -> (r: String)
    ensures
        r@ == replaced_char(s@, c, rep@),
{
    let n = s.unicode_len();
    let mut out = String::new();
    let mut i: usize = 0;
    while i < n
        invariant
            n == s@.len(),
            i <= n,
            out@ == replaced_char(s@.subrange(0, i as int), c, rep@),
        decreases n - i,
    {
        let ch = s.get_char(i);
        assert(s@.subrange(0, i + 1).drop_last() =~= s@.subrange(0, i as int));
        if ch == c {
            out.append(rep);
        } else {
            append_char_of(&mut out, s, i);
        }
        i = i + 1;
    }
    assert(s@.subrange(0, n as int) =~= s@);
    out
}

/// Removes every occurrence of `c` at the end of `s`.
pub fn trim_end_char(s: &str, c: char) -> (r: String)
    ensures
        r@ == trimmed_end(s@, c),
{
    let mut j = s.unicode_len();
    assert(s@.subrange(0, j as int) =~= s@);
    while j > 0 && s.get_char(j - 1) == c
        invariant
            j <= s@.len(),
            trimmed_end(s@.subrange(0, j as int), c) == trimmed_end(s@, c),
        decreases j,
    {
        assert(s@.subrange(0, j as int).drop_last() =~= s@.subrange(0, j - 1));
        j = j - 1;
    }
    String::from_str(s.substring_char(0, j))
}

/// Removes every occurrence of `c` at the start of `s`.
pub fn trim_start_char(s: &str, c: char) -> (r: String)
    ensures
        r@ == trimmed_start(s@, c),
{
    let n = s.unicode_len();
    let mut i: usize = 0;
    assert(s@.subrange(0, n as int) =~= s@);
    while i < n && s.get_char(i) == c
        invariant
            n == s@.len(),
            i <= n,
            trimmed_start(s@.subrange(i as int, n as int), c) == trimmed_start(s@, c),
        decreases n - i,
    {
        assert(s@.subrange(i as int, n as int).drop_first() =~= s@.subrange(i + 1, n as int));
        i = i + 1;
    }
    String::from_str(s.substring_char(i, n))
}

/// Joins the lines with `sep` between each two neighbours.
pub fn join(lines: &Vec<String>, sep: &str) -> (r: String)
    ensures
        r@ == joined(lines.deep_view(), sep@),
{
    let mut out = String::new();
    let mut i: usize = 0;
    while i < lines.len()
        invariant
            i <= lines@.len(),
            out@ == joined(lines.deep_view().subrange(0, i as int), sep@),
        decreases lines@.len() - i,
    {
        assert(lines.deep_view().subrange(0, i + 1).drop_last() =~= lines.deep_view().subrange(
            0,
            i as int,
        ));
        if i > 0 {
            out.append(sep);
        }
        out.append(lines[i].as_str());
        i = i + 1;
    }
    assert(lines.deep_view().subrange(0, lines@.len() as int) =~= lines.deep_view());
    out
}

/// Whether `s` begins with `prefix`.
pub fn starts_with(s: &str, prefix: &str) -> (r: bool)
    ensures
        r == has_prefix(s@, prefix@),
{
    let n = s.unicode_len();
    let m = prefix.unicode_len();
    if m > n {
        return false;
    }
    let mut i: usize = 0;
    while i < m
        invariant
            n == s@.len(),
            m == prefix@.len(),
            m <= n,
            i <= m,
            forall|k: int| 0 <= k < i ==> s@[k] == prefix@[k],
        decreases m - i,
    {
        if s.get_char(i) != prefix.get_char(i) {
            assert(s@.subrange(0, m as int)[i as int] != prefix@[i as int]);
            return false;
        }
        i = i + 1;
    }
    assert(s@.subrange(0, m as int) =~= prefix@);
    true
}

fn append_digits(out: &mut String, n: u64)
    ensures
        final(out)@ == old(out)@ + digits_of(n as nat),
    decreases n,
{
    let digits: &str = "0123456789";
    proof {
        reveal_strlit("0123456789");
    }
    if n >= 10 {
        append_digits(out, n / 10);
    }
    let d = (n % 10) as usize;
    append_char_of(out, digits, d);
    assert(digits@[d as int] == digit_char(d as nat));
    proof {
        if n >= 10 {
            assert(digits_of(n as nat) == digits_of((n / 10) as nat) + seq![digit_char((n % 10) as nat)]);
        }
    }
    assert(final(out)@ =~= old(out)@ + digits_of(n as nat));
}

/// `n` in decimal notation.
pub fn decimal_string(n: i64) -> (r: String)
    ensures
        r@ == decimal(n as int),
{
    let mut out = String::new();
    if n < 0 {
        out.append("-");
        proof {
            reveal_strlit("-");
        }
        let mag: u64 = (0i128 - n as i128) as u64;
        append_digits(&mut out, mag);
        assert(out@ =~= decimal(n as int));
    } else {
        append_digits(&mut out, n as u64);
        assert(out@ =~= decimal(n as int));
    }
    out
}

} // verus!
