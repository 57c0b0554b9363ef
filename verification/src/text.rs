//! Text building blocks: decimal numerals, ASCII upper case and joining.

use vstd::prelude::*;
use vstd::string::*;

verus! {

/// The character of a decimal digit `d < 10`.
pub open spec fn digit_char(d: nat) -> char {
    if d == 0 {
        '0'
    } else if d == 1 {
        '1'
    } else if d == 2 {
        '2'
    } else if d == 3 {
        '3'
    } else if d == 4 {
        '4'
    } else if d == 5 {
        '5'
    } else if d == 6 {
        '6'
    } else if d == 7 {
        '7'
    } else if d == 8 {
        '8'
    } else {
        '9'
    }
}

/// The decimal numeral of `n`, without sign or leading zeros.
pub open spec fn decimal(n: nat) -> Seq<char>
    decreases n,
{
    if n < 10 {
        seq![digit_char(n)]
    } else {
        decimal(n / 10).push(digit_char(n % 10))
    }
}

/// The one-character text of a decimal digit.
fn digit_text(d: usize) -> (text: &'static str)
    requires
        d < 10,
    ensures
        text@ == seq![digit_char(d as nat)],
{
    proof {
        reveal_strlit("0");
        reveal_strlit("1");
        reveal_strlit("2");
        reveal_strlit("3");
        reveal_strlit("4");
        reveal_strlit("5");
        reveal_strlit("6");
        reveal_strlit("7");
        reveal_strlit("8");
        reveal_strlit("9");
    }
    let text = if d == 0 {
        "0"
    } else if d == 1 {
        "1"
    } else if d == 2 {
        "2"
    } else if d == 3 {
        "3"
    } else if d == 4 {
        "4"
    } else if d == 5 {
        "5"
    } else if d == 6 {
        "6"
    } else if d == 7 {
        "7"
    } else if d == 8 {
        "8"
    } else {
        "9"
    };
    assert(text@ =~= seq![digit_char(d as nat)]);
    text
}

/// Appends the decimal numeral of `n` to `out`.
pub fn push_decimal(out: &mut String, n: usize)
    ensures
        final(out)@ == old(out)@ + decimal(n as nat),
    decreases n,
{
    if n >= 10 {
        push_decimal(out, n / 10);
    }
    out.append(digit_text(n % 10));
    assert(out@ =~= old(out)@ + decimal(n as nat));
}

/// The decimal numeral of `n` as a string.
pub fn decimal_string(n: usize) -> (out: String)
    ensures
        out@ == decimal(n as nat),
{
    let mut out = String::new();
    push_decimal(&mut out, n);
    assert(out@ =~= decimal(n as nat));
    out
}

/// The ASCII upper case of `c`: `a` to `z` become `A` to `Z`, every other
/// character stays.
pub open spec fn upper_char(c: char) -> char {
    if 'a' <= c && c <= 'z' {
        ((c as int) - 32) as char
    } else {
        c
    }
}

/// `s` with each character mapped by [`upper_char`].
pub open spec fn ascii_upper(s: Seq<char>) -> Seq<char> {
    Seq::new(s.len(), |i: int| upper_char(s[i]))
}

/// std's `str::to_ascii_uppercase`: a copy of the string in which the ASCII
/// letters `a` to `z` are replaced by `A` to `Z` and nothing else changes.
pub assume_specification[ str::to_ascii_uppercase ](s: &str) -> (out: String)
    ensures
        out@ == ascii_upper(s@),
;

/// `words` written one after another with `sep` between neighbours.
pub open spec fn joined(words: Seq<Seq<char>>, sep: Seq<char>) -> Seq<char>
    decreases words.len(),
{
    if words.len() == 0 {
        Seq::empty()
    } else if words.len() == 1 {
        words[0]
    } else {
        joined(words.drop_last(), sep) + sep + words.last()
    }
}

/// The views of a sequence of strings.
pub open spec fn texts(words: Seq<String>) -> Seq<Seq<char>> {
    Seq::new(words.len(), |i: int| words[i]@)
}

/// Joins `words` with `sep` between neighbours.
pub fn join(words: &Vec<String>, sep: &str) -> (out: String)
    ensures
        out@ == joined(texts(words@), sep@),
{
    let mut out = String::new();
    let mut i: usize = 0;
    while i < words.len()
        invariant
            i <= words.len(),
            out@ == joined(texts(words@).take(i as int), sep@),
        decreases words.len() - i,
    {
        let ghost before = texts(words@).take(i as int);
        let ghost after = texts(words@).take(i as int + 1);
        assert(after.drop_last() =~= before);
        assert(after.last() == words[i as int]@);
        if i > 0 {
            out.append(sep);
        }
        out.append(words[i].as_str());
        assert(out@ =~= joined(after, sep@));
        i = i + 1;
    }
    assert(texts(words@).take(i as int) =~= texts(words@));
    out
}

} // verus!
