//! Numbers written out as text: decimal numerals and pairs of hex digits.

use vstd::prelude::*;

verus! {

/// The numeral of a single digit: `0` to `9`, then `a` to `f`. Whatever is
/// more than fifteen is written as `f`.
pub open spec fn digit_text(digit: nat) -> Seq<char> {
    if digit == 0 {
        "0"@
    } else if digit == 1 {
        "1"@
    } else if digit == 2 {
        "2"@
    } else if digit == 3 {
        "3"@
    } else if digit == 4 {
        "4"@
    } else if digit == 5 {
        "5"@
    } else if digit == 6 {
        "6"@
    } else if digit == 7 {
        "7"@
    } else if digit == 8 {
        "8"@
    } else if digit == 9 {
        "9"@
    } else if digit == 10 {
        "a"@
    } else if digit == 11 {
        "b"@
    } else if digit == 12 {
        "c"@
    } else if digit == 13 {
        "d"@
    } else if digit == 14 {
        "e"@
    } else {
        "f"@
    }
}

/// The character that stands for a single digit: `0` to `9`, then `a` to `f`.
pub open spec fn digit_char(digit: nat) -> char {
    if digit == 0 {
        '0'
    } else if digit == 1 {
        '1'
    } else if digit == 2 {
        '2'
    } else if digit == 3 {
        '3'
    } else if digit == 4 {
        '4'
    } else if digit == 5 {
        '5'
    } else if digit == 6 {
        '6'
    } else if digit == 7 {
        '7'
    } else if digit == 8 {
        '8'
    } else if digit == 9 {
        '9'
    } else if digit == 10 {
        'a'
    } else if digit == 11 {
        'b'
    } else if digit == 12 {
        'c'
    } else if digit == 13 {
        'd'
    } else if digit == 14 {
        'e'
    } else {
        'f'
    }
}

/// The numeral of a single digit is the one character that stands for it.
pub proof fn lemma_digit_text(digit: nat)
    ensures
        digit_text(digit) == seq![digit_char(digit)],
{
    reveal_strlit("0");
    reveal_strlit("1");
    reveal_strlit("2");
    reveal_strlit("3");
    reveal_strlit("4");
    reveal_strlit("5");
    reveal_strlit("6");
    reveal_strlit("7");
    reveal_strlit("8");
    reveal_strlit("9");
    reveal_strlit("a");
    reveal_strlit("b");
    reveal_strlit("c");
    reveal_strlit("d");
    reveal_strlit("e");
    reveal_strlit("f");
    assert(digit_text(digit) =~= seq![digit_char(digit)]);
}

/// The decimal numeral of a number, without leading zeros.
pub open spec fn decimal(n: nat) -> Seq<char>
    decreases n,
{
    if n < 10 {
        digit_text(n)
    } else {
        decimal(n / 10) + digit_text(n % 10)
    }
}

/// The two lower-case hex digits of an octet.
pub open spec fn hex_pair(octet: u8) -> Seq<char> {
    digit_text((octet / 16) as nat) + digit_text((octet % 16) as nat)
}

/// The numeral of a single digit, with capitals for ten to fifteen.
pub open spec fn upper_digit_text(digit: nat) -> Seq<char> {
    if digit < 10 {
        digit_text(digit)
    } else if digit == 10 {
        "A"@
    } else if digit == 11 {
        "B"@
    } else if digit == 12 {
        "C"@
    } else if digit == 13 {
        "D"@
    } else if digit == 14 {
        "E"@
    } else {
        "F"@
    }
}

/// The two upper-case hex digits of an octet.
pub open spec fn upper_hex_pair(octet: u8) -> Seq<char> {
    upper_digit_text((octet / 16) as nat) + upper_digit_text((octet % 16) as nat)
}

/// The given lines one after the other, a line end between each two.
pub open spec fn joined_lines(lines: Seq<Seq<char>>) -> Seq<char>
    decreases lines.len(),
{
    if lines.len() == 0 {
        Seq::empty()
    } else if lines.len() == 1 {
        lines[0]
    } else {
        joined_lines(lines.drop_last()) + "\n"@ + lines.last()
    }
}

/// What each of the given strings says.
pub open spec fn texts_of(strings: Seq<String>) -> Seq<Seq<char>> {
    Seq::new(strings.len(), |i: int| strings[i]@)
}

/// What `text` becomes when it is put in lower case.
pub uninterp spec fn lowercase_of(text: Seq<char>) -> Seq<char>;

/// Calls `str::to_lowercase`.
///
/// Believed of it: the result depends on the characters of `text` alone.
/// Which characters the result holds is laid down by Unicode's tables, and
/// is not restated here.
#[verifier::external_body]
pub(crate) fn lowercase(text: &str) -> (lower: String)
    ensures
        lower@ == lowercase_of(text@),
{
    text.to_lowercase()
}

/// Whether two texts are the same.
pub fn same_text(a: &str, b: &str) -> (same: bool)
    ensures
        same == (a@ == b@),
{
    String::from_str(a) == String::from_str(b)
}

/// The numeral of a single digit.
pub fn digit_str(digit: u8) -> (text: &'static str)
    ensures
        text@ == digit_text(digit as nat),
{
    match digit {
        0 => "0",
        1 => "1",
        2 => "2",
        3 => "3",
        4 => "4",
        5 => "5",
        6 => "6",
        7 => "7",
        8 => "8",
        9 => "9",
        10 => "a",
        11 => "b",
        12 => "c",
        13 => "d",
        14 => "e",
        _ => "f",
    }
}

/// The numeral of a single digit, with capitals for ten to fifteen.
pub fn upper_digit_str(digit: u8) -> (text: &'static str)
    ensures
        text@ == upper_digit_text(digit as nat),
{
    match digit {
        0 => "0",
        1 => "1",
        2 => "2",
        3 => "3",
        4 => "4",
        5 => "5",
        6 => "6",
        7 => "7",
        8 => "8",
        9 => "9",
        10 => "A",
        11 => "B",
        12 => "C",
        13 => "D",
        14 => "E",
        _ => "F",
    }
}

/// Appends the decimal numeral of `n` to `text`.
pub fn push_decimal(text: &mut String, n: u32)
    ensures
        final(text)@ == old(text)@ + decimal(n as nat),
    decreases n,
{
    if n >= 10 {
        push_decimal(text, n / 10);
    }
    text.append(digit_str((n % 10) as u8));
    proof {
        if n >= 10 {
            let front = decimal((n / 10) as nat);
            let last = digit_text((n % 10) as nat);
            assert(old(text)@ + front + last =~= old(text)@ + (front + last));
        }
    }
}

/// Appends the two lower-case hex digits of `octet` to `text`.
pub fn push_hex_pair(text: &mut String, octet: u8)
    ensures
        final(text)@ == old(text)@ + hex_pair(octet),
{
    text.append(digit_str(octet / 16));
    text.append(digit_str(octet % 16));
    proof {
        let high = digit_text((octet / 16) as nat);
        let low = digit_text((octet % 16) as nat);
        assert(old(text)@ + high + low =~= old(text)@ + hex_pair(octet));
    }
}

/// Appends the two upper-case hex digits of `octet` to `text`.
pub fn push_upper_hex_pair(text: &mut String, octet: u8)
    ensures
        final(text)@ == old(text)@ + upper_hex_pair(octet),
{
    text.append(upper_digit_str(octet / 16));
    text.append(upper_digit_str(octet % 16));
    proof {
        let high = upper_digit_text((octet / 16) as nat);
        let low = upper_digit_text((octet % 16) as nat);
        assert(old(text)@ + high + low =~= old(text)@ + upper_hex_pair(octet));
    }
}

/// The given lines one after the other, a line end between each two.
pub fn join_lines(lines: &Vec<String>) -> (text: String)
    ensures
        text@ == joined_lines(texts_of(lines@)),
{
    let mut text = String::new();
    let mut i: usize = 0;
    while i < lines.len()
        invariant
            i <= lines.len(),
            text@ == joined_lines(texts_of(lines@.take(i as int))),
        decreases lines.len() - i,
    {
        let ghost shown = texts_of(lines@.take(i as int));
        let ghost more = texts_of(lines@.take(i + 1));
        proof {
            assert(more.drop_last() =~= shown);
            assert(more.last() == lines@[i as int]@);
        }
        if i > 0 {
            text.append("\n");
        }
        text.append(lines[i].as_str());
        proof {
            if i == 0 {
                assert(Seq::<char>::empty() + more[0] =~= more[0]);
            }
        }
        i += 1;
    }
    proof {
        assert(lines@.take(lines.len() as int) =~= lines@);
    }
    text
}

} // verus!
