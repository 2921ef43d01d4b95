//! Appending text to a byte buffer, and the decimal form of small numbers.

use vstd::prelude::*;
use vstd::string::*;
use vstd::utf8::*;

verus! {

/// Encoding a concatenation is concatenating the encodings.
pub broadcast proof fn lemma_encode_utf8_concat(a: Seq<char>, b: Seq<char>)
    ensures
        #[trigger] encode_utf8(a + b) == encode_utf8(a) + encode_utf8(b),
    decreases a.len(),
{
    if a.len() == 0 {
        assert(a + b =~= b);
        assert(encode_utf8(a) + encode_utf8(b) =~= encode_utf8(b));
    } else {
        lemma_encode_utf8_concat(a.drop_first(), b);
        assert((a + b).drop_first() =~= a.drop_first() + b);
        assert(encode_utf8(a + b) =~= encode_utf8(a) + encode_utf8(b));
    }
}

/// The encoding of a text is UTF-8, and reads back as the text.
pub proof fn lemma_text_of_encoding(text: Seq<char>)
    ensures
        valid_utf8(encode_utf8(text)),
        decode_utf8(encode_utf8(text)) == text,
{
    encode_utf8_valid_utf8(text);
    encode_utf8_decode_utf8(text);
}

/// How often a character stands in a text.
pub open spec fn count_of(text: Seq<char>, mark: char) -> nat
    decreases text.len(),
{
    if text.len() == 0 {
        0
    } else {
        count_of(text.drop_last(), mark) + if text.last() == mark {
            1nat
        } else {
            0nat
        }
    }
}

/// Whether a text holds neither `?` nor `;`.
pub open spec fn plain(text: Seq<char>) -> bool {
    forall|i: int| 0 <= i < text.len() ==> #[trigger] text[i] != '?' && text[i] != ';'
}

/// Whether a text holds `n` times `?`, and no `;`.
pub open spec fn marks(text: Seq<char>, n: int) -> bool {
    count_of(text, '?') == n && count_of(text, ';') == 0
}

/// A character stands in two texts, one after the other, as often as in the
/// one and in the other together.
pub proof fn lemma_count_concat(a: Seq<char>, b: Seq<char>, mark: char)
    ensures
        count_of(a + b, mark) == count_of(a, mark) + count_of(b, mark),
    decreases b.len(),
{
    if b.len() == 0 {
        assert(a + b =~= a);
    } else {
        lemma_count_concat(a, b.drop_last(), mark);
        assert((a + b).drop_last() =~= a + b.drop_last());
    }
}

/// A text with neither `?` nor `;` holds none of them.
pub proof fn lemma_plain_marks(text: Seq<char>)
    requires
        plain(text),
    ensures
        marks(text, 0),
    decreases text.len(),
{
    if text.len() > 0 {
        lemma_plain_marks(text.drop_last());
    }
}

/// The placeholders of two texts, one after the other, are those of the one
/// and those of the other.
pub proof fn lemma_marks_concat(a: Seq<char>, n: int, b: Seq<char>, m: int)
    requires
        marks(a, n),
        marks(b, m),
    ensures
        marks(a + b, n + m),
{
    lemma_count_concat(a, b, '?');
    lemma_count_concat(a, b, ';');
}

/// The decimal digits of a number hold neither `?` nor `;`.
pub proof fn lemma_decimal_plain(n: nat)
    ensures
        plain(decimal(n)),
    decreases n,
{
    if n >= 10 {
        lemma_decimal_plain(n / 10);
    }
}

/// Appends the UTF-8 encoding of `s` to `buf`.
pub fn write_str(buf: &mut Vec<u8>, s: &str)
    ensures
        final(buf)@ == old(buf)@ + encode_utf8(s@),
{
    buf.extend_from_slice(s.as_bytes());
    assert(buf@ =~= old(buf)@ + encode_utf8(s@));
}

/// The character of a decimal digit.
pub open spec fn digit_char(d: nat) -> char
    recommends
        d < 10,
{
    if d == 0 {
        '0'
    } else if d == 1 {
        '1'
    } else if d == 2 {
        '2'
    } else if d == 3 {
        '3'
    } else if d == 4 {
        '4'
    } else if d == 5 {
        '5'
    } else if d == 6 {
        '6'
    } else if d == 7 {
        '7'
    } else if d == 8 {
        '8'
    } else {
        '9'
    }
}

/// The decimal digits of `n`, most significant first, without leading zeros.
pub open spec fn decimal(n: nat) -> Seq<char>
    decreases n,
{
    if n < 10 {
        seq![digit_char(n)]
    } else {
        decimal(n / 10).push(digit_char(n % 10))
    }
}

/// The one-character text of a decimal digit.
fn digit_str(d: u8) -> (s: &'static str)
    requires
        d < 10,
    ensures
        s@ == seq![digit_char(d as nat)],
{
    proof {
        reveal_strlit("0");
        reveal_strlit("1");
        reveal_strlit("2");
        reveal_strlit("3");
        reveal_strlit("4");
        reveal_strlit("5");
        reveal_strlit("6");
        reveal_strlit("7");
        reveal_strlit("8");
        reveal_strlit("9");
    }
    let s = if d == 0 {
        "0"
    } else if d == 1 {
        "1"
    } else if d == 2 {
        "2"
    } else if d == 3 {
        "3"
    } else if d == 4 {
        "4"
    } else if d == 5 {
        "5"
    } else if d == 6 {
        "6"
    } else if d == 7 {
        "7"
    } else if d == 8 {
        "8"
    } else {
        "9"
    };
    assert(s@ =~= seq![digit_char(d as nat)]);
    s
}

/// The decimal text of `n`.
pub fn decimal_string(n: u8) -> (s: String)
    ensures
        s@ == decimal(n as nat),
{
    let mut s = String::new();
    if n >= 100 {
        s.append(digit_str(n / 100));
    }
    if n >= 10 {
        s.append(digit_str((n / 10) % 10));
    }
    s.append(digit_str(n % 10));
    proof {
        let k = n as nat;
        reveal_with_fuel(decimal, 3);
        if k >= 100 {
            assert(k / 10 / 10 == k / 100);
            assert(k / 10 >= 10);
        }
        assert(s@ =~= decimal(k));
    }
    s
}

} // verus!
