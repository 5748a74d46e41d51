//! Text building blocks: exact comparison of string slices and the decimal
//! rendering of integers, plain and zero-padded.

use vstd::prelude::*;
use vstd::string::StringExecFns;
use vstd::string::StringSliceAdditionalSpecFns;
use vstd::utf8::encode_utf8;

verus! {

/// The character that stands for a single decimal digit.
pub open spec fn digit(d: nat) -> char {
    if d == 0 {
        '0'
    } else if d == 1 {
        '1'
    } else if d == 2 {
        '2'
    } else if d == 3 {
        '3'
    } else if d == 4 {
        '4'
    } else if d == 5 {
        '5'
    } else if d == 6 {
        '6'
    } else if d == 7 {
        '7'
    } else if d == 8 {
        '8'
    } else {
        '9'
    }
}

/// The decimal numeral of `n`, most significant digit first, without
/// leading zeros (zero itself is `"0"`).
pub open spec fn decimal(n: nat) -> Seq<char>
    decreases n,
{
    if n < 10 {
        seq![digit(n)]
    } else {
        decimal(n / 10).push(digit(n % 10))
    }
}

/// `count` zero characters.
pub open spec fn zeros(count: nat) -> Seq<char> {
    Seq::new(count, |i: int| '0')
}

/// The decimal numeral of `n`, padded on the left with zeros to at least
/// `width` characters. A numeral that is already wider is left as it is.
pub open spec fn padded(n: nat, width: nat) -> Seq<char> {
    if decimal(n).len() >= width {
        decimal(n)
    } else {
        zeros((width - decimal(n).len()) as nat) + decimal(n)
    }
}

/// The numeral of a signed number padded with zeros to `width` characters,
/// the sign counting toward the width and standing before the zeros.
pub open spec fn signed_padded(n: int, width: nat) -> Seq<char> {
    if n >= 0 {
        padded(n as nat, width)
    } else if width >= 1 {
        seq!['-'] + padded((-n) as nat, (width - 1) as nat)
    } else {
        seq!['-'] + decimal((-n) as nat)
    }
}

/// The lower-case form of an ASCII capital letter; every other character
/// is left as it is.
pub open spec fn fold_ascii(c: char) -> char {
    if 'A' <= c <= 'Z' {
        ((c as u8) + 32) as u8 as char
    } else {
        c
    }
}

/// `text` with its ASCII capital letters in lower case.
pub open spec fn folded(text: Seq<char>) -> Seq<char> {
    Seq::new(text.len(), |i: int| fold_ascii(text[i]))
}

/// The lower-case form of the byte of an ASCII capital letter; every
/// other byte is left as it is.
pub open spec fn fold_byte(b: u8) -> u8 {
    if 65 <= b <= 90 {
        (b + 32) as u8
    } else {
        b
    }
}

/// Text whose UTF-8 encoding holds only bytes below 128 has one character
/// per byte, each with the byte's value.
pub proof fn lemma_ascii_bytes_text(text: Seq<char>, bytes: Seq<u8>)
    requires
        bytes == encode_utf8(text),
        forall|i: int| 0 <= i < bytes.len() ==> bytes[i] < 128,
    ensures
        text.len() == bytes.len(),
        vstd::utf8::is_ascii_chars(text),
        forall|i: int| 0 <= i < bytes.len() ==> #[trigger] text[i] == bytes[i] as char,
{
    let plain = Seq::new(bytes.len(), |i: int| bytes[i] as char);
    assert(vstd::utf8::is_ascii_chars(plain));
    vstd::utf8::is_ascii_chars_encode_utf8(plain);
    assert(encode_utf8(plain) =~= bytes);
    vstd::utf8::encode_utf8_decode_utf8(plain);
    vstd::utf8::encode_utf8_decode_utf8(text);
}

/// Whether `text`, with its ASCII capitals in lower case, reads `name`.
pub(crate) fn same_text_ignoring_case(text: &str, name: &str) -> (same: bool)
    requires
        vstd::utf8::is_ascii_chars(name@),
        folded(name@) == name@,
    ensures
        same == (folded(text@) == name@),
{
    let x = text.as_bytes();
    let y = name.as_bytes();
    proof {
        vstd::utf8::is_ascii_chars_encode_utf8(name@);
        if folded(text@) == name@ {
            assert forall|i: int| 0 <= i < text@.len() implies '\0' <= #[trigger] text@[i]
                <= '\u{7f}' by {
                assert(folded(text@)[i] == name@[i]);
            }
            vstd::utf8::is_ascii_chars_encode_utf8(text@);
        }
    }
    if x.len() != y.len() {
        proof {
            if forall|i: int| 0 <= i < x@.len() ==> x@[i] < 128 {
                lemma_ascii_bytes_text(text@, x@);
            }
        }
        return false;
    }
    let mut i: usize = 0;
    while i < x.len()
        invariant
            i <= x.len(),
            x.len() == y.len(),
            x@ == encode_utf8(text@),
            y@ == encode_utf8(name@),
            vstd::utf8::is_ascii_chars(name@),
            name@.len() == y@.len(),
            forall|k: int| 0 <= k < y@.len() ==> name@[k] as u8 == y@[k],
            folded(text@) == name@ ==> text@.len() == x@.len() && forall|k: int|
                0 <= k < x@.len() ==> text@[k] as u8 == x@[k],
            forall|k: int| 0 <= k < i ==> fold_byte(x@[k]) == y@[k],
        decreases x.len() - i,
    {
        let b = x[i];
        let lowered = if 65 <= b && b <= 90 {
            b + 32
        } else {
            b
        };
        if lowered != y[i] {
            proof {
                if folded(text@) == name@ {
                    let k = i as int;
                    assert(folded(text@)[k] == name@[k]);
                    assert(fold_ascii(text@[k]) as u8 == fold_byte(text@[k] as u8));
                }
            }
            return false;
        }
        i += 1;
    }
    proof {
        assert forall|k: int| 0 <= k < x@.len() implies x@[k] < 128 by {
            assert(fold_byte(x@[k]) == y@[k]);
            assert('\0' <= name@[k] <= '\u{7f}');
        }
        lemma_ascii_bytes_text(text@, x@);
        assert forall|k: int| 0 <= k < text@.len() implies folded(text@)[k] == name@[k] by {
            assert(text@[k] == x@[k] as char);
            assert(fold_byte(x@[k]) == y@[k]);
            assert('\0' <= name@[k] <= '\u{7f}');
            assert(name@[k] as u8 == y@[k]);
        }
        assert(folded(text@) =~= name@);
    }
    true
}

/// Whether two string slices hold the same text.
pub fn same_text(a: &str, b: &str) -> (same: bool)
    ensures
        same == (a@ == b@),
{
    let x = a.as_bytes();
    let y = b.as_bytes();
    proof {
        vstd::utf8::encode_utf8_decode_utf8(a@);
        vstd::utf8::encode_utf8_decode_utf8(b@);
    }
    if x.len() != y.len() {
        return false;
    }
    let mut i: usize = 0;
    while i < x.len()
        invariant
            i <= x.len(),
            x.len() == y.len(),
            x@ == encode_utf8(a@),
            y@ == encode_utf8(b@),
            forall|k: int| 0 <= k < i ==> x@[k] == y@[k],
        decreases x.len() - i,
    {
        if x[i] != y[i] {
            return false;
        }
        i += 1;
    }
    assert(x@ =~= y@);
    true
}

/// The one-character text of a decimal digit.
pub(crate) fn digit_text(d: u8) -> (text: &'static str)
    requires
        d < 10,
    ensures
        text@ == seq![digit(d as nat)],
{
    proof {
        reveal_strlit("0");
        reveal_strlit("1");
        reveal_strlit("2");
        reveal_strlit("3");
        reveal_strlit("4");
        reveal_strlit("5");
        reveal_strlit("6");
        reveal_strlit("7");
        reveal_strlit("8");
        reveal_strlit("9");
    }
    let text = if d == 0 {
        "0"
    } else if d == 1 {
        "1"
    } else if d == 2 {
        "2"
    } else if d == 3 {
        "3"
    } else if d == 4 {
        "4"
    } else if d == 5 {
        "5"
    } else if d == 6 {
        "6"
    } else if d == 7 {
        "7"
    } else if d == 8 {
        "8"
    } else {
        "9"
    };
    assert(text@ =~= seq![digit(d as nat)]);
    text
}

/// Renders `n` in decimal.
pub fn render_decimal(n: u128) -> (text: String)
    ensures
        text@ == decimal(n as nat),
    decreases n,
{
    if n < 10 {
        String::from_str(digit_text(n as u8))
    } else {
        let mut text = render_decimal(n / 10);
        text.append(digit_text((n % 10) as u8));
        text
    }
}

/// The number of digits in the decimal numeral of `n`.
pub fn decimal_width(n: u128) -> (width: usize)
    ensures
        width == decimal(n as nat).len(),
        1 <= width <= 39,
    decreases n,
{
    if n < 10 {
        1
    } else {
        proof {
            assert(ten_pow(38) == 100000000000000000000000000000000000000) by {
                reveal_with_fuel(ten_pow, 39);
            }
            lemma_decimal_width_bound(n as nat / 10, 38);
        }
        decimal_width(n / 10) + 1
    }
}

/// Ten to the power `exponent`.
pub open spec fn ten_pow(exponent: nat) -> nat
    decreases exponent,
{
    if exponent == 0 {
        1
    } else {
        10 * ten_pow((exponent - 1) as nat)
    }
}

/// A number below `10^digits` has at most `digits` digits.
pub proof fn lemma_decimal_width_bound(n: nat, digits: nat)
    requires
        digits >= 1,
        n < ten_pow(digits),
    ensures
        1 <= decimal(n).len() <= digits,
    decreases digits,
{
    if n >= 10 {
        assert(ten_pow(1) == 10) by {
            reveal_with_fuel(ten_pow, 2);
        }
        if digits > 1 {
            lemma_decimal_width_bound(n / 10, (digits - 1) as nat);
        }
    }
}

/// A number below `10^width` fills exactly `width` characters when
/// padded to that width.
pub proof fn lemma_padded_width(n: nat, width: nat)
    requires
        width >= 1,
        n < ten_pow(width),
    ensures
        padded(n, width).len() == width,
{
    lemma_decimal_width_bound(n, width);
}

/// Renders `n` in decimal, padded on the left with zeros to `width`
/// characters.
pub fn render_padded(n: u128, width: usize) -> (text: String)
    ensures
        text@ == padded(n as nat, width as nat),
{
    let have = decimal_width(n);
    let mut text = String::new();
    let mut i: usize = have;
    while i < width
        invariant
            i >= have,
            i == have || i <= width,
            text@ == zeros((i - have) as nat),
        decreases width - i,
    {
        text.append(digit_text(0));
        assert(text@ =~= zeros((i + 1 - have) as nat));
        i += 1;
    }
    let numeral = render_decimal(n);
    text.append(numeral.as_str());
    assert(text@ =~= padded(n as nat, width as nat));
    text
}

/// Renders a signed number padded with zeros to `width` characters, the
/// sign counting toward the width.
pub fn render_signed_padded(n: i64, width: usize) -> (text: String)
    ensures
        text@ == signed_padded(n as int, width as nat),
{
    if n >= 0 {
        render_padded(n as u128, width)
    } else {
        proof {
            reveal_strlit("-");
        }
        let magnitude: u128 = (-(n as i128)) as u128;
        let mut text = String::from_str("-");
        let rest = if width >= 1 {
            render_padded(magnitude, width - 1)
        } else {
            render_decimal(magnitude)
        };
        text.append(rest.as_str());
        assert(text@ =~= signed_padded(n as int, width as nat));
        text
    }
}

} // verus!
