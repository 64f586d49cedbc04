//! Numbers as texts and texts as numbers, and the placing of dialogs.

use vstd::prelude::*;
use vstd::string::StringExecFns;
use vstd::utf8::is_ascii_chars;

verus! {

/// Why a text is not an unsigned number.
#[derive(Clone, Copy, Debug, PartialEq, Eq, Structural)]
pub enum ParseIntError {
    /// The text is empty.
    Empty,
    /// Some character is not a digit of the radix, or there is a sign and
    /// nothing after it.
    InvalidDigit,
    /// The digits are fine but the number does not fit in `usize`.
    Overflow,
}

/// The value of the character with code `code` as a digit in `radix`:
/// `0`-`9` count 0 to 9 and letters, in either case, count from 10 on.
pub open spec fn digit_value(code: int, radix: int) -> Option<int> {
    let v = if '0' as int <= code <= '9' as int {
        code - '0' as int
    } else if 'a' as int <= code <= 'z' as int {
        code - 'a' as int + 10
    } else if 'A' as int <= code <= 'Z' as int {
        code - 'A' as int + 10
    } else {
        radix
    };
    if v < radix {
        Some(v)
    } else {
        None
    }
}

/// `c` is a digit in `radix`.
pub open spec fn is_digit(c: char, radix: int) -> bool {
    digit_value(c as int, radix) is Some
}

/// Every character of `s` is a digit in `radix`.
pub open spec fn all_digits(s: Seq<char>, radix: int) -> bool {
    forall|i: int| 0 <= i < s.len() ==> is_digit(#[trigger] s[i], radix)
}

/// The number that the digits `s` write in `radix`, most significant first.
pub open spec fn digits_value(s: Seq<char>, radix: int) -> int
    decreases s.len(),
{
    if s.len() == 0 {
        0
    } else {
        digits_value(s.drop_last(), radix) * radix + digit_value(s.last() as int, radix).unwrap()
    }
}

/// `s` without one leading `+`.
pub open spec fn strip_plus(s: Seq<char>) -> Seq<char> {
    if s.len() > 0 && s[0] == '+' {
        s.skip(1)
    } else {
        s
    }
}

/// What a text means as an unsigned number in `radix`: an optional `+`, then
/// one or more digits, with a value that fits in `usize`.
pub open spec fn parse_unsigned(s: Seq<char>, radix: int) -> Result<usize, ParseIntError> {
    let digits = strip_plus(s);
    if s.len() == 0 {
        Err(ParseIntError::Empty)
    } else if digits.len() == 0 || !all_digits(digits, radix) {
        Err(ParseIntError::InvalidDigit)
    } else if digits_value(digits, radix) > usize::MAX {
        Err(ParseIntError::Overflow)
    } else {
        Ok(digits_value(digits, radix) as usize)
    }
}

/// What an offset expression means: hexadecimal, or decimal when it ends in `t`.
pub open spec fn goto_expression(expr: Seq<char>) -> Result<usize, ParseIntError> {
    if expr.len() > 0 && expr.last() == 't' {
        parse_unsigned(expr.drop_last(), 10)
    } else {
        parse_unsigned(expr, 16)
    }
}

/// `bytes` holds the characters of `s`, which are all ASCII, one byte each.
pub open spec fn ascii_of(bytes: Seq<u8>, s: Seq<char>) -> bool {
    &&& bytes.len() == s.len()
    &&& forall|i: int|
        0 <= i < s.len() ==> '\0' <= #[trigger] s[i] <= '\u{7f}' && bytes[i] == s[i] as u8
}

/// The bytes of an ASCII text, one per character; `None` when some character
/// is not ASCII.
pub fn ascii_bytes(s: &str) -> (r: Option<&[u8]>)
    ensures
        r is Some <==> is_ascii_chars(s@),
        r matches Some(b) ==> ascii_of(b@, s@),
{
    if s.is_ascii() {
        let b = s.as_bytes();
        proof {
            vstd::utf8::is_ascii_chars_encode_utf8(s@);
        }
        Some(b)
    } else {
        None
    }
}

/// The digit that an ASCII byte writes in `radix`, if it is one.
pub fn byte_digit(b: u8, radix: u8) -> (r: Option<u8>)
    requires
        radix <= 36,
    ensures
        r is Some <==> digit_value(b as int, radix as int) is Some,
        r matches Some(v) ==> v as int == digit_value(b as int, radix as int).unwrap(),
{
    let v: u8 = if 0x30 <= b && b <= 0x39 {
        b - 0x30
    } else if 0x61 <= b && b <= 0x7a {
        b - 0x61 + 10
    } else if 0x41 <= b && b <= 0x5a {
        b - 0x41 + 10
    } else {
        radix
    };
    if v < radix {
        Some(v)
    } else {
        None
    }
}

/// The digit that a character writes in `radix`, if it is one.
pub fn char_digit(c: char, radix: u8) -> (r: Option<u8>)
    requires
        radix <= 36,
    ensures
        r is Some <==> is_digit(c, radix as int),
        r matches Some(v) ==> v as int == digit_value(c as int, radix as int).unwrap(),
{
    if c <= '\u{7f}' {
        byte_digit(c as u8, radix)
    } else {
        None
    }
}

proof fn lemma_digits_value_bounds(s: Seq<char>, radix: int)
    requires
        radix >= 1,
        all_digits(s, radix),
    ensures
        digits_value(s, radix) >= 0,
    decreases s.len(),
{
    if s.len() > 0 {
        let p = s.drop_last();
        assert forall|i: int| 0 <= i < p.len() implies is_digit(#[trigger] p[i], radix) by {
            assert(p[i] == s[i]);
        }
        lemma_digits_value_bounds(p, radix);
        assert(is_digit(s[s.len() - 1], radix));
        assert(digits_value(p, radix) * radix >= 0) by (nonlinear_arith)
            requires
                digits_value(p, radix) >= 0,
                radix >= 1,
        ;
    }
}

/// Reads `bytes[start..]` as an unsigned number in `radix`.
fn parse_digits(bytes: &[u8], start: usize, radix: u8, Ghost(s): Ghost<Seq<char>>) -> (r: Result<
    usize,
    ParseIntError,
>)
    requires
        ascii_of(bytes@, s),
        start <= bytes.len(),
        2 <= radix <= 36,
    ensures
        r == parse_unsigned(s.skip(start as int), radix as int),
{
    let n = bytes.len();
    let ghost text = s.skip(start as int);
    if start == n {
        return Err(ParseIntError::Empty);
    }
    let first: usize = if bytes[start] == 0x2b {
        start + 1
    } else {
        start
    };
    let ghost digits = strip_plus(text);
    proof {
        assert(text[0] == s[start as int]);
        assert(digits =~= s.skip(first as int));
    }
    if first == n {
        return Err(ParseIntError::InvalidDigit);
    }
    let mut i: usize = first;
    let mut value: usize = 0;
    let mut overflow = false;
    while i < n
        invariant
            ascii_of(bytes@, s),
            n == bytes.len(),
            first <= i <= n,
            2 <= radix <= 36,
            digits == s.skip(first as int),
            digits == strip_plus(s.skip(start as int)),
            start < n,
            all_digits(digits.take(i - first), radix as int),
            !overflow ==> value == digits_value(digits.take(i - first), radix as int),
            overflow ==> digits_value(digits.take(i - first), radix as int) > usize::MAX,
        decreases n - i,
    {
        let ghost before = digits.take(i - first);
        let ghost after = digits.take(i - first + 1);
        proof {
            assert(after.drop_last() =~= before);
            assert(after.last() == s[i as int]);
            assert(digits[i - first] == s[i as int]);
            lemma_digits_value_bounds(before, radix as int);
        }
        match byte_digit(bytes[i], radix) {
            None => {
                proof {
                    assert(!is_digit(digits[i - first], radix as int));
                }
                return Err(ParseIntError::InvalidDigit);
            },
            Some(d) => {
                proof {
                    assert forall|k: int| 0 <= k < after.len() implies is_digit(
                        #[trigger] after[k],
                        radix as int,
                    ) by {
                        if k < before.len() {
                            assert(after[k] == before[k]);
                        }
                    }
                }
                if !overflow {
                    let next = match value.checked_mul(radix as usize) {
                        Some(m) => m.checked_add(d as usize),
                        None => None,
                    };
                    match next {
                        Some(v) => {
                            value = v;
                        },
                        None => {
                            overflow = true;
                        },
                    }
                } else {
                    proof {
                        assert(digits_value(before, radix as int) * radix >= digits_value(
                            before,
                            radix as int,
                        )) by (nonlinear_arith)
                            requires
                                digits_value(before, radix as int) >= 0,
                                radix >= 1,
                        ;
                    }
                }
            },
        }
        i += 1;
    }
    proof {
        assert(digits.take(n - first) =~= digits);
    }
    if overflow {
        Err(ParseIntError::Overflow)
    } else {
        Ok(value)
    }
}

/// Reads an offset as the user writes it: hexadecimal by default, decimal
/// when the text ends in `t`. A leading `+` is accepted.
pub fn parse_goto_expression(expr: &str) -> (r: Result<usize, ParseIntError>)
    ensures
        r == goto_expression(expr@),
{
    match ascii_bytes(expr) {
        None => {
            proof {
                lemma_not_ascii_is_no_number(expr@);
            }
            Err(ParseIntError::InvalidDigit)
        },
        Some(bytes) => {
            let n = bytes.len();
            if n > 0 && bytes[n - 1] == 0x74 {
                let head = vstd::slice::slice_subrange(bytes, 0, n - 1);
                proof {
                    assert(expr@.last() == 't');
                    assert(ascii_of(head@, expr@.drop_last()));
                    assert(expr@.drop_last().skip(0) =~= expr@.drop_last());
                }
                parse_digits(head, 0, 10, Ghost(expr@.drop_last()))
            } else {
                proof {
                    assert(expr@.skip(0) =~= expr@);
                }
                parse_digits(bytes, 0, 16, Ghost(expr@))
            }
        },
    }
}

/// Reads an unsigned number in decimal. A leading `+` is accepted.
pub fn parse_decimal(text: &str) -> (r: Result<usize, ParseIntError>)
    ensures
        r == parse_unsigned(text@, 10),
{
    match ascii_bytes(text) {
        None => {
            proof {
                let s = text@;
                let i = choose|i: int| 0 <= i < s.len() && !('\0' <= #[trigger] s[i] <= '\u{7f}');
                assert(!is_digit(s[i], 10));
                if s[0] == '+' {
                    assert(strip_plus(s)[i - 1] == s[i]);
                } else {
                    assert(strip_plus(s)[i] == s[i]);
                }
            }
            Err(ParseIntError::InvalidDigit)
        },
        Some(bytes) => {
            proof {
                assert(text@.skip(0) =~= text@);
            }
            parse_digits(bytes, 0, 10, Ghost(text@))
        },
    }
}

/// Tells whether a text starts with `+`.
pub fn starts_with_plus(text: &str) -> (r: bool)
    ensures
        r == (text@.len() > 0 && text@[0] == '+'),
{
    text.unicode_len() > 0 && text.get_char(0) == '+'
}

/// A text with a character that is not ASCII is no offset expression.
proof fn lemma_not_ascii_is_no_number(expr: Seq<char>)
    requires
        !is_ascii_chars(expr),
    ensures
        goto_expression(expr) == Err::<usize, ParseIntError>(ParseIntError::InvalidDigit),
{
    let i = choose|i: int| 0 <= i < expr.len() && !('\0' <= #[trigger] expr[i] <= '\u{7f}');
    let c = expr[i];
    assert(!is_digit(c, 10) && !is_digit(c, 16));
    let (text, radix) = if expr.last() == 't' {
        (expr.drop_last(), 10int)
    } else {
        (expr, 16int)
    };
    assert(i < text.len() && text[i] == c);
    let digits = strip_plus(text);
    if text[0] == '+' {
        assert(digits[i - 1] == c);
    } else {
        assert(digits[i] == c);
    }
}

/// The character that writes the digit `d` in hexadecimal.
pub open spec fn hex_digit(d: int, upper: bool) -> char {
    if d < 10 {
        ('0' as int + d) as char
    } else if upper {
        ('A' as int + d - 10) as char
    } else {
        ('a' as int + d - 10) as char
    }
}

/// `n` written in `radix`, which is from 2 to 16, with as many digits as it
/// takes and at least one.
pub open spec fn radix_text(n: nat, radix: nat, upper: bool) -> Seq<char>
    decreases n,
{
    if n < radix || radix < 2 {
        seq![hex_digit(n as int, upper)]
    } else {
        proof {
            assert(n / radix < n) by (nonlinear_arith)
                requires
                    n >= radix >= 2,
            ;
        }
        radix_text(n / radix, radix, upper).push(hex_digit((n % radix) as int, upper))
    }
}

/// `n` in hexadecimal.
pub open spec fn hex_text(n: nat, upper: bool) -> Seq<char> {
    radix_text(n, 16, upper)
}

/// `n` in decimal.
pub open spec fn decimal_text(n: nat) -> Seq<char> {
    radix_text(n, 10, false)
}

/// A byte as two hexadecimal digits in upper case.
pub open spec fn byte_hex(b: u8) -> Seq<char> {
    seq![hex_digit(b as int / 16, true), hex_digit(b as int % 16, true)]
}

/// `std::string::String::push`: appends one character to the text.
#[verifier::external_body]
pub(crate) fn push_char(s: &mut String, c: char)
    ensures
        final(s)@ == old(s)@.push(c),
{
    s.push(c)
}

/// The character that writes the digit `d` in hexadecimal.
pub fn hex_char(d: u8, upper: bool) -> (c: char)
    requires
        d < 16,
    ensures
        c == hex_digit(d as int, upper),
{
    if d < 10 {
        (0x30 + d) as char
    } else if upper {
        (0x41 + d - 10) as char
    } else {
        (0x61 + d - 10) as char
    }
}

/// Writes `n` in `radix`.
pub fn to_radix(n: usize, radix: u8, upper: bool) -> (s: String)
    requires
        2 <= radix <= 16,
    ensures
        s@ == radix_text(n as nat, radix as nat, upper),
{
    let base = radix as usize;
    let mut digits: Vec<u8> = Vec::new();
    let mut rest: usize = n;
    while rest >= base
        invariant
            base == radix,
            2 <= radix <= 16,
            forall|i: int| 0 <= i < digits.len() ==> digits[i] < 16,
            radix_text(n as nat, radix as nat, upper) == radix_text(
                rest as nat,
                radix as nat,
                upper,
            ) + Seq::new(
                digits.len() as nat,
                |i: int| hex_digit(digits[digits.len() - 1 - i] as int, upper),
            ),
        decreases rest,
    {
        let ghost old_digits = digits@;
        let ghost old_rest = rest;
        digits.push((rest % base) as u8);
        rest = rest / base;
        proof {
            let tail_old = Seq::new(
                old_digits.len() as nat,
                |i: int| hex_digit(old_digits[old_digits.len() - 1 - i] as int, upper),
            );
            let tail_new = Seq::new(
                digits.len() as nat,
                |i: int| hex_digit(digits[digits.len() - 1 - i] as int, upper),
            );
            let last = hex_digit((old_rest % base) as int, upper);
            assert(tail_new =~= seq![last] + tail_old);
            assert(radix_text(old_rest as nat, radix as nat, upper) =~= radix_text(
                rest as nat,
                radix as nat,
                upper,
            ) + seq![last]);
            assert(radix_text(rest as nat, radix as nat, upper) + tail_new =~= radix_text(
                old_rest as nat,
                radix as nat,
                upper,
            ) + tail_old);
        }
    }
    let mut s = String::new();
    push_char(&mut s, hex_char(rest as u8, upper));
    let mut k: usize = digits.len();
    while k > 0
        invariant
            k <= digits.len(),
            forall|i: int| 0 <= i < digits.len() ==> digits[i] < 16,
            s@ == radix_text(rest as nat, radix as nat, upper) + Seq::new(
                (digits.len() - k) as nat,
                |i: int| hex_digit(digits[digits.len() - 1 - i] as int, upper),
            ),
        decreases k,
    {
        k -= 1;
        push_char(&mut s, hex_char(digits[k], upper));
        proof {
            assert(s@ =~= radix_text(rest as nat, radix as nat, upper) + Seq::new(
                (digits.len() - k) as nat,
                |i: int| hex_digit(digits[digits.len() - 1 - i] as int, upper),
            ));
        }
    }
    s
}

/// Writes `n` in hexadecimal.
pub fn to_hex(n: usize, upper: bool) -> (s: String)
    ensures
        s@ == hex_text(n as nat, upper),
{
    to_radix(n, 16, upper)
}

/// Writes `n` in decimal.
pub fn to_decimal(n: usize) -> (s: String)
    ensures
        s@ == decimal_text(n as nat),
{
    to_radix(n, 10, false)
}

/// Writes a byte as two hexadecimal digits in upper case.
pub fn byte_to_hex(b: u8) -> (s: String)
    ensures
        s@ == byte_hex(b),
{
    let mut s = String::new();
    push_char(&mut s, hex_char(b / 16, true));
    push_char(&mut s, hex_char(b % 16, true));
    s
}

/// `count` zeros.
pub open spec fn zeros(count: nat) -> Seq<char> {
    Seq::new(count, |i: int| '0')
}

/// `n` in hexadecimal with capital letters, with zeros before it where it
/// has fewer than `width` digits.
pub open spec fn hex_padded(n: nat, width: nat) -> Seq<char> {
    let digits = hex_text(n, true);
    if digits.len() >= width {
        digits
    } else {
        zeros((width - digits.len()) as nat) + digits
    }
}

/// Writes `n` in hexadecimal with capital letters and at least `width`
/// digits.
pub fn to_hex_padded(n: usize, width: usize) -> (s: String)
    ensures
        s@ == hex_padded(n as nat, width as nat),
{
    let digits = to_hex(n, true);
    let len = digits.as_str().unicode_len();
    if len >= width {
        return digits;
    }
    let mut s = String::new();
    let mut i: usize = 0;
    while i < width - len
        invariant
            len < width,
            i <= width - len,
            s@ == zeros(i as nat),
        decreases width - len - i,
    {
        push_char(&mut s, '0');
        i += 1;
        proof {
            assert(s@ =~= zeros(i as nat));
        }
    }
    s.append(digits.as_str());
    s
}

/// A rectangle of the screen.
#[derive(Clone, Copy, Debug, PartialEq, Eq, Structural)]
pub struct Rect {
    pub x: u16,
    pub y: u16,
    pub width: u16,
    pub height: u16,
}

/// The place of a dialog of `width` by `height` in the middle of `area`,
/// one row up. The dialog has to be no wider than the area and lower than
/// it by two rows or more.
pub fn center_widget(width: u16, height: u16, area: Rect) -> (r: Rect)
    requires
        width / 2 <= area.width / 2,
        height / 2 < area.height / 2,
    ensures
        r == (Rect {
            x: (area.width / 2 - width / 2) as u16,
            y: (area.height / 2 - height / 2 - 1) as u16,
            width,
            height,
        }),
{
    Rect { x: area.width / 2 - width / 2, y: area.height / 2 - height / 2 - 1, width, height }
}

/// Tells whether a dialog of `width` by `height` can be put in the middle
/// of `area`, and where.
pub fn try_center_widget(width: u16, height: u16, area: Rect) -> (r: Option<Rect>)
    ensures
        r is Some <==> width / 2 <= area.width / 2 && height / 2 < area.height / 2,
        r matches Some(place) ==> place == (Rect {
            x: (area.width / 2 - width / 2) as u16,
            y: (area.height / 2 - height / 2 - 1) as u16,
            width,
            height,
        }),
{
    if width / 2 <= area.width / 2 && height / 2 < area.height / 2 {
        Some(center_widget(width, height, area))
    } else {
        None
    }
}

} // verus!
