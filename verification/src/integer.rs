//! Integers of any size as decimal literals, and the machine integers among them.

use vstd::prelude::*;
use vstd::string::*;
use vstd::utf8::*;

verus! {

/// True for the ten decimal digits.
pub open spec fn is_digit(c: char) -> bool {
    '0' <= c && c <= '9'
}

/// The number that a digit stands for.
pub open spec fn digit_value(c: char) -> int {
    (c as u32) as int - 48
}

/// The digit that stands for a number below ten.
pub open spec fn digit_char(d: int) -> char {
    if d == 0 {
        '0'
    } else if d == 1 {
        '1'
    } else if d == 2 {
        '2'
    } else if d == 3 {
        '3'
    } else if d == 4 {
        '4'
    } else if d == 5 {
        '5'
    } else if d == 6 {
        '6'
    } else if d == 7 {
        '7'
    } else if d == 8 {
        '8'
    } else {
        '9'
    }
}

/// True for a text of one or more digits.
pub open spec fn all_digits(s: Seq<char>) -> bool {
    s.len() > 0 && forall|i: int| 0 <= i < s.len() ==> is_digit(#[trigger] s[i])
}

/// The number that a text of digits writes, most significant digit first.
pub open spec fn digits_value(s: Seq<char>) -> int
    decreases s.len(),
{
    if s.len() == 0 {
        0
    } else {
        digits_value(s.drop_last()) * 10 + digit_value(s.last())
    }
}

/// The part of an integer literal behind its sign.
pub open spec fn magnitude_text(s: Seq<char>) -> Seq<char> {
    if s.len() > 0 && s[0] == '-' {
        s.drop_first()
    } else {
        s
    }
}

/// True for the integer literals of JSON: an optional minus sign, then either
/// a single zero or digits that do not start with a zero.
pub open spec fn is_integer_literal(s: Seq<char>) -> bool {
    let digits = magnitude_text(s);
    all_digits(digits) && (digits.len() == 1 || digits[0] != '0')
}

/// The integer that a literal writes.
pub open spec fn literal_value(s: Seq<char>) -> int {
    if s.len() > 0 && s[0] == '-' {
        -digits_value(s.drop_first())
    } else {
        digits_value(s)
    }
}

/// The digits of a natural number, most significant first, without leading zeros.
pub open spec fn decimal_digits(n: nat) -> Seq<char>
    decreases n,
{
    if n < 10 {
        seq![digit_char(n as int)]
    } else {
        decimal_digits(n / 10).push(digit_char((n % 10) as int))
    }
}

/// The literal of an integer: its digits, behind a minus sign if it is negative.
pub open spec fn integer_literal(n: int) -> Seq<char> {
    if n < 0 {
        seq!['-'] + decimal_digits((-n) as nat)
    } else {
        decimal_digits(n as nat)
    }
}

/// A digit and its number determine each other.
pub proof fn lemma_digit_codes(d: int)
    requires
        0 <= d < 10,
    ensures
        is_digit(digit_char(d)),
        digit_value(digit_char(d)) == d,
        digit_char(d) as u32 == 48 + d,
{
}

/// A text of digits writes a number that is not negative and not smaller than
/// the number that any of its beginnings writes.
pub proof fn lemma_digits_grow(s: Seq<char>, k: int)
    requires
        all_digits(s) || s.len() == 0,
        0 <= k <= s.len(),
    ensures
        0 <= digits_value(s.subrange(0, k)) <= digits_value(s),
    decreases s.len(),
{
    if s.len() == 0 {
        assert(s.subrange(0, k) =~= s);
    } else if k == s.len() {
        assert(s.subrange(0, k) =~= s);
        assert(is_digit(s.last()));
        lemma_digits_grow(s.drop_last(), k - 1);
        assert(s.drop_last().subrange(0, k - 1) =~= s.drop_last());
    } else {
        assert(is_digit(s.last()));
        assert(s.drop_last().subrange(0, k) =~= s.subrange(0, k));
        lemma_digits_grow(s.drop_last(), k);
    }
}

/// The digits of a number are a literal without sign that writes the number.
pub proof fn lemma_decimal_digits(n: nat)
    ensures
        all_digits(decimal_digits(n)),
        decimal_digits(n).len() == 1 || decimal_digits(n)[0] != '0',
        decimal_digits(n)[0] != '-',
        digits_value(decimal_digits(n)) == n,
    decreases n,
{
    if n < 10 {
        lemma_digit_codes(n as int);
        let s = decimal_digits(n);
        assert(s.drop_last() =~= Seq::<char>::empty());
        assert(digits_value(s.drop_last()) == 0);
    } else {
        lemma_decimal_digits(n / 10);
        lemma_digit_codes((n % 10) as int);
        let front = decimal_digits(n / 10);
        let s = decimal_digits(n);
        assert(s.drop_last() =~= front);
        assert(s[0] == front[0]);
        if n / 10 < 10 {
            lemma_digit_codes((n / 10) as int);
            assert(front[0] == digit_char((n / 10) as int));
        } else {
            assert(decimal_digits((n / 10) / 10).len() > 0);
            assert(front.len() > 1);
        }
    }
}

/// The literal of an integer is an integer literal that writes that integer.
pub proof fn lemma_integer_literal(n: int)
    ensures
        is_integer_literal(integer_literal(n)),
        literal_value(integer_literal(n)) == n,
{
    if n < 0 {
        lemma_decimal_digits((-n) as nat);
        let digits = decimal_digits((-n) as nat);
        let s = integer_literal(n);
        assert(s[0] == '-');
        assert(s.drop_first() =~= digits);
    } else {
        lemma_decimal_digits(n as nat);
    }
}

/// Writing a machine integer and reading the literal gives the integer back.
pub proof fn lemma_machine_round_trip(n: int)
    ensures
        0 <= n <= u64::MAX ==> literal_u64(integer_literal(n)) == Some(n as u64),
        i64::MIN <= n <= i64::MAX ==> literal_i64(integer_literal(n)) == Some(n as i64),
{
    lemma_integer_literal(n);
}

/// An integer literal holds ASCII characters only.
pub proof fn lemma_literal_is_ascii(s: Seq<char>)
    requires
        is_integer_literal(s),
    ensures
        is_ascii_chars(s),
{
    let digits = magnitude_text(s);
    assert forall|i: int| 0 <= i < s.len() implies '\0' <= #[trigger] s[i] <= '\u{7f}' by {
        if s.len() > 0 && s[0] == '-' {
            if i > 0 {
                assert(s[i] == digits[i - 1]);
                assert(is_digit(digits[i - 1]));
            }
        } else {
            assert(s[i] == digits[i]);
            assert(is_digit(digits[i]));
        }
    }
}

/// The bytes of an ASCII text are the codes of its characters, one each.
pub open spec fn ascii_bytes(text: Seq<char>, bytes: Seq<u8>) -> bool {
    &&& is_ascii_chars(text)
    &&& bytes.len() == text.len()
    &&& forall|i: int| 0 <= i < text.len() ==> #[trigger] bytes[i] == text[i] as u8
}

/// Tells whether the bytes from `start` on are one or more digits.
fn digits_from(bytes: &[u8], start: usize, Ghost(text): Ghost<Seq<char>>) -> (ok: bool)
    requires
        ascii_bytes(text, bytes@),
        start <= bytes.len(),
    ensures
        ok == all_digits(text.subrange(start as int, text.len() as int)),
{
    let ghost rest = text.subrange(start as int, text.len() as int);
    let n = bytes.len();
    if start == n {
        return false;
    }
    let mut i: usize = start;
    while i < n
        invariant
            start <= i <= n,
            n == bytes.len(),
            ascii_bytes(text, bytes@),
            rest == text.subrange(start as int, text.len() as int),
            forall|k: int| 0 <= k < i - start ==> is_digit(#[trigger] rest[k]),
        decreases n - i,
    {
        let b = bytes[i];
        assert(b == text[i as int] as u8);
        assert(rest[i - start] == text[i as int]);
        if b < 48 || b > 57 {
            assert(!is_digit(rest[i - start]));
            return false;
        }
        i += 1;
    }
    true
}

/// Tells whether a text is an integer literal.
pub fn is_literal(text: &str) -> (ok: bool)
    ensures
        ok == is_integer_literal(text@),
{
    if !text.is_ascii() {
        proof {
            if is_integer_literal(text@) {
                lemma_literal_is_ascii(text@);
            }
        }
        return false;
    }
    let bytes = text.as_bytes();
    proof {
        is_ascii_spec_bytes(text);
    }
    let n = bytes.len();
    let start: usize = if n > 0 && bytes[0] == 45 {
        1
    } else {
        0
    };
    proof {
        if n > 0 {
            assert(bytes@[0] == text@[0] as u8);
        }
        assert(magnitude_text(text@) =~= text@.subrange(start as int, n as int));
    }
    if !digits_from(bytes, start, Ghost(text@)) {
        return false;
    }
    if n - start > 1 && bytes[start] == 48 {
        assert(bytes@[start as int] == text@[start as int] as u8);
        assert(magnitude_text(text@)[0] == text@[start as int]);
        return false;
    }
    proof {
        assert(bytes@[start as int] == text@[start as int] as u8);
        assert(magnitude_text(text@)[0] == text@[start as int]);
    }
    true
}

/// The number that the digits from `start` on write, or `None` where it does
/// not fit 64 bits.
fn magnitude_from(bytes: &[u8], start: usize, Ghost(text): Ghost<Seq<char>>) -> (found: Option<u64>)
    requires
        ascii_bytes(text, bytes@),
        start <= bytes.len(),
        all_digits(text.subrange(start as int, text.len() as int)),
    ensures
        found matches Some(v) ==> v == digits_value(text.subrange(start as int, text.len() as int)),
        found is None ==> digits_value(text.subrange(start as int, text.len() as int)) > u64::MAX,
{
    let ghost rest = text.subrange(start as int, text.len() as int);
    let n = bytes.len();
    let mut acc: u64 = 0;
    let mut i: usize = start;
    proof {
        assert(rest.subrange(0, 0) =~= Seq::<char>::empty());
    }
    while i < n
        invariant
            start <= i <= n,
            n == bytes.len(),
            ascii_bytes(text, bytes@),
            rest == text.subrange(start as int, text.len() as int),
            all_digits(rest),
            acc == digits_value(rest.subrange(0, i - start)),
        decreases n - i,
    {
        let b = bytes[i];
        proof {
            assert(b == text[i as int] as u8);
            assert(rest[i - start] == text[i as int]);
            assert(is_digit(rest[i - start]));
            let next = rest.subrange(0, i - start + 1);
            assert(next.drop_last() =~= rest.subrange(0, i - start));
            assert(next.last() == rest[i - start]);
            assert(digits_value(next) == acc * 10 + digit_value(rest[i - start]));
            lemma_digits_grow(rest, i - start + 1);
        }
        let d: u64 = (b - 48) as u64;
        if acc > (u64::MAX - d) / 10 {
            return None;
        }
        acc = acc * 10 + d;
        i += 1;
    }
    proof {
        assert(rest.subrange(0, n - start) =~= rest);
    }
    Some(acc)
}

/// The value of an integer literal as an unsigned integer of 64 bits.
pub open spec fn literal_u64(text: Seq<char>) -> Option<u64> {
    if is_integer_literal(text) && 0 <= literal_value(text) <= u64::MAX {
        Some(literal_value(text) as u64)
    } else {
        None
    }
}

/// The value of an integer literal as a signed integer of 64 bits.
pub open spec fn literal_i64(text: Seq<char>) -> Option<i64> {
    if is_integer_literal(text) && i64::MIN <= literal_value(text) <= i64::MAX {
        Some(literal_value(text) as i64)
    } else {
        None
    }
}

/// Reads an unsigned integer of 64 bits from its literal.
pub fn parse_u64(text: &str) -> (found: Option<u64>)
    ensures
        found == literal_u64(text@),
{
    if !is_literal(text) {
        return None;
    }
    proof {
        lemma_literal_is_ascii(text@);
        is_ascii_spec_bytes(text);
    }
    let bytes = text.as_bytes();
    let negative = bytes[0] == 45;
    let start: usize = if negative {
        1
    } else {
        0
    };
    proof {
        assert(bytes@[0] == text@[0] as u8);
        assert(magnitude_text(text@) =~= text@.subrange(start as int, text@.len() as int));
    }
    match magnitude_from(bytes, start, Ghost(text@)) {
        Some(v) => if negative && v != 0 {
            None
        } else {
            Some(v)
        },
        None => None,
    }
}

/// Reads a signed integer of 64 bits from its literal.
pub fn parse_i64(text: &str) -> (found: Option<i64>)
    ensures
        found == literal_i64(text@),
{
    if !is_literal(text) {
        return None;
    }
    proof {
        lemma_literal_is_ascii(text@);
        is_ascii_spec_bytes(text);
    }
    let bytes = text.as_bytes();
    let negative = bytes[0] == 45;
    let start: usize = if negative {
        1
    } else {
        0
    };
    proof {
        assert(bytes@[0] == text@[0] as u8);
        assert(magnitude_text(text@) =~= text@.subrange(start as int, text@.len() as int));
    }
    match magnitude_from(bytes, start, Ghost(text@)) {
        Some(v) => if negative {
            if v <= 0x7fff_ffff_ffff_ffff {
                Some(-(v as i64))
            } else if v == 0x8000_0000_0000_0000 {
                Some(i64::MIN)
            } else {
                None
            }
        } else if v <= 0x7fff_ffff_ffff_ffff {
            Some(v as i64)
        } else {
            None
        },
        None => None,
    }
}

/// The text of one digit.
fn digit_text(d: u64) -> (text: &'static str)
    requires
        d < 10,
    ensures
        text@ == seq![digit_char(d as int)],
{
    proof {
        reveal_strlit("0");
        reveal_strlit("1");
        reveal_strlit("2");
        reveal_strlit("3");
        reveal_strlit("4");
        reveal_strlit("5");
        reveal_strlit("6");
        reveal_strlit("7");
        reveal_strlit("8");
        reveal_strlit("9");
    }
    let text = if d == 0 {
        "0"
    } else if d == 1 {
        "1"
    } else if d == 2 {
        "2"
    } else if d == 3 {
        "3"
    } else if d == 4 {
        "4"
    } else if d == 5 {
        "5"
    } else if d == 6 {
        "6"
    } else if d == 7 {
        "7"
    } else if d == 8 {
        "8"
    } else {
        "9"
    };
    assert(text@ =~= seq![digit_char(d as int)]);
    text
}

/// Writes an unsigned integer as its literal.
pub fn format_u64(n: u64) -> (text: String)
    ensures
        text@ == integer_literal(n as int),
    decreases n,
{
    if n < 10 {
        digit_text(n).to_owned()
    } else {
        let mut text = format_u64(n / 10);
        text.append(digit_text(n % 10));
        text
    }
}

/// Writes a signed integer as its literal.
pub fn format_i64(n: i64) -> (text: String)
    ensures
        text@ == integer_literal(n as int),
{
    if n >= 0 {
        format_u64(n as u64)
    } else {
        let magnitude: u64 = ((-(n + 1)) as u64) + 1;
        proof {
            reveal_strlit("-");
        }
        let mut text = "-".to_owned();
        let digits = format_u64(magnitude);
        text.append(digits.as_str());
        text
    }
}

/// An integer of any size, kept as its literal.
#[derive(Debug)]
pub struct Integer {
    literal: String,
}

impl View for Integer {
    type V = Seq<char>;

    closed spec fn view(&self) -> Seq<char> {
        self.literal@
    }
}

impl DeepView for Integer {
    type V = Seq<char>;

    open spec fn deep_view(&self) -> Seq<char> {
        self@
    }
}

impl Integer {
    #[verifier::type_invariant]
    spec fn well_formed(self) -> bool {
        is_integer_literal(self.literal@)
    }

    /// Reads an integer from its literal.
    pub fn parse(text: &str) -> (found: Option<Integer>)
        ensures
            found is Some <==> is_integer_literal(text@),
            found matches Some(integer) ==> integer@ == text@,
    {
        if is_literal(text) {
            Some(Integer { literal: text.to_owned() })
        } else {
            None
        }
    }

    /// The integer with the value of an unsigned machine integer.
    pub fn from_u64(n: u64) -> (integer: Integer)
        ensures
            integer@ == integer_literal(n as int),
    {
        proof {
            lemma_integer_literal(n as int);
        }
        Integer { literal: format_u64(n) }
    }

    /// The integer with the value of a signed machine integer.
    pub fn from_i64(n: i64) -> (integer: Integer)
        ensures
            integer@ == integer_literal(n as int),
    {
        proof {
            lemma_integer_literal(n as int);
        }
        Integer { literal: format_i64(n) }
    }

    /// The literal.
    pub fn as_str(&self) -> (text: &str)
        ensures
            text@ == self@,
            is_integer_literal(self@),
    {
        proof {
            use_type_invariant(self);
        }
        self.literal.as_str()
    }

    /// The value, where it fits an unsigned integer of 64 bits.
    pub fn to_u64(&self) -> (value: Option<u64>)
        ensures
            value == literal_u64(self@),
    {
        parse_u64(self.literal.as_str())
    }

    /// The value, where it fits a signed integer of 64 bits.
    pub fn to_i64(&self) -> (value: Option<i64>)
        ensures
            value == literal_i64(self@),
    {
        parse_i64(self.literal.as_str())
    }
}

impl Clone for Integer {
    fn clone(&self) -> (same: Integer)
        ensures
            same@ == self@,
    {
        proof {
            use_type_invariant(self);
        }
        Integer { literal: self.literal.clone() }
    }
}

} // verus!
