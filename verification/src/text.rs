//! Text helpers: comparison, prefixes, search and decimal numbers.

use vstd::prelude::*;

verus! {

/// A text that may be absent, by its characters.
pub open spec fn optional_text(text: Option<&str>) -> Option<Seq<char>> {
    match text {
        Some(text) => Some(text@),
        None => None,
    }
}

/// Whether two texts hold the same characters.
pub fn same_text(a: &str, b: &str) -> (same: bool)
    ensures
        same == (a@ == b@),
{
    proof {
        vstd::utf8::encode_utf8_decode_utf8(a@);
        vstd::utf8::encode_utf8_decode_utf8(b@);
    }
    let left: &[u8] = a.as_bytes();
    let right: &[u8] = b.as_bytes();
    if left.len() != right.len() {
        return false;
    }
    let mut i: usize = 0;
    while i < left.len()
        invariant
            left@.len() == right@.len(),
            i <= left@.len(),
            left@.take(i as int) == right@.take(i as int),
            left@ == vstd::utf8::encode_utf8(a@),
            right@ == vstd::utf8::encode_utf8(b@),
        decreases left@.len() - i,
    {
        if left[i] != right[i] {
            return false;
        }
        assert(left@.take(i + 1) =~= left@.take(i as int).push(left@[i as int]));
        assert(right@.take(i + 1) =~= right@.take(i as int).push(right@[i as int]));
        i += 1;
    }
    assert(left@.take(i as int) =~= left@);
    assert(right@.take(i as int) =~= right@);
    true
}

/// What follows `prefix` in `text`, if `text` starts with it.
pub fn strip_prefix<'a>(text: &'a str, prefix: &str) -> (rest: Option<&'a str>)
    ensures
        match rest {
            Some(rest) => text@ == prefix@ + rest@,
            None => !prefix@.is_prefix_of(text@),
        },
{
    let count: usize = prefix.unicode_len();
    let total: usize = text.unicode_len();
    if total < count {
        return None;
    }
    let mut i: usize = 0;
    while i < count
        invariant
            count == prefix@.len(),
            total == text@.len(),
            i <= count <= total,
            forall|j: int| 0 <= j < i ==> text@[j] == prefix@[j],
        decreases count - i,
    {
        if text.get_char(i) != prefix.get_char(i) {
            assert(text@.subrange(0, count as int)[i as int] != prefix@[i as int]);
            return None;
        }
        i += 1;
    }
    let rest: &'a str = text.substring_char(count, total);
    assert(text@ =~= prefix@ + rest@);
    Some(rest)
}

/// `needle` stands in `text`, starting at the character with this index.
pub open spec fn occurs_at(text: Seq<char>, needle: Seq<char>, at: int) -> bool {
    0 <= at && at + needle.len() <= text.len() && text.subrange(at, at + needle.len()) == needle
}

/// `needle` stands somewhere in `text`.
pub open spec fn occurs(text: Seq<char>, needle: Seq<char>) -> bool {
    exists|at: int| occurs_at(text, needle, at)
}

/// The characters of a text.
fn characters(text: &str) -> (chars: Vec<char>)
    ensures
        chars@ == text@,
{
    let mut chars: Vec<char> = Vec::new();
    for c in it: text.chars()
        invariant
            chars@ =~= it.seq().take(it.index()),
            it.seq() == text@,
    {
        chars.push(c);
    }
    chars
}

/// Whether `needle` stands somewhere in `text`.
pub fn contains(text: &str, needle: &str) -> (found: bool)
    ensures
        found == occurs(text@, needle@),
{
    let hay: Vec<char> = characters(text);
    let pin: Vec<char> = characters(needle);
    let mut at: usize = 0;
    while pin.len() <= hay.len() - at
        invariant
            hay@ == text@,
            pin@ == needle@,
            at <= hay@.len(),
            forall|k: int| 0 <= k < at ==> !occurs_at(text@, needle@, k),
        decreases hay@.len() - at,
    {
        let mut j: usize = 0;
        while j < pin.len() && hay[at + j] == pin[j]
            invariant
                hay@ == text@,
                pin@ == needle@,
                at + pin@.len() <= hay.len(),
                j <= pin@.len(),
                forall|k: int| 0 <= k < j ==> hay@[at + k] == pin@[k],
            decreases pin@.len() - j,
        {
            j += 1;
        }
        if j == pin.len() {
            assert(text@.subrange(at as int, at + needle@.len()) =~= needle@);
            assert(occurs_at(text@, needle@, at as int));
            return true;
        }
        assert(!occurs_at(text@, needle@, at as int)) by {
            assert(text@.subrange(at as int, at + needle@.len())[j as int] == hay@[at + j]);
        }
        at += 1;
    }
    assert(forall|k: int| at <= k ==> !occurs_at(text@, needle@, k));
    false
}

/// A decimal digit.
pub open spec fn is_digit(c: char) -> bool {
    '0' as int <= c as int <= '9' as int
}

/// The number that a row of decimal digits stands for.
pub open spec fn digits_value(digits: Seq<char>) -> nat
    decreases digits.len(),
{
    if digits.len() == 0 {
        0
    } else {
        (digits_value(digits.drop_last()) * 10 + (digits.last() as int - '0' as int)) as nat
    }
}

/// The digits of an unsigned number, without the `+` that may stand before them.
pub open spec fn unsigned_digits(text: Seq<char>) -> Seq<char> {
    if text.len() > 0 && text[0] == '+' {
        text.skip(1)
    } else {
        text
    }
}

/// The 16-bit number that a text stands for: an optional `+`, then digits and nothing else.
pub open spec fn u16_value(text: Seq<char>) -> Option<u16> {
    let digits = unsigned_digits(text);
    if digits.len() > 0 && (forall|i: int| 0 <= i < digits.len() ==> is_digit(#[trigger] digits[i]))
        && digits_value(digits) <= u16::MAX {
        Some(digits_value(digits) as u16)
    } else {
        None
    }
}

/// Calls `str::parse::<u16>`, which accepts an optional `+` sign followed by decimal digits only
/// and fails when there is no digit, when any other character stands in the text, or when the
/// number is above 65535.
#[verifier::external_body]
pub(crate) fn parse_u16(text: &str) -> (value: Option<u16>)
    ensures
        value == u16_value(text@),
{
    text.parse::<u16>().ok()
}

/// The shortest row of decimal digits that stands for a number.
pub open spec fn decimal(n: nat) -> Seq<char>
    decreases n,
{
    if n < 10 {
        seq![(n + '0' as int) as char]
    } else {
        decimal(n / 10).push((n % 10 + '0' as int) as char)
    }
}

/// A decimal digit as a text.
fn digit_text(d: u16) -> (text: &'static str)
    requires
        d < 10,
    ensures
        text@ == seq![(d + '0' as int) as char],
{
    proof {
        reveal_strlit("0");
        reveal_strlit("1");
        reveal_strlit("2");
        reveal_strlit("3");
        reveal_strlit("4");
        reveal_strlit("5");
        reveal_strlit("6");
        reveal_strlit("7");
        reveal_strlit("8");
        reveal_strlit("9");
    }
    match d {
        0 => "0",
        1 => "1",
        2 => "2",
        3 => "3",
        4 => "4",
        5 => "5",
        6 => "6",
        7 => "7",
        8 => "8",
        _ => "9",
    }
}

/// Writes a number in decimal.
pub fn decimal_text(n: u16) -> (text: String)
    ensures
        text@ == decimal(n as nat),
    decreases n,
{
    let mut text: String = if n < 10 {
        String::new()
    } else {
        decimal_text(n / 10)
    };
    text.append(digit_text(n % 10));
    text
}

/// Decimal writing has at least one character, holds digits alone and stands for its number.
proof fn lemma_decimal(n: nat)
    ensures
        decimal(n).len() > 0,
        forall|i: int| 0 <= i < decimal(n).len() ==> is_digit(#[trigger] decimal(n)[i]),
        digits_value(decimal(n)) == n,
    decreases n,
{
    if n < 10 {
        assert(decimal(n).drop_last() =~= Seq::<char>::empty());
        assert(digits_value(Seq::<char>::empty()) == 0);
    } else {
        lemma_decimal(n / 10);
        assert(decimal(n).drop_last() =~= decimal(n / 10));
    }
}

/// Reading back what was written in decimal gives the number again.
pub proof fn decimal_reads_back(n: u16)
    ensures
        u16_value(decimal(n as nat)) == Some(n),
{
    lemma_decimal(n as nat);
    assert(is_digit(decimal(n as nat)[0]));
    assert(unsigned_digits(decimal(n as nat)) == decimal(n as nat));
}

/// A text that is there is seen with all its characters, and an absent one as absent.
pub proof fn optional_text_shows_the_text(text: &str)
    ensures
        optional_text(Some(text)) == Some(text@),
        optional_text(None::<&str>) is None,
{
}

/// A text holds another exactly where it can be cut into what stands before it, the other, and what
/// stands after it.
pub proof fn occurring_is_standing_between(text: Seq<char>, needle: Seq<char>)
    ensures
        occurs(text, needle) <==> exists|before: Seq<char>, after: Seq<char>|
            text == #[trigger] (before + needle + after),
{
    if occurs(text, needle) {
        let at = choose|at: int| occurs_at(text, needle, at);
        let before = text.take(at);
        let after = text.skip(at + needle.len());
        assert(text =~= before + needle + after);
    }
    if exists|before: Seq<char>, after: Seq<char>| text == #[trigger] (before + needle + after) {
        let (before, after) = choose|before: Seq<char>, after: Seq<char>|
            text == #[trigger] (before + needle + after);
        let at = before.len() as int;
        assert(text.subrange(at, at + needle.len()) =~= needle);
        assert(occurs_at(text, needle, at));
    }
}

/// A number is written in decimal digits alone, without a needless zero in front, and the digits
/// stand for the number.
pub proof fn decimal_is_shortest(n: nat)
    ensures
        digits_value(decimal(n)) == n,
        forall|i: int| 0 <= i < decimal(n).len() ==> '0' <= #[trigger] decimal(n)[i] <= '9',
        decimal(n).len() > 0,
        decimal(n).len() > 1 ==> decimal(n)[0] != '0',
    decreases n,
{
    lemma_decimal(n);
    assert forall|i: int| 0 <= i < decimal(n).len() implies '0' <= #[trigger] decimal(n)[i]
        <= '9' by {
        assert(is_digit(decimal(n)[i]));
    }
    if n >= 10 {
        decimal_is_shortest(n / 10);
        assert(decimal(n)[0] == decimal(n / 10)[0]);
        if n / 10 < 10 {
            assert(decimal(n / 10)[0] as int == n / 10 + '0' as int);
        } else {
            assert(decimal(n / 10) == decimal(n / 10 / 10).push(
                (n / 10 % 10 + '0' as int) as char,
            ));
            lemma_decimal(n / 10 / 10);
        }
    }
}

/// One digit more makes a number ten times as large, and adds the digit.
pub proof fn digit_counts_ten_times_the_rest(digits: Seq<char>, digit: char)
    requires
        '0' <= digit <= '9',
    ensures
        digits_value(Seq::empty()) == 0,
        digits_value(digits.push(digit)) == 10 * digits_value(digits) + (digit as int - '0' as int),
{
    assert(digits.push(digit).drop_last() =~= digits);
}

/// A text is a 16-bit number exactly where it holds decimal digits, at least one, after a `+` that
/// may be absent, and the digits stand for no more than 65535.
pub proof fn number_is_read_from_its_digits(digits: Seq<char>)
    requires
        digits.len() > 0,
        digits[0] != '+',
    ensures
        ({
            let all_digits = forall|i: int|
                0 <= i < digits.len() ==> '0' <= #[trigger] digits[i] <= '9';
            let value = u16_value(digits);
            &&& u16_value("+"@ + digits) == value
            &&& value is Some <==> all_digits && digits_value(digits) <= 65535
            &&& value matches Some(n) ==> n == digits_value(digits)
        }),
        u16_value(Seq::empty()) is None,
        u16_value("+"@) is None,
{
    reveal_strlit("+");
    assert(("+"@ + digits).skip(1) =~= digits);
    assert(("+"@ + digits)[0] == '+');
    assert("+"@.skip(1) =~= Seq::<char>::empty());
    assert(unsigned_digits(digits) == digits);
    assert(unsigned_digits("+"@ + digits) == digits);
    assert forall|i: int| 0 <= i < digits.len() implies is_digit(#[trigger] digits[i]) == ('0'
        <= digits[i] <= '9') by {}
    if forall|i: int| 0 <= i < digits.len() ==> '0' <= #[trigger] digits[i] <= '9' {
        assert forall|i: int| 0 <= i < digits.len() implies is_digit(#[trigger] digits[i]) by {
            assert('0' <= digits[i] <= '9');
        }
    }
}

} // verus!
