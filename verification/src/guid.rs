//! The ids of plans, subgroups and settings: 128-bit numbers, written as
//! hexadecimal digits in groups set apart by hyphens.

use crate::power_scheme::PowerPlan;
use crate::scan::contains;
use crate::scan::find_in_span;
use crate::scan::Span;
use crate::text::to_chars;
use vstd::prelude::*;
use vstd::string::StrSliceExecFns;
use vstd::string::StringExecFns;

verus! {

/// The number that a hexadecimal digit stands for.
pub open spec fn hex_digit(c: char) -> Option<int> {
    if '0' <= c && c <= '9' {
        Some(c as int - '0' as int)
    } else if 'a' <= c && c <= 'f' {
        Some(c as int - 'a' as int + 10)
    } else if 'A' <= c && c <= 'F' {
        Some(c as int - 'A' as int + 10)
    } else {
        None
    }
}

/// Every character is a hexadecimal digit.
pub open spec fn all_hex(digits: Seq<char>) -> bool {
    forall|i: int| 0 <= i < digits.len() ==> hex_digit(#[trigger] digits[i]) is Some
}

/// The number that a run of hexadecimal digits stands for.
pub open spec fn hex_number(digits: Seq<char>) -> int
    decreases digits.len(),
{
    if digits.len() == 0 {
        0
    } else {
        hex_number(digits.drop_last()) * 16 + match hex_digit(digits.last()) {
            Some(d) => d,
            None => 0,
        }
    }
}

/// The text without its hyphens.
pub open spec fn without_hyphens(text: Seq<char>) -> Seq<char> {
    text.filter(|c: char| c != '-')
}

/// The digits of a number that may be written with a plus sign in front.
pub open spec fn unsigned_digits(text: Seq<char>) -> Seq<char> {
    if text.len() > 0 && text[0] == '+' {
        text.drop_first()
    } else {
        text
    }
}

/// The id that a text stands for: its hexadecimal digits, read without the
/// hyphens between them, where they are digits only, at least one, and the
/// number fits into 128 bits.
pub open spec fn guid_of_text(text: Seq<char>) -> Option<u128> {
    let digits = unsigned_digits(without_hyphens(text));
    if digits.len() > 0 && all_hex(digits) && hex_number(digits) <= u128::MAX {
        Some(hex_number(digits) as u128)
    } else {
        None
    }
}

/// A run of digits stands for no smaller a number than any of its starts.
pub proof fn lemma_hex_number_grows(digits: Seq<char>, k: int)
    requires
        0 <= k <= digits.len(),
    ensures
        0 <= hex_number(digits.take(k)) <= hex_number(digits),
    decreases digits.len() - k,
{
    lemma_hex_number_nonnegative(digits.take(k));
    if k < digits.len() {
        lemma_hex_number_grows(digits, k + 1);
        assert(digits.take(k + 1).drop_last() =~= digits.take(k));
    } else {
        assert(digits.take(k) =~= digits);
    }
}

/// A run of digits stands for a number that is not negative.
pub proof fn lemma_hex_number_nonnegative(digits: Seq<char>)
    ensures
        0 <= hex_number(digits),
    decreases digits.len(),
{
    if digits.len() > 0 {
        lemma_hex_number_nonnegative(digits.drop_last());
    }
}

/// The number that a hexadecimal digit stands for.
pub fn hex_digit_value(c: char) -> (r: Option<u8>)
    ensures
        match r {
            Some(d) => hex_digit(c) == Some(d as int) && d < 16,
            None => hex_digit(c) is None,
        },
{
    if '0' <= c && c <= '9' {
        Some((c as u8) - 48)
    } else if 'a' <= c && c <= 'f' {
        Some((c as u8) - 97 + 10)
    } else if 'A' <= c && c <= 'F' {
        Some((c as u8) - 65 + 10)
    } else {
        None
    }
}

/// Reads an id from its text.
pub fn parse_guid(text: &str) -> (r: Option<u128>)
    ensures
        r == guid_of_text(text@),
{
    let chars = to_chars(text);
    let ghost no_hyphen = |c: char| c != '-';
    let mut bare: Vec<char> = Vec::new();
    let mut i: usize = 0;
    while i < chars.len()
        invariant
            i <= chars@.len(),
            no_hyphen == |c: char| c != '-',
            bare@ == chars@.take(i as int).filter(no_hyphen),
        decreases chars@.len() - i,
    {
        proof {
            assert(chars@.take(i + 1) =~= chars@.take(i as int).push(chars@[i as int]));
            chars@.take(i as int).lemma_filter_push(chars@[i as int], no_hyphen);
        }
        if chars[i] != '-' {
            bare.push(chars[i]);
        }
        i += 1;
    }
    assert(chars@.take(i as int) =~= chars@);
    let start: usize = if bare.len() > 0 && bare[0] == '+' {
        1
    } else {
        0
    };
    let ghost digits = unsigned_digits(bare@);
    if bare.len() == start {
        return None;
    }
    let mut value: u128 = 0;
    let mut k: usize = start;
    while k < bare.len()
        invariant
            start <= k <= bare@.len(),
            digits == bare@.subrange(start as int, bare@.len() as int),
            digits == unsigned_digits(without_hyphens(text@)),
            digits.len() > 0,
            all_hex(digits.take(k - start)),
            value == hex_number(digits.take(k - start)),
        decreases bare@.len() - k,
    {
        proof {
            assert(digits.take(k - start + 1).drop_last() =~= digits.take(k - start));
            lemma_hex_number_grows(digits, k - start + 1);
        }
        match hex_digit_value(bare[k]) {
            None => {
                return None;
            },
            Some(d) => {
                if value > (u128::MAX - d as u128) / 16 {
                    return None;
                }
                value = value * 16 + d as u128;
            },
        }
        k += 1;
    }
    assert(digits.take(k - start) =~= digits);
    Some(value)
}

/// The capital hexadecimal digit for a number below sixteen.
pub open spec fn upper_hex_digit(n: int) -> char {
    if n < 10 {
        ('0' as u8 + n) as char
    } else {
        ('A' as u8 + n - 10) as char
    }
}

/// The last `width` hexadecimal digits of a number, in capitals.
pub open spec fn upper_hex(value: nat, width: nat) -> Seq<char>
    decreases width,
{
    if width == 0 {
        Seq::empty()
    } else {
        upper_hex(value / 16, (width - 1) as nat).push(upper_hex_digit((value % 16) as int))
    }
}

/// The text of an id: its 32 hexadecimal digits in capitals, in groups of
/// 8, 4, 4, 4 and 12 with hyphens between them.
pub open spec fn guid_text(value: u128) -> Seq<char> {
    let hex = upper_hex(value as nat, 32);
    hex.subrange(0, 8) + seq!['-'] + hex.subrange(8, 12) + seq!['-'] + hex.subrange(12, 16)
        + seq!['-'] + hex.subrange(16, 20) + seq!['-'] + hex.subrange(20, 32)
}

/// `upper_hex` gives as many digits as it is asked for.
pub proof fn lemma_upper_hex_len(value: nat, width: nat)
    ensures
        upper_hex(value, width).len() == width,
    decreases width,
{
    if width > 0 {
        lemma_upper_hex_len(value / 16, (width - 1) as nat);
    }
}

/// The capital hexadecimal digit for a number below sixteen, as a text.
pub fn upper_hex_digit_text(n: u8) -> (r: &'static str)
    requires
        n < 16,
    ensures
        r@ == seq![upper_hex_digit(n as int)],
{
    proof {
        reveal_strlit("0");
        reveal_strlit("1");
        reveal_strlit("2");
        reveal_strlit("3");
        reveal_strlit("4");
        reveal_strlit("5");
        reveal_strlit("6");
        reveal_strlit("7");
        reveal_strlit("8");
        reveal_strlit("9");
        reveal_strlit("A");
        reveal_strlit("B");
        reveal_strlit("C");
        reveal_strlit("D");
        reveal_strlit("E");
        reveal_strlit("F");
    }
    let r = match n {
        0 => "0",
        1 => "1",
        2 => "2",
        3 => "3",
        4 => "4",
        5 => "5",
        6 => "6",
        7 => "7",
        8 => "8",
        9 => "9",
        10 => "A",
        11 => "B",
        12 => "C",
        13 => "D",
        14 => "E",
        _ => "F",
    };
    r
}

/// The number without its last `places` hexadecimal digits.
pub open spec fn without_low_digits(value: nat, places: nat) -> nat
    decreases places,
{
    if places == 0 {
        value
    } else {
        without_low_digits(value, (places - 1) as nat) / 16
    }
}

/// The 32 hexadecimal digits of an id, in capitals.
pub fn hex_of_guid(value: u128) -> (r: String)
    ensures
        r@ == upper_hex(value as nat, 32),
{
    let mut low_first: Vec<u8> = Vec::new();
    let mut rest: u128 = value;
    let mut i: usize = 0;
    while i < 32
        invariant
            i <= 32,
            low_first@.len() == i,
            rest == without_low_digits(value as nat, i as nat),
            forall|k: int|
                0 <= k < i ==> (#[trigger] low_first@[k]) == without_low_digits(
                    value as nat,
                    k as nat,
                ) % 16,
        decreases 32 - i,
    {
        low_first.push((rest % 16) as u8);
        rest = rest / 16;
        i += 1;
    }
    let mut text = String::new();
    let mut j: usize = 32;
    while j > 0
        invariant
            j <= 32,
            low_first@.len() == 32,
            forall|k: int|
                0 <= k < 32 ==> (#[trigger] low_first@[k]) == without_low_digits(
                    value as nat,
                    k as nat,
                ) % 16,
            text@ == upper_hex(without_low_digits(value as nat, j as nat), (32 - j) as nat),
        decreases j,
    {
        j -= 1;
        let digit = low_first[j];
        text = text.concat(upper_hex_digit_text(digit));
    }
    text
}

/// Writes an id as text.
pub fn format_guid(value: u128) -> (r: String)
    ensures
        r@ == guid_text(value),
{
    let hex = hex_of_guid(value);
    proof {
        lemma_upper_hex_len(value as nat, 32);
    }
    let digits = hex.as_str();
    let text = digits.substring_char(0, 8).to_owned();
    let text = text.concat("-");
    let text = text.concat(digits.substring_char(8, 12));
    let text = text.concat("-");
    let text = text.concat(digits.substring_char(12, 16));
    let text = text.concat("-");
    let text = text.concat(digits.substring_char(16, 20));
    let text = text.concat("-");
    let text = text.concat(digits.substring_char(20, 32));
    proof {
        reveal_strlit("-");
    }
    text
}

/// Sixteen to the power of `n`.
pub open spec fn pow16(n: nat) -> nat
    decreases n,
{
    if n == 0 {
        1
    } else {
        16 * pow16((n - 1) as nat)
    }
}

/// A capital hexadecimal digit stands for the number it was made from.
pub proof fn lemma_upper_hex_digit(n: int)
    requires
        0 <= n < 16,
    ensures
        hex_digit(upper_hex_digit(n)) == Some(n),
        upper_hex_digit(n) != '-',
        upper_hex_digit(n) != '+',
{
}

/// The digits that `upper_hex` writes are hexadecimal digits, none of them a
/// hyphen or a sign, and stand for the number they were written from, cut to
/// the width.
pub proof fn lemma_upper_hex_number(value: nat, width: nat)
    ensures
        upper_hex(value, width).len() == width,
        all_hex(upper_hex(value, width)),
        forall|i: int|
            0 <= i < width ==> (#[trigger] upper_hex(value, width)[i]) != '-' && upper_hex(
                value,
                width,
            )[i] != '+',
        pow16(width) > 0,
        hex_number(upper_hex(value, width)) == value % pow16(width),
    decreases width,
{
    if width > 0 {
        let shorter = upper_hex(value / 16, (width - 1) as nat);
        let digits = upper_hex(value, width);
        lemma_upper_hex_number(value / 16, (width - 1) as nat);
        lemma_upper_hex_digit((value % 16) as int);
        assert(digits.drop_last() =~= shorter);
        assert forall|i: int| 0 <= i < width implies hex_digit(#[trigger] digits[i]) is Some
            && digits[i] != '-' && digits[i] != '+' by {
            if i < width - 1 {
                assert(digits[i] == shorter[i]);
            }
        }
        let p = pow16((width - 1) as nat) as int;
        let high = (value / 16) as int;
        assert(hex_number(digits) == (high % p) * 16 + value % 16);
        vstd::arithmetic::div_mod::lemma_fundamental_div_mod(high, p);
        vstd::arithmetic::div_mod::lemma_mod_bound(high, p);
        assert(value == (high / p) * (16 * p) + ((high % p) * 16 + value % 16)) by (nonlinear_arith)
            requires
                value == 16 * high + value % 16,
                high == p * (high / p) + high % p,
        ;
        vstd::arithmetic::div_mod::lemma_fundamental_div_mod_converse(
            value as int,
            16 * p,
            high / p,
            (high % p) * 16 + value % 16,
        );
    } else {
        assert(value % 1 == 0);
    }
}

/// Reading the text of an id gives the id back.
pub proof fn lemma_guid_text_round_trip(value: u128)
    ensures
        guid_of_text(guid_text(value)) == Some(value),
{
    let hex = upper_hex(value as nat, 32);
    let keep = |c: char| c != '-';
    lemma_upper_hex_number(value as nat, 32);
    assert(pow16(32) == 0x1_0000_0000_0000_0000_0000_0000_0000_0000) by {
        reveal_with_fuel(pow16, 33);
    }
    lemma_all_kept(hex.subrange(0, 8), keep);
    lemma_all_kept(hex.subrange(8, 12), keep);
    lemma_all_kept(hex.subrange(12, 16), keep);
    lemma_all_kept(hex.subrange(16, 20), keep);
    lemma_all_kept(hex.subrange(20, 32), keep);
    let hyphen = seq!['-'];
    assert(hyphen.filter(keep) =~= Seq::<char>::empty()) by {
        reveal_with_fuel(Seq::filter, 2);
        assert(hyphen.drop_last() =~= Seq::<char>::empty());
    }
    let a = hex.subrange(0, 8);
    let b = hex.subrange(8, 12);
    let c = hex.subrange(12, 16);
    let d = hex.subrange(16, 20);
    let e = hex.subrange(20, 32);
    Seq::filter_distributes_over_add(a + hyphen + b + hyphen + c + hyphen + d + hyphen, e, keep);
    Seq::filter_distributes_over_add(a + hyphen + b + hyphen + c + hyphen + d, hyphen, keep);
    Seq::filter_distributes_over_add(a + hyphen + b + hyphen + c + hyphen, d, keep);
    Seq::filter_distributes_over_add(a + hyphen + b + hyphen + c, hyphen, keep);
    Seq::filter_distributes_over_add(a + hyphen + b + hyphen, c, keep);
    Seq::filter_distributes_over_add(a + hyphen + b, hyphen, keep);
    Seq::filter_distributes_over_add(a + hyphen, b, keep);
    Seq::filter_distributes_over_add(a, hyphen, keep);
    assert(without_hyphens(guid_text(value)) =~= hex);
    assert(unsigned_digits(hex) == hex);
}

/// A text whose characters all pass a test is left whole by the filter for
/// that test.
pub proof fn lemma_all_kept(text: Seq<char>, keep: spec_fn(char) -> bool)
    requires
        forall|i: int| 0 <= i < text.len() ==> keep(#[trigger] text[i]),
    ensures
        text.filter(keep) == text,
    decreases text.len(),
{
    reveal(Seq::filter);
    if text.len() > 0 {
        lemma_all_kept(text.drop_last(), keep);
        assert(text.drop_last().push(text.last()) =~= text);
    }
}

/// The capital form of an ASCII small letter; any other character as it is.
pub open spec fn ascii_upper(c: char) -> char {
    if 'a' <= c && c <= 'z' {
        ((c as u8) - 32) as char
    } else {
        c
    }
}

/// The text with its ASCII small letters in capitals.
pub open spec fn ascii_uppercase(text: Seq<char>) -> Seq<char> {
    text.map_values(|c: char| ascii_upper(c))
}

/// Whether the text of an id holds the given text, without regard to the
/// case of the given text's letters.
pub open spec fn guid_holds(uuid: u128, text: Seq<char>) -> bool {
    contains(guid_text(uuid), ascii_uppercase(text))
}

/// `i` is the place of the first plan whose id holds the text.
pub open spec fn is_first_scheme(plans: Seq<PowerPlan>, text: Seq<char>, i: int) -> bool {
    &&& 0 <= i < plans.len()
    &&& guid_holds(plans[i].uuid, text)
    &&& forall|k: int| 0 <= k < i ==> !guid_holds((#[trigger] plans[k]).uuid, text)
}

/// The characters of a text with its ASCII small letters in capitals.
pub fn to_ascii_uppercase(text: &str) -> (r: Vec<char>)
    ensures
        r@ == ascii_uppercase(text@),
{
    let chars = to_chars(text);
    let mut r: Vec<char> = Vec::new();
    let mut i: usize = 0;
    while i < chars.len()
        invariant
            i <= chars@.len(),
            chars@ == text@,
            r@.len() == i,
            forall|k: int| 0 <= k < i ==> r@[k] == ascii_upper(chars@[k]),
        decreases chars@.len() - i,
    {
        let c = chars[i];
        if 'a' <= c && c <= 'z' {
            r.push(((c as u8) - 32) as char);
        } else {
            r.push(c);
        }
        i += 1;
    }
    r
}

/// Finds the plan that a text names: the first whose id, written as text,
/// holds the given text.
pub fn find_scheme(plans: &Vec<PowerPlan>, guid_str: &str) -> (r: Option<usize>)
    ensures
        match r {
            Some(i) => is_first_scheme(plans@, guid_str@, i as int),
            None => forall|k: int|
                0 <= k < plans@.len() ==> !guid_holds((#[trigger] plans@[k]).uuid, guid_str@),
        },
{
    let wanted = to_ascii_uppercase(guid_str);
    let mut i: usize = 0;
    while i < plans.len()
        invariant
            i <= plans@.len(),
            wanted@ == ascii_uppercase(guid_str@),
            forall|k: int| 0 <= k < i ==> !guid_holds((#[trigger] plans@[k]).uuid, guid_str@),
        decreases plans@.len() - i,
    {
        let text = format_guid(plans[i].uuid);
        let chars = to_chars(text.as_str());
        let whole = Span { start: 0, end: chars.len() };
        assert(whole.of(chars@) =~= chars@);
        if find_in_span(&chars, whole, &wanted).is_some() {
            return Some(i);
        }
        i += 1;
    }
    None
}

} // verus!
