//! JSON text: the calls into `serde_json`, and decimal numbers.
use std::collections::BTreeMap;
use vstd::prelude::*;
use vstd::string::*;

verus! {

/// The JSON string literal that `serde_json` writes for the string `s`:
/// quoted and escaped.
pub uninterp spec fn json_string_literal(s: Seq<char>) -> Seq<char>;

/// The members of the JSON object that `text` holds, each key with the compact
/// JSON text of its value, in the order of the keys; `None` where
/// `serde_json` does not read `text` as one object.
pub uninterp spec fn json_object(text: Seq<char>) -> Option<Seq<(Seq<char>, Seq<char>)>>;

/// The string that the JSON text `text` stands for; `None` where `serde_json`
/// does not read `text` as one JSON string.
pub uninterp spec fn json_string(text: Seq<char>) -> Option<Seq<char>>;

/// The view of a list of members: each key and each value as characters.
pub open spec fn members_view(members: Seq<(String, String)>) -> Seq<(Seq<char>, Seq<char>)> {
    members.map_values(|m: (String, String)| (m.0@, m.1@))
}

/// Renders `s` as a JSON string literal.
///
/// Trusted: builds `serde_json::Value::String` and formats it with the
/// `Display` impl of `serde_json::Value`, which writes compact JSON. The
/// contract only gives that text its name.
#[verifier::external_body]
pub(crate) fn quote(s: &str) -> (r: String)
    ensures
        r@ == json_string_literal(s@),
{
    serde_json::Value::String(s.to_owned()).to_string()
}

/// Reads `text` as one JSON object and hands out its members, or nothing
/// where the text is no such object.
///
/// Trusted: calls `serde_json::from_str` for a `BTreeMap<String, Value>`,
/// which fails on anything but one JSON object, and formats each value with
/// the `Display` impl of `serde_json::Value`. The contract only gives the
/// outcome its name.
#[verifier::external_body]
pub(crate) fn decode_object(text: &str) -> (r: Option<Vec<(String, String)>>)
    ensures
        r is Some <==> json_object(text@) is Some,
        r matches Some(members) ==> json_object(text@) == Some(members_view(members@)),
{
    let map = serde_json::from_str::<BTreeMap<String, serde_json::Value>>(text).ok();
    map.map(|m| m.into_iter().map(|(k, v)| (k, v.to_string())).collect())
}

/// Reads `text` as one JSON string, or nothing where the text is no such
/// string.
///
/// Trusted: calls `serde_json::from_str` for a `String`, which fails on
/// anything but one JSON string. The contract only gives the outcome its
/// name.
#[verifier::external_body]
pub(crate) fn decode_string(text: &str) -> (r: Option<String>)
    ensures
        r is Some <==> json_string(text@) is Some,
        r matches Some(s) ==> json_string(text@) == Some(s@),
{
    serde_json::from_str::<String>(text).ok()
}

/// The characters of `s`, one after the other.
pub fn characters(s: &str) -> (r: Vec<char>)
    ensures
        r@ == s@,
{
    broadcast use vstd::string::group_string_axioms;

    let mut out: Vec<char> = Vec::new();
    for c in it: s.chars()
        invariant
            it.seq() == s@,
            out@ == it.seq().take(it.index() as int),
    {
        out.push(c);
        assert(it.seq().take(it.index() + 1) =~= it.seq().take(it.index() as int).push(c));
    }
    assert(s@.take(s@.len() as int) =~= s@);
    out
}

/// The character of the decimal digit `d`.
pub open spec fn digit_char(d: nat) -> char
    recommends
        d < 10,
{
    if d == 0 {
        '0'
    } else if d == 1 {
        '1'
    } else if d == 2 {
        '2'
    } else if d == 3 {
        '3'
    } else if d == 4 {
        '4'
    } else if d == 5 {
        '5'
    } else if d == 6 {
        '6'
    } else if d == 7 {
        '7'
    } else if d == 8 {
        '8'
    } else {
        '9'
    }
}

/// The decimal numeral of `n`, without sign or leading zeros.
pub open spec fn decimal(n: nat) -> Seq<char>
    decreases n,
{
    if n < 10 {
        seq![digit_char(n)]
    } else {
        decimal(n / 10).push(digit_char(n % 10))
    }
}

/// The numeral of one digit.
fn digit_text(d: u64) -> (r: &'static str)
    requires
        d < 10,
    ensures
        r@ == seq![digit_char(d as nat)],
{
    proof {
        reveal_strlit("0");
        reveal_strlit("1");
        reveal_strlit("2");
        reveal_strlit("3");
        reveal_strlit("4");
        reveal_strlit("5");
        reveal_strlit("6");
        reveal_strlit("7");
        reveal_strlit("8");
        reveal_strlit("9");
    }
    let r = if d == 0 {
        "0"
    } else if d == 1 {
        "1"
    } else if d == 2 {
        "2"
    } else if d == 3 {
        "3"
    } else if d == 4 {
        "4"
    } else if d == 5 {
        "5"
    } else if d == 6 {
        "6"
    } else if d == 7 {
        "7"
    } else if d == 8 {
        "8"
    } else {
        "9"
    };
    assert(r@ =~= seq![digit_char(d as nat)]);
    r
}

/// Writes `n` as a decimal numeral.
pub fn decimal_text(n: u64) -> (r: String)
    ensures
        r@ == decimal(n as nat),
    decreases n,
{
    if n < 10 {
        String::from_str(digit_text(n))
    } else {
        let mut head = decimal_text(n / 10);
        head.append(digit_text(n % 10));
        assert(head@ =~= decimal(n as nat));
        head
    }
}

/// The value of the digit `c`, where it is one.
pub open spec fn digit_value(c: char) -> Option<nat> {
    if c == '0' {
        Some(0)
    } else if c == '1' {
        Some(1)
    } else if c == '2' {
        Some(2)
    } else if c == '3' {
        Some(3)
    } else if c == '4' {
        Some(4)
    } else if c == '5' {
        Some(5)
    } else if c == '6' {
        Some(6)
    } else if c == '7' {
        Some(7)
    } else if c == '8' {
        Some(8)
    } else if c == '9' {
        Some(9)
    } else {
        None
    }
}

/// Every character of `s` is a decimal digit.
pub open spec fn all_digits(s: Seq<char>) -> bool {
    forall|i: int| 0 <= i < s.len() ==> (#[trigger] digit_value(s[i])) is Some
}

/// The number that the digits of `s` spell, the first digit weighing most.
pub open spec fn digits_number(s: Seq<char>) -> nat
    decreases s.len(),
{
    if s.len() == 0 {
        0
    } else {
        digits_number(s.drop_last()) * 10 + match digit_value(s.last()) {
            Some(d) => d,
            None => 0,
        }
    }
}

/// `s` without a leading plus sign.
pub open spec fn unsigned_part(s: Seq<char>) -> Seq<char> {
    if s.len() > 0 && s[0] == '+' {
        s.skip(1)
    } else {
        s
    }
}

/// The number that `s` spells as an unsigned decimal: an optional plus sign,
/// then one digit or more and nothing else, the number fitting 64 bits.
pub open spec fn decimal_number(s: Seq<char>) -> Option<u64> {
    let body = unsigned_part(s);
    if body.len() > 0 && all_digits(body) && digits_number(body) <= u64::MAX {
        Some(digits_number(body) as u64)
    } else {
        None
    }
}

/// A numeral never spells less than one of its prefixes.
proof fn lemma_digits_number_grows(s: Seq<char>, k: int)
    requires
        0 <= k <= s.len(),
    ensures
        digits_number(s.take(k)) <= digits_number(s),
    decreases s.len() - k,
{
    if k == s.len() {
        assert(s.take(k) =~= s);
    } else {
        lemma_digits_number_grows(s, k + 1);
        assert(s.take(k + 1).drop_last() =~= s.take(k));
    }
}

/// The value of one digit character.
fn digit_of(c: char) -> (r: Option<u64>)
    ensures
        r is Some <==> digit_value(c) is Some,
        r matches Some(d) ==> d < 10 && digit_value(c) == Some(d as nat),
{
    if c == '0' {
        Some(0)
    } else if c == '1' {
        Some(1)
    } else if c == '2' {
        Some(2)
    } else if c == '3' {
        Some(3)
    } else if c == '4' {
        Some(4)
    } else if c == '5' {
        Some(5)
    } else if c == '6' {
        Some(6)
    } else if c == '7' {
        Some(7)
    } else if c == '8' {
        Some(8)
    } else if c == '9' {
        Some(9)
    } else {
        None
    }
}

/// Reads `s` as an unsigned decimal number.
pub fn parse_decimal(s: &str) -> (r: Option<u64>)
    ensures
        r == decimal_number(s@),
{
    let chars = characters(s);
    let n = chars.len();
    if n == 0 {
        return None;
    }
    let start: usize = if chars[0] == '+' {
        1
    } else {
        0
    };
    if start == n {
        return None;
    }
    let ghost body = unsigned_part(s@);
    assert(body =~= s@.skip(start as int));
    let mut i: usize = start;
    let mut value: u64 = 0;
    assert(body.take(0) =~= Seq::<char>::empty());
    while i < n
        invariant
            n == s@.len(),
            chars@ == s@,
            start <= i <= n,
            start < n,
            body == s@.skip(start as int),
            body == unsigned_part(s@),
            all_digits(body.take(i - start)),
            value as nat == digits_number(body.take(i - start)),
        decreases n - i,
    {
        let c = chars[i];
        let ghost k = i - start;
        assert(body[k] == c);
        assert(body.take(k + 1).drop_last() =~= body.take(k));
        assert(body.take(k + 1).last() == c);
        match digit_of(c) {
            None => {
                assert(digit_value(body[k]) is None);
                return None;
            },
            Some(d) => {
                assert(digits_number(body.take(k + 1)) == digits_number(body.take(k)) * 10 + d);
                if value > (u64::MAX - d) / 10 {
                    proof {
                        assert(value * 10 + d > u64::MAX);
                        lemma_digits_number_grows(body, k + 1);
                    }
                    return None;
                }
                value = value * 10 + d;
                assert forall|j: int| 0 <= j < body.take(k + 1).len() implies (
                #[trigger] digit_value(body.take(k + 1)[j])) is Some by {
                    if j < k {
                        assert(body.take(k + 1)[j] == body.take(k)[j]);
                    }
                }
            },
        }
        i += 1;
    }
    assert(body.take(n - start) =~= body);
    Some(value)
}

} // verus!
