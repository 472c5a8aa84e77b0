//! JSON values as the library reads them, and the reading of JSON numbers
//! as decimal fractions.

use vstd::prelude::*;

verus! {

/// A JSON value; a number is kept as it is written (for instance `0.85`,
/// `1e-7` or `-12`), an object as its fields in order.
#[derive(Debug)]
pub enum JsonValue {
    Null,
    Bool(bool),
    Number(String),
    Text(String),
    Array(Vec<JsonValue>),
    Object(Vec<(String, JsonValue)>),
}

/// The JSON value type of `serde_json`.
#[verifier::external_type_specification]
#[verifier::external_body]
pub struct ExSerdeJsonValue(serde_json::Value);

/// The JSON document a text holds, as `serde_json::from_str` reads it into
/// a `serde_json::Value` and `json_from_serde` carries it over; nothing
/// when serde_json refuses the text.
pub uninterp spec fn json_document(text: Seq<char>) -> Option<JsonValue>;

/// Reads a text as a JSON document: `serde_json::from_str` into a
/// `serde_json::Value`, carried over value for value (see
/// `json_document`). Which texts are JSON is named, not stated.
#[verifier::external_body]
pub(crate) fn parse_json(text: &str) -> (r: Option<JsonValue>)
    ensures
        r == json_document(text@),
{
    serde_json::from_str::<serde_json::Value>(text).ok().map(json_from_serde)
}

/// The part of `parse_json` that carries a `serde_json::Value` over to a
/// `JsonValue`, variant for variant: a number as the text serde_json
/// writes for it, an object's fields in serde_json's (key) order.
#[verifier::external_body]
fn json_from_serde(v: serde_json::Value) -> JsonValue {
    match v {
        serde_json::Value::Null => JsonValue::Null,
        serde_json::Value::Bool(b) => JsonValue::Bool(b),
        serde_json::Value::Number(n) => JsonValue::Number(n.to_string()),
        serde_json::Value::String(s) => JsonValue::Text(s),
        serde_json::Value::Array(a) => JsonValue::Array(a.into_iter().map(json_from_serde).collect()),
        serde_json::Value::Object(m) => JsonValue::Object(m.into_iter().map(|(k, x)| (k, json_from_serde(x))).collect()),
    }
}

/// Index of the first field with the key, if any.
pub open spec fn field_index(fields: Seq<(String, JsonValue)>, key: Seq<char>) -> Option<int> {
    if exists|i: int| 0 <= i < fields.len() && fields[i].0@ == key {
        Some(choose|i: int| 0 <= i < fields.len() && fields[i].0@ == key
            && forall|k: int| 0 <= k < i ==> fields[k].0@ != key)
    } else {
        None
    }
}

/// The value of the object's field with the key (the first such field);
/// nothing for a missing key or a value that is not an object.
pub open spec fn json_field(v: JsonValue, key: Seq<char>) -> Option<JsonValue> {
    match v {
        JsonValue::Object(fields) => match field_index(fields@, key) {
            Some(i) => Some(fields@[i].1),
            None => None,
        },
        _ => None,
    }
}

/// The value of the object's field with the key (see `json_field`).
pub fn get_field<'a>(v: &'a JsonValue, key: &str) -> (r: Option<&'a JsonValue>)
    ensures
        match json_field(*v, key@) {
            Some(f) => r is Some && *r->0 == f,
            None => r is None,
        },
{
    match v {
        JsonValue::Object(fields) => {
            let ghost fs = fields@;
            let mut i: usize = 0;
            while i < fields.len()
                invariant
                    i <= fs.len(),
                    fs == fields@,
                    *v == JsonValue::Object(*fields),
                    forall|k: int| 0 <= k < i ==> fs[k].0@ != key@,
                decreases fs.len() - i,
            {
                if str_equals(fields[i].0.as_str(), key) {
                    proof {
                        assert(fs[i as int].0@ == key@);
                        assert(field_index(fs, key@) is Some);
                        let j = field_index(fs, key@)->0;
                        assert(0 <= j < fs.len() && fs[j].0@ == key@ && forall|k: int| 0 <= k < j ==> fs[k].0@ != key@);
                        if j < i {
                            assert(fs[j].0@ != key@);
                        }
                        if j > i {
                            assert(fs[i as int].0@ != key@);
                        }
                        assert(j == i);
                        assert(*v == JsonValue::Object(*fields));
                        assert(json_field(*v, key@) == Some(fs[i as int].1));
                    }
                    return Some(&fields[i].1);
                }
                i = i + 1;
            }
            None
        },
        _ => None,
    }
}

/// Whether two texts are equal.
pub fn str_equals(a: &str, b: &str) -> (r: bool)
    ensures
        r == (a@ == b@),
{
    let x = String::from_str(a);
    let y = String::from_str(b);
    x == y
}

/// A decimal digit.
pub open spec fn is_digit(c: char) -> bool {
    '0' <= c && c <= '9'
}

/// The value of a decimal digit.
pub open spec fn digit_value(c: char) -> nat {
    (c as nat - '0' as nat) as nat
}

/// The number the decimal digits write.
pub open spec fn digits_value(s: Seq<char>) -> nat
    decreases s.len(),
{
    if s.len() == 0 {
        0
    } else {
        digits_value(s.drop_last()) * 10 + digit_value(s.last())
    }
}

/// Where the reading of a number's text stands.
#[derive(Debug, Clone, Copy, PartialEq, Eq, Structural)]
pub enum NumberPhase {
    /// Nothing read
    Start,
    /// After the minus sign
    Sign,
    /// In the integer digits
    Integer,
    /// After the decimal point
    Point,
    /// In the fraction digits
    Fraction,
    /// After the exponent mark
    Exponent,
    /// After the exponent's sign
    ExponentSign,
    /// In the exponent digits
    ExponentDigits,
    /// Not a number
    Invalid,
}

/// What has been read of a number: the phase, whether it is negative, its
/// significant digits (integer and fraction digits together, leading zeros
/// left out), its count of fraction digits, whether the exponent is
/// negative, and the exponent's digits.
pub type NumberScan = (NumberPhase, bool, Seq<char>, nat, bool, Seq<char>);

/// Appends a digit to significant digits, leaving out leading zeros.
pub open spec fn push_significant(sig: Seq<char>, c: char) -> Seq<char> {
    if sig.len() == 0 && c == '0' {
        sig
    } else {
        sig.push(c)
    }
}

/// Reading one more character of a number written
/// `-? digits (. digits)? ((e|E) (+|-)? digits)?`.
pub open spec fn number_step(s: NumberScan, c: char) -> NumberScan {
    let (phase, neg, sig, frac, eneg, edigits) = s;
    match phase {
        NumberPhase::Start => if c == '-' {
            (NumberPhase::Sign, true, sig, frac, eneg, edigits)
        } else if is_digit(c) {
            (NumberPhase::Integer, neg, push_significant(sig, c), frac, eneg, edigits)
        } else {
            (NumberPhase::Invalid, neg, sig, frac, eneg, edigits)
        },
        NumberPhase::Sign => if is_digit(c) {
            (NumberPhase::Integer, neg, push_significant(sig, c), frac, eneg, edigits)
        } else {
            (NumberPhase::Invalid, neg, sig, frac, eneg, edigits)
        },
        NumberPhase::Integer => if is_digit(c) {
            (NumberPhase::Integer, neg, push_significant(sig, c), frac, eneg, edigits)
        } else if c == '.' {
            (NumberPhase::Point, neg, sig, frac, eneg, edigits)
        } else if c == 'e' || c == 'E' {
            (NumberPhase::Exponent, neg, sig, frac, eneg, edigits)
        } else {
            (NumberPhase::Invalid, neg, sig, frac, eneg, edigits)
        },
        NumberPhase::Point | NumberPhase::Fraction => if is_digit(c) {
            (NumberPhase::Fraction, neg, push_significant(sig, c), frac + 1, eneg, edigits)
        } else if phase == NumberPhase::Fraction && (c == 'e' || c == 'E') {
            (NumberPhase::Exponent, neg, sig, frac, eneg, edigits)
        } else {
            (NumberPhase::Invalid, neg, sig, frac, eneg, edigits)
        },
        NumberPhase::Exponent => if c == '-' || c == '+' {
            (NumberPhase::ExponentSign, neg, sig, frac, c == '-', edigits)
        } else if is_digit(c) {
            (NumberPhase::ExponentDigits, neg, sig, frac, eneg, edigits.push(c))
        } else {
            (NumberPhase::Invalid, neg, sig, frac, eneg, edigits)
        },
        NumberPhase::ExponentSign | NumberPhase::ExponentDigits => if is_digit(c) {
            (NumberPhase::ExponentDigits, neg, sig, frac, eneg, edigits.push(c))
        } else {
            (NumberPhase::Invalid, neg, sig, frac, eneg, edigits)
        },
        NumberPhase::Invalid => s,
    }
}

/// What has been read of a number's text after all its characters.
pub open spec fn number_scan(t: Seq<char>) -> NumberScan
    decreases t.len(),
{
    if t.len() == 0 {
        (NumberPhase::Start, false, Seq::empty(), 0, false, Seq::empty())
    } else {
        number_step(number_scan(t.drop_last()), t.last())
    }
}

/// The phases in which a number's text may end.
pub open spec fn complete_phase(p: NumberPhase) -> bool {
    p == NumberPhase::Integer || p == NumberPhase::Fraction || p == NumberPhase::ExponentDigits
}

/// A number's text, read: whether it is negative, its significant digits
/// `S` and the position `P` of its decimal point counted from before the
/// first significant digit, so that the number is `0.S * 10^P`; nothing
/// when the text is not a number.
pub open spec fn number_parts(t: Seq<char>) -> Option<(bool, Seq<char>, int)> {
    let (phase, neg, sig, frac, eneg, edigits) = number_scan(t);
    if complete_phase(phase) {
        let e: int = if eneg { -(digits_value(edigits) as int) } else { digits_value(edigits) as int };
        Some((neg, sig, sig.len() - frac + e))
    } else {
        None
    }
}

/// The significant digits are a one followed by zeros only.
pub open spec fn is_power_of_ten(sig: Seq<char>) -> bool {
    sig.len() > 0 && sig[0] == '1' && forall|i: int| 1 <= i < sig.len() ==> sig[i] == '0'
}

/// The number lies between 0 and 1, both included.
pub open spec fn in_unit_interval(neg: bool, sig: Seq<char>, point: int) -> bool {
    sig.len() == 0 || (!neg && (point <= 0 || (point == 1 && is_power_of_ten(sig))))
}

/// The first `n` significant digits, padded with zeros to `n` digits.
pub open spec fn leading_digits(sig: Seq<char>, n: nat) -> Seq<char> {
    if n <= sig.len() {
        sig.subrange(0, n as int)
    } else {
        sig + Seq::new((n - sig.len()) as nat, |i: int| '0')
    }
}

/// The number of whole thousandths in a non-negative number: the digits
/// before the point once the point is moved three places right.
pub open spec fn whole_thousandths(sig: Seq<char>, point: int) -> nat {
    if point + 3 <= 0 {
        0
    } else {
        digits_value(leading_digits(sig, (point + 3) as nat))
    }
}

/// The number written in the text, in whole thousandths (rounded down),
/// when it is a number between 0 and 1; nothing otherwise.
pub open spec fn unit_thousandths(t: Seq<char>) -> Option<u32> {
    match number_parts(t) {
        Some((neg, sig, point)) => if in_unit_interval(neg, sig, point) {
            Some(whole_thousandths(sig, point) as u32)
        } else {
            None
        },
        None => None,
    }
}


/// The exponent is read up to this bound: beyond it only its sign matters.
pub const EXPONENT_BOUND: u128 = 0x10000000000000000000000000;

/// The exponent read so far, up to `EXPONENT_BOUND`.
pub open spec fn bounded_exponent(edigits: Seq<char>) -> u128 {
    if digits_value(edigits) >= EXPONENT_BOUND {
        EXPONENT_BOUND
    } else {
        digits_value(edigits) as u128
    }
}

pub(crate) fn is_digit_char(c: char) -> (b: bool)
    ensures
        b == is_digit(c),
{
    '0' <= c && c <= '9'
}

pub(crate) fn digit_of(c: char) -> (d: u32)
    requires
        is_digit(c),
    ensures
        d == digit_value(c),
        d < 10,
{
    (c as u32) - ('0' as u32)
}

fn significant_push(sig: &mut Vec<char>, c: char)
    ensures
        final(sig)@ == push_significant(old(sig)@, c),
{
    if sig.len() > 0 || c != '0' {
        sig.push(c);
    }
}

proof fn lemma_leading_digits_step(sig: Seq<char>, n: nat, j: int)
    requires
        0 <= j < n,
    ensures
        leading_digits(sig, n).subrange(0, j + 1).drop_last() == leading_digits(sig, n).subrange(0, j),
        leading_digits(sig, n).subrange(0, j + 1).last() == if j < sig.len() { sig[j] } else { '0' },
        leading_digits(sig, n).len() == n,
{
    assert(leading_digits(sig, n).subrange(0, j + 1).drop_last() =~= leading_digits(sig, n).subrange(0, j));
}

fn leading_value(sig: &Vec<char>, n: usize) -> (v: u32)
    requires
        n <= 4,
        forall|i: int| 0 <= i < sig@.len() ==> is_digit(#[trigger] sig@[i]),
    ensures
        v == digits_value(leading_digits(sig@, n as nat)),
{
    let mut v: u32 = 0;
    let mut j: usize = 0;
    proof {
        assert(leading_digits(sig@, n as nat).subrange(0, 0) =~= Seq::<char>::empty());
    }
    while j < n
        invariant
            j <= n,
            n <= 4,
            forall|i: int| 0 <= i < sig@.len() ==> is_digit(#[trigger] sig@[i]),
            v == digits_value(leading_digits(sig@, n as nat).subrange(0, j as int)),
            v < 10000,
            j == 0 ==> v == 0,
            j == 1 ==> v < 10,
            j == 2 ==> v < 100,
            j == 3 ==> v < 1000,
        decreases n - j,
    {
        proof {
            lemma_leading_digits_step(sig@, n as nat, j as int);
        }
        let d: u32 = if j < sig.len() { digit_of(sig[j]) } else { 0 };
        v = v * 10 + d;
        j = j + 1;
    }
    proof {
        assert(leading_digits(sig@, n as nat).subrange(0, n as int) =~= leading_digits(sig@, n as nat));
    }
    v
}

fn power_of_ten_digits(sig: &Vec<char>) -> (b: bool)
    ensures
        b == is_power_of_ten(sig@),
{
    if sig.len() == 0 || sig[0] != '1' {
        return false;
    }
    let mut i: usize = 1;
    while i < sig.len()
        invariant
            1 <= i <= sig@.len(),
            forall|k: int| 1 <= k < i ==> sig@[k] == '0',
        decreases sig@.len() - i,
    {
        if sig[i] != '0' {
            return false;
        }
        i = i + 1;
    }
    true
}

proof fn lemma_significant_digits(t: Seq<char>)
    ensures
        forall|i: int| 0 <= i < number_scan(t).2.len() ==> is_digit(#[trigger] number_scan(t).2[i]),
    decreases t.len(),
{
    if t.len() > 0 {
        lemma_significant_digits(t.drop_last());
        let s = number_scan(t.drop_last());
        let c = t.last();
        let n = number_step(s, c);
        assert(n.2 == s.2 || (is_digit(c) && n.2 == push_significant(s.2, c)));
        assert forall|i: int| 0 <= i < n.2.len() implies is_digit(#[trigger] n.2[i]) by {
            if n.2 != s.2 && i == s.2.len() {
                assert(n.2 == s.2.push(c));
            } else {
                assert(n.2 == s.2 || n.2 == s.2.push(c));
                assert(n.2[i] == s.2[i]);
            }
        }
    }
}

/// The number written in the text, in whole thousandths rounded down, when
/// it lies between 0 and 1 (see `unit_thousandths`); nothing otherwise.
pub fn read_unit_thousandths(t: &str) -> (r: Option<u32>)
    ensures
        r == unit_thousandths(t@),
{
    let cs = crate::text::chars_of(t);
    let ghost tv = t@;
    let mut phase = NumberPhase::Start;
    let mut neg = false;
    let mut sig: Vec<char> = Vec::new();
    let mut frac: usize = 0;
    let mut eneg = false;
    let mut exp: u128 = 0;
    let ghost mut edigits: Seq<char> = Seq::empty();
    let mut i: usize = 0;
    assert(tv.subrange(0, 0) =~= Seq::<char>::empty());
    while i < cs.len()
        invariant
            i <= cs@.len(),
            cs@ == tv,
            number_scan(tv.subrange(0, i as int)) == (phase, neg, sig@, frac as nat, eneg, edigits),
            frac <= i,
            exp == bounded_exponent(edigits),
        decreases cs@.len() - i,
    {
        let c = cs[i];
        assert(tv.subrange(0, i + 1).drop_last() =~= tv.subrange(0, i as int));
        assert(tv.subrange(0, i + 1).last() == c);
        let d = is_digit_char(c);
        match phase {
            NumberPhase::Start => {
                if c == '-' {
                    phase = NumberPhase::Sign;
                    neg = true;
                } else if d {
                    phase = NumberPhase::Integer;
                    significant_push(&mut sig, c);
                } else {
                    phase = NumberPhase::Invalid;
                }
            },
            NumberPhase::Sign | NumberPhase::Integer => {
                if d {
                    phase = NumberPhase::Integer;
                    significant_push(&mut sig, c);
                } else if phase == NumberPhase::Integer && c == '.' {
                    phase = NumberPhase::Point;
                } else if phase == NumberPhase::Integer && (c == 'e' || c == 'E') {
                    phase = NumberPhase::Exponent;
                } else {
                    phase = NumberPhase::Invalid;
                }
            },
            NumberPhase::Point | NumberPhase::Fraction => {
                if d {
                    phase = NumberPhase::Fraction;
                    significant_push(&mut sig, c);
                    frac = frac + 1;
                } else if phase == NumberPhase::Fraction && (c == 'e' || c == 'E') {
                    phase = NumberPhase::Exponent;
                } else {
                    phase = NumberPhase::Invalid;
                }
            },
            NumberPhase::Exponent | NumberPhase::ExponentSign | NumberPhase::ExponentDigits => {
                if phase == NumberPhase::Exponent && (c == '-' || c == '+') {
                    phase = NumberPhase::ExponentSign;
                    eneg = c == '-';
                } else if d {
                    phase = NumberPhase::ExponentDigits;
                    let dv = digit_of(c) as u128;
                    proof {
                        assert(edigits.push(c).drop_last() =~= edigits);
                    }
                    if exp < EXPONENT_BOUND {
                        let next = exp * 10 + dv;
                        exp = if next >= EXPONENT_BOUND { EXPONENT_BOUND } else { next };
                    }
                    proof {
                        edigits = edigits.push(c);
                    }
                } else {
                    phase = NumberPhase::Invalid;
                }
            },
            NumberPhase::Invalid => {},
        }
        i = i + 1;
    }
    assert(tv.subrange(0, cs@.len() as int) =~= tv);
    proof {
        lemma_significant_digits(tv);
    }
    if !(phase == NumberPhase::Integer || phase == NumberPhase::Fraction || phase == NumberPhase::ExponentDigits) {
        return None;
    }
    let k = sig.len();
    if k == 0 {
        proof {
            let (_, _, point) = number_parts(tv)->0;
            if point + 3 > 0 {
                let lead = leading_digits(sig@, (point + 3) as nat);
                assert forall|j: int| 0 <= j <= lead.len() implies digits_value(#[trigger] lead.subrange(0, j)) == 0 by {
                    lemma_zero_digits(lead, j);
                }
                assert(lead.subrange(0, lead.len() as int) =~= lead);
            }
        }
        return Some(0);
    }
    if neg {
        return None;
    }
    let point: i128 = if eneg {
        (k as i128) - (frac as i128) - (exp as i128)
    } else {
        (k as i128) - (frac as i128) + (exp as i128)
    };
    if point <= 0 {
        if point + 3 <= 0 {
            Some(0)
        } else {
            Some(leading_value(&sig, (point + 3) as usize))
        }
    } else if point == 1 && power_of_ten_digits(&sig) {
        Some(leading_value(&sig, 4))
    } else {
        None
    }
}

proof fn lemma_zero_digits(lead: Seq<char>, j: int)
    requires
        0 <= j <= lead.len(),
        forall|i: int| 0 <= i < lead.len() ==> lead[i] == '0',
    ensures
        digits_value(lead.subrange(0, j)) == 0,
    decreases j,
{
    if j > 0 {
        lemma_zero_digits(lead, j - 1);
        assert(lead.subrange(0, j).drop_last() =~= lead.subrange(0, j - 1));
    }
}


proof fn lemma_small_digits(s: Seq<char>)
    requires
        s.len() <= 3,
        forall|i: int| 0 <= i < s.len() ==> is_digit(#[trigger] s[i]),
    ensures
        s.len() == 0 ==> digits_value(s) == 0,
        s.len() <= 1 ==> digits_value(s) <= 9,
        s.len() <= 2 ==> digits_value(s) <= 99,
        digits_value(s) <= 999,
    decreases s.len(),
{
    if s.len() > 0 {
        lemma_small_digits(s.drop_last());
        assert(is_digit(s[s.len() - 1]));
    }
}

proof fn lemma_one_then_zeros(s: Seq<char>, j: int)
    requires
        0 < j <= s.len(),
        s[0] == '1',
        forall|i: int| 1 <= i < s.len() ==> s[i] == '0',
    ensures
        j == 1 ==> digits_value(s.subrange(0, j)) == 1,
        j == 2 ==> digits_value(s.subrange(0, j)) == 10,
        j == 3 ==> digits_value(s.subrange(0, j)) == 100,
        j == 4 ==> digits_value(s.subrange(0, j)) == 1000,
    decreases j,
{
    assert(digit_value('0') == 0);
    assert(digit_value('1') == 1);
    if j > 1 {
        lemma_one_then_zeros(s, j - 1);
        assert(s.subrange(0, j).drop_last() =~= s.subrange(0, j - 1));
        assert(s.subrange(0, j).last() == '0');
    } else {
        let one = s.subrange(0, 1);
        assert(one.drop_last() =~= Seq::<char>::empty());
        assert(one.last() == '1');
        assert(digits_value(Seq::<char>::empty()) == 0);
        assert(digits_value(one) == digits_value(one.drop_last()) * 10 + digit_value(one.last()));
    }
}

/// A number read as lying between 0 and 1 is at most a thousand
/// thousandths.
pub proof fn lemma_unit_thousandths_bounded(t: Seq<char>)
    ensures
        unit_thousandths(t) matches Some(k) ==> k <= 1000,
{
    lemma_significant_digits(t);
    match number_parts(t) {
        Some((neg, sig, point)) => {
            if in_unit_interval(neg, sig, point) && point + 3 > 0 {
                let n = (point + 3) as nat;
                let lead = leading_digits(sig, n);
                assert forall|i: int| 0 <= i < lead.len() implies is_digit(#[trigger] lead[i]) by {
                    if i >= sig.len() {
                        assert(lead[i] == '0');
                    }
                }
                if sig.len() == 0 {
                    assert forall|i: int| 0 <= i < lead.len() implies lead[i] == '0' by {}
                    lemma_zero_digits(lead, lead.len() as int);
                    assert(lead.subrange(0, lead.len() as int) =~= lead);
                } else if point <= 0 {
                    lemma_small_digits(lead);
                } else {
                    assert(is_power_of_ten(sig));
                    assert(lead.len() == 4);
                    assert(lead[0] == '1');
                    assert forall|i: int| 1 <= i < lead.len() implies lead[i] == '0' by {
                        if i < sig.len() {
                            assert(lead[i] == sig[i]);
                        }
                    }
                    lemma_one_then_zeros(lead, 4);
                    assert(lead.subrange(0, 4) =~= lead);
                }
            }
        },
        None => {},
    }
}

} // verus!
