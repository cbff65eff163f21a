//! The JSON tree that requests and responses are built from.
//!
//! Wire payloads are modelled as an explicit tree: numbers keep the
//! distinction between unsigned, signed and non-integer values (the last as
//! their decimal text, so no precision is lost), and objects keep their
//! fields as an ordered list of name/value pairs.  Lookup in an object takes
//! the first field with the asked-for name.

use vstd::prelude::*;

verus! {

/// One node of a JSON document.
#[derive(Debug, PartialEq)]
pub enum JsonValue {
    Null,
    Bool(bool),
    UInt(u64),
    Int(i64),
    /// A number that is not representable as `u64` or `i64`, kept as its
    /// decimal text.
    Float(String),
    Str(String),
    Arr(Vec<JsonValue>),
    Obj(Vec<(String, JsonValue)>),
}

/// First field of `fields` named `name`, if any.
pub open spec fn obj_get(fields: Seq<(String, JsonValue)>, name: Seq<char>) -> Option<JsonValue>
    decreases fields.len(),
{
    if fields.len() <= 0 {
        None
    } else if fields[0].0@ == name {
        Some(fields[0].1)
    } else {
        obj_get(fields.subrange(1, fields.len() as int), name)
    }
}

/// Field `name` of `v`, when `v` is an object that has it.
pub open spec fn jv_get(v: JsonValue, name: Seq<char>) -> Option<JsonValue> {
    match v {
        JsonValue::Obj(fields) => obj_get(fields@, name),
        _ => None,
    }
}

/// Compare two string slices character by character.
pub fn str_eq(a: &str, b: &str) -> (r: bool)
    ensures
        r == (a@ == b@),
{
    let la = a.unicode_len();
    let lb = b.unicode_len();
    if la != lb {
        return false;
    }
    let mut i: usize = 0;
    while i < la
        invariant
            la == a@.len(),
            lb == b@.len(),
            la == lb,
            i <= la,
            forall|j: int| 0 <= j < i ==> a@[j] == b@[j],
        decreases la - i,
    {
        if a.get_char(i) != b.get_char(i) {
            return false;
        }
        i += 1;
    }
    proof {
        assert(a@ =~= b@);
    }
    true
}

/// Look a field up by name; the result refers into `v`.
#[verifier::loop_isolation(false)]
pub fn jv_obj_get<'a>(v: &'a JsonValue, name: &str) -> (r: Option<&'a JsonValue>)
    ensures
        match r {
            Some(x) => jv_get(*v, name@) == Some(*x),
            None => jv_get(*v, name@) is None,
        },
{
    match v {
        JsonValue::Obj(fields) => {
            let n = fields.len();
            proof {
                assert(fields@.subrange(0, n as int) =~= fields@);
            }
            let mut i: usize = 0;
            while i < n
                invariant
                    n == fields@.len(),
                    i <= n,
                    obj_get(fields@, name@) == obj_get(
                        fields@.subrange(i as int, n as int),
                        name@,
                    ),
                decreases n - i,
            {
                let ghost pre = fields@.subrange(i as int, n as int);
                if str_eq(fields[i].0.as_str(), name) {
                    proof {
                        assert(pre[0] == fields@[i as int]);
                        assert(obj_get(pre, name@) == Some(pre[0].1));
                    }
                    return Some(&fields[i].1);
                }
                proof {
                    assert(pre[0] == fields@[i as int]);
                    assert(pre.subrange(1, pre.len() as int) =~= fields@.subrange(
                        i + 1,
                        n as int,
                    ));
                }
                i += 1;
            }
            None
        },
        _ => None,
    }
}

/// The unsigned value of `v`, when it holds one.
pub open spec fn jv_u64_of(v: JsonValue) -> Option<u64> {
    match v {
        JsonValue::UInt(u) => Some(u),
        JsonValue::Int(i) => if i >= 0 {
            Some(i as u64)
        } else {
            None
        },
        _ => None,
    }
}

/// The signed value of `v`, when it holds one that fits.
pub open spec fn jv_i64_of(v: JsonValue) -> Option<i64> {
    match v {
        JsonValue::Int(i) => Some(i),
        JsonValue::UInt(u) => if u <= i64::MAX as u64 {
            Some(u as i64)
        } else {
            None
        },
        _ => None,
    }
}

/// The value of `v` narrowed to 32 bits, when it fits.
pub open spec fn jv_u32_of(v: JsonValue) -> Option<u32> {
    match jv_u64_of(v) {
        Some(u) => if u <= u32::MAX as u64 {
            Some(u as u32)
        } else {
            None
        },
        None => None,
    }
}

pub open spec fn jv_bool_of(v: JsonValue) -> Option<bool> {
    match v {
        JsonValue::Bool(b) => Some(b),
        _ => None,
    }
}

pub open spec fn jv_str_of(v: JsonValue) -> Option<String> {
    match v {
        JsonValue::Str(s) => Some(s),
        _ => None,
    }
}

/// A single character, wire-encoded as a one-character string.
pub open spec fn jv_char_of(v: JsonValue) -> Option<char> {
    match v {
        JsonValue::Str(s) => if s@.len() == 1 {
            Some(s@[0])
        } else {
            None
        },
        _ => None,
    }
}

pub open spec fn dec_digit(d: int) -> char {
    if d == 0 {
        '0'
    } else if d == 1 {
        '1'
    } else if d == 2 {
        '2'
    } else if d == 3 {
        '3'
    } else if d == 4 {
        '4'
    } else if d == 5 {
        '5'
    } else if d == 6 {
        '6'
    } else if d == 7 {
        '7'
    } else if d == 8 {
        '8'
    } else {
        '9'
    }
}

/// Decimal text of a non-negative integer, no leading zeros.
pub open spec fn dec_rep(n: int) -> Seq<char>
    recommends
        n >= 0,
    decreases n,
{
    if n < 10 {
        seq![dec_digit(n)]
    } else {
        dec_rep(n / 10).push(dec_digit(n % 10))
    }
}

/// Decimal text of an integer, with a sign when negative.
pub open spec fn dec_rep_i(i: int) -> Seq<char> {
    if i < 0 {
        seq!['-'] + dec_rep(-i)
    } else {
        dec_rep(i)
    }
}

/// The decimal text a numeric node stands for.
pub open spec fn jv_numtext_of(v: JsonValue) -> Option<Seq<char>> {
    match v {
        JsonValue::Float(s) => Some(s@),
        JsonValue::UInt(u) => Some(dec_rep(u as int)),
        JsonValue::Int(i) => Some(dec_rep_i(i as int)),
        _ => None,
    }
}

/// One step of the decimal-number scanner.  States: 0 at the start, 1
/// after a sign, 2 in the integer digits, 3 on a point after digits, 4 on
/// a leading point, 5 in the fraction digits, 6 on the exponent marker, 7
/// after the exponent's sign, 8 in the exponent digits; -1 is dead.
pub open spec fn num_step(st: int, c: char) -> int {
    let n = c as int;
    let digit = 48 <= n && n <= 57;
    let sign = n == 43 || n == 45;
    let dot = n == 46;
    let exp_mark = n == 101 || n == 69;
    if st == 0 {
        if sign {
            1
        } else if digit {
            2
        } else if dot {
            4
        } else {
            -1
        }
    } else if st == 1 {
        if digit {
            2
        } else if dot {
            4
        } else {
            -1
        }
    } else if st == 2 {
        if digit {
            2
        } else if dot {
            3
        } else if exp_mark {
            6
        } else {
            -1
        }
    } else if st == 3 {
        if digit {
            5
        } else if exp_mark {
            6
        } else {
            -1
        }
    } else if st == 4 {
        if digit {
            5
        } else {
            -1
        }
    } else if st == 5 {
        if digit {
            5
        } else if exp_mark {
            6
        } else {
            -1
        }
    } else if st == 6 {
        if sign {
            7
        } else if digit {
            8
        } else {
            -1
        }
    } else if st == 7 || st == 8 {
        if digit {
            8
        } else {
            -1
        }
    } else {
        -1
    }
}

/// The scanner's state after reading `s` from position `i` onward.
pub open spec fn num_scan(s: Seq<char>, i: int, st: int) -> int
    recommends
        0 <= i <= s.len(),
    decreases s.len() - i,
{
    if i < 0 || i >= s.len() {
        st
    } else {
        num_scan(s, i + 1, num_step(st, s[i]))
    }
}

/// Decimal-number text: an optional sign, then digits with an optional
/// point on either side, and an optional signed exponent.
pub open spec fn is_numtext(s: Seq<char>) -> bool {
    let f = num_scan(s, 0, 0);
    f == 2 || f == 3 || f == 5 || f == 8
}

fn num_step_exec(st: i32, c: char) -> (r: i32)
    ensures
        r as int == num_step(st as int, c),
{
    let n = c as u32;
    let digit = 48 <= n && n <= 57;
    let sign = n == 43 || n == 45;
    let dot = n == 46;
    let exp_mark = n == 101 || n == 69;
    if st == 0 {
        if sign {
            1
        } else if digit {
            2
        } else if dot {
            4
        } else {
            -1
        }
    } else if st == 1 {
        if digit {
            2
        } else if dot {
            4
        } else {
            -1
        }
    } else if st == 2 {
        if digit {
            2
        } else if dot {
            3
        } else if exp_mark {
            6
        } else {
            -1
        }
    } else if st == 3 {
        if digit {
            5
        } else if exp_mark {
            6
        } else {
            -1
        }
    } else if st == 4 {
        if digit {
            5
        } else {
            -1
        }
    } else if st == 5 {
        if digit {
            5
        } else if exp_mark {
            6
        } else {
            -1
        }
    } else if st == 6 {
        if sign {
            7
        } else if digit {
            8
        } else {
            -1
        }
    } else if st == 7 || st == 8 {
        if digit {
            8
        } else {
            -1
        }
    } else {
        -1
    }
}

/// Whether `s` is decimal-number text.
#[verifier::loop_isolation(false)]
pub fn check_numtext(s: &str) -> (r: bool)
    ensures
        r == is_numtext(s@),
{
    let n = s.unicode_len();
    let mut st: i32 = 0;
    let mut i: usize = 0;
    while i < n
        invariant
            n == s@.len(),
            i <= n,
            num_scan(s@, 0, 0) == num_scan(s@, i as int, st as int),
        decreases n - i,
    {
        st = num_step_exec(st, s.get_char(i));
        i += 1;
    }
    st == 2 || st == 3 || st == 5 || st == 8
}

/// As `jv_numtext_of`, but a string node is also read, accepted only when
/// it holds decimal-number text.
pub open spec fn jv_numtext_or_str_of(v: JsonValue) -> Option<Seq<char>> {
    match v {
        JsonValue::Str(s) => if is_numtext(s@) {
            Some(s@)
        } else {
            None
        },
        _ => jv_numtext_of(v),
    }
}

fn digit_str(d: u64) -> (r: &'static str)
    requires
        d < 10,
    ensures
        r@ == seq![dec_digit(d as int)],
{
    if d == 0 {
        proof {
            reveal_strlit("0");
            assert("0"@ =~= seq![dec_digit(0)]);
        }
        "0"
    } else if d == 1 {
        proof {
            reveal_strlit("1");
            assert("1"@ =~= seq![dec_digit(1)]);
        }
        "1"
    } else if d == 2 {
        proof {
            reveal_strlit("2");
            assert("2"@ =~= seq![dec_digit(2)]);
        }
        "2"
    } else if d == 3 {
        proof {
            reveal_strlit("3");
            assert("3"@ =~= seq![dec_digit(3)]);
        }
        "3"
    } else if d == 4 {
        proof {
            reveal_strlit("4");
            assert("4"@ =~= seq![dec_digit(4)]);
        }
        "4"
    } else if d == 5 {
        proof {
            reveal_strlit("5");
            assert("5"@ =~= seq![dec_digit(5)]);
        }
        "5"
    } else if d == 6 {
        proof {
            reveal_strlit("6");
            assert("6"@ =~= seq![dec_digit(6)]);
        }
        "6"
    } else if d == 7 {
        proof {
            reveal_strlit("7");
            assert("7"@ =~= seq![dec_digit(7)]);
        }
        "7"
    } else if d == 8 {
        proof {
            reveal_strlit("8");
            assert("8"@ =~= seq![dec_digit(8)]);
        }
        "8"
    } else {
        proof {
            reveal_strlit("9");
            assert("9"@ =~= seq![dec_digit(9)]);
        }
        "9"
    }
}

/// Render an unsigned integer as decimal text.
pub fn u64_dec_string(n: u64) -> (r: String)
    ensures
        r@ == dec_rep(n as int),
    decreases n,
{
    if n < 10 {
        digit_str(n).to_owned()
    } else {
        let mut s = u64_dec_string(n / 10);
        s.append(digit_str(n % 10));
        proof {
            assert(dec_rep((n / 10) as int).push(dec_digit((n % 10) as int)) =~= dec_rep(
                (n / 10) as int,
            ) + seq![dec_digit((n % 10) as int)]);
        }
        s
    }
}

/// Render a signed integer as decimal text.
pub fn i64_dec_string(n: i64) -> (r: String)
    ensures
        r@ == dec_rep_i(n as int),
{
    if n >= 0 {
        u64_dec_string(n as u64)
    } else {
        let mag: u64 = if n == i64::MIN {
            9223372036854775808u64
        } else {
            (-n) as u64
        };
        let mut s = "-".to_owned();
        let rest = u64_dec_string(mag);
        s.append(rest.as_str());
        proof {
            reveal_strlit("-");
            assert("-"@ =~= seq!['-']);
            assert(s@ == seq!['-'] + dec_rep(mag as int));
        }
        s
    }
}

pub fn jv_as_u64(v: &JsonValue) -> (r: Option<u64>)
    ensures
        r == jv_u64_of(*v),
{
    match v {
        JsonValue::UInt(u) => Some(*u),
        JsonValue::Int(i) => if *i >= 0 {
            Some(*i as u64)
        } else {
            None
        },
        _ => None,
    }
}

pub fn jv_as_i64(v: &JsonValue) -> (r: Option<i64>)
    ensures
        r == jv_i64_of(*v),
{
    match v {
        JsonValue::Int(i) => Some(*i),
        JsonValue::UInt(u) => if *u <= i64::MAX as u64 {
            Some(*u as i64)
        } else {
            None
        },
        _ => None,
    }
}

pub fn jv_as_u32(v: &JsonValue) -> (r: Option<u32>)
    ensures
        r == jv_u32_of(*v),
{
    match jv_as_u64(v) {
        Some(u) => if u <= u32::MAX as u64 {
            Some(u as u32)
        } else {
            None
        },
        None => None,
    }
}

pub fn jv_as_bool(v: &JsonValue) -> (r: Option<bool>)
    ensures
        r == jv_bool_of(*v),
{
    match v {
        JsonValue::Bool(b) => Some(*b),
        _ => None,
    }
}

pub fn jv_as_string(v: &JsonValue) -> (r: Option<String>)
    ensures
        r == jv_str_of(*v),
{
    match v {
        JsonValue::Str(s) => Some(s.clone()),
        _ => None,
    }
}

pub fn jv_as_char(v: &JsonValue) -> (r: Option<char>)
    ensures
        r == jv_char_of(*v),
{
    match v {
        JsonValue::Str(s) => {
            let st = s.as_str();
            if st.unicode_len() == 1 {
                Some(st.get_char(0))
            } else {
                None
            }
        },
        _ => None,
    }
}

pub fn jv_as_numtext(v: &JsonValue) -> (r: Option<String>)
    ensures
        r is Some <==> jv_numtext_of(*v) is Some,
        r matches Some(s) ==> jv_numtext_of(*v) == Some(s@),
{
    match v {
        JsonValue::Float(s) => Some(s.clone()),
        JsonValue::UInt(u) => Some(u64_dec_string(*u)),
        JsonValue::Int(i) => Some(i64_dec_string(*i)),
        _ => None,
    }
}

pub fn jv_as_numtext_or_str(v: &JsonValue) -> (r: Option<String>)
    ensures
        r is Some <==> jv_numtext_or_str_of(*v) is Some,
        r matches Some(s) ==> jv_numtext_or_str_of(*v) == Some(s@),
{
    match v {
        JsonValue::Str(s) => {
            if check_numtext(s.as_str()) {
                Some(s.clone())
            } else {
                None
            }
        },
        _ => jv_as_numtext(v),
    }
}

/// `v` is an array of exactly the strings `ss`.
pub open spec fn is_str_arr(v: JsonValue, ss: Seq<Seq<char>>) -> bool {
    &&& v matches JsonValue::Arr(items)
    &&& items@.len() == ss.len()
    &&& forall|i: int|
        0 <= i < ss.len() ==> ((#[trigger] items@[i]) matches JsonValue::Str(t) && t@ == ss[i])
}

/// `v` is an array of strings.
pub open spec fn str_arr_shaped(v: JsonValue) -> bool {
    &&& v matches JsonValue::Arr(items)
    &&& forall|i: int| 0 <= i < items@.len() ==> (#[trigger] items@[i]) is Str
}

#[verifier::loop_isolation(false)]
pub fn str_vec_to_json(ss: &Vec<String>) -> (r: JsonValue)
    ensures
        is_str_arr(r, ss.deep_view()),
{
    let n = ss.len();
    let mut items: Vec<JsonValue> = Vec::new();
    let mut i: usize = 0;
    while i < n
        invariant
            n == ss@.len(),
            i <= n,
            items@.len() == i,
            forall|j: int|
                0 <= j < i ==> ((#[trigger] items@[j]) matches JsonValue::Str(t) && t@
                    == ss.deep_view()[j]),
        decreases n - i,
    {
        items.push(JsonValue::Str(ss[i].clone()));
        i += 1;
    }
    JsonValue::Arr(items)
}

#[verifier::loop_isolation(false)]
pub fn json_to_str_vec(v: &JsonValue) -> (r: Option<Vec<String>>)
    ensures
        r is Some <==> str_arr_shaped(*v),
        r matches Some(ss) ==> is_str_arr(*v, ss.deep_view()),
{
    match v {
        JsonValue::Arr(items) => {
            let n = items.len();
            let mut out: Vec<String> = Vec::new();
            let mut i: usize = 0;
            while i < n
                invariant
                    n == items@.len(),
                    i <= n,
                    out@.len() == i,
                    forall|j: int|
                        0 <= j < i ==> ((#[trigger] items@[j]) matches JsonValue::Str(t) && t@
                            == out.deep_view()[j]),
                decreases n - i,
            {
                match &items[i] {
                    JsonValue::Str(s) => {
                        out.push(s.clone());
                    },
                    _ => {
                        return None;
                    },
                }
                i += 1;
            }
            Some(out)
        },
        _ => None,
    }
}

pub open spec fn field_u64(v: JsonValue, name: Seq<char>) -> Option<u64> {
    match jv_get(v, name) {
        Some(x) => jv_u64_of(x),
        None => None,
    }
}

pub open spec fn field_i64(v: JsonValue, name: Seq<char>) -> Option<i64> {
    match jv_get(v, name) {
        Some(x) => jv_i64_of(x),
        None => None,
    }
}

pub open spec fn field_u32(v: JsonValue, name: Seq<char>) -> Option<u32> {
    match jv_get(v, name) {
        Some(x) => jv_u32_of(x),
        None => None,
    }
}

pub open spec fn field_bool(v: JsonValue, name: Seq<char>) -> Option<bool> {
    match jv_get(v, name) {
        Some(x) => jv_bool_of(x),
        None => None,
    }
}

pub open spec fn field_str(v: JsonValue, name: Seq<char>) -> Option<String> {
    match jv_get(v, name) {
        Some(x) => jv_str_of(x),
        None => None,
    }
}

pub open spec fn field_numtext(v: JsonValue, name: Seq<char>) -> Option<Seq<char>> {
    match jv_get(v, name) {
        Some(x) => jv_numtext_of(x),
        None => None,
    }
}

pub open spec fn opt_field_u64(v: JsonValue, name: Seq<char>) -> Option<Option<u64>> {
    match jv_get(v, name) {
        None => Some(None),
        Some(JsonValue::Null) => Some(None),
        Some(x) => match jv_u64_of(x) {
            Some(u) => Some(Some(u)),
            None => None,
        },
    }
}

pub open spec fn opt_field_i64(v: JsonValue, name: Seq<char>) -> Option<Option<i64>> {
    match jv_get(v, name) {
        None => Some(None),
        Some(JsonValue::Null) => Some(None),
        Some(x) => match jv_i64_of(x) {
            Some(u) => Some(Some(u)),
            None => None,
        },
    }
}

pub open spec fn opt_field_bool(v: JsonValue, name: Seq<char>) -> Option<Option<bool>> {
    match jv_get(v, name) {
        None => Some(None),
        Some(JsonValue::Null) => Some(None),
        Some(x) => match jv_bool_of(x) {
            Some(u) => Some(Some(u)),
            None => None,
        },
    }
}

pub open spec fn opt_field_str(v: JsonValue, name: Seq<char>) -> Option<Option<String>> {
    match jv_get(v, name) {
        None => Some(None),
        Some(JsonValue::Null) => Some(None),
        Some(x) => match jv_str_of(x) {
            Some(u) => Some(Some(u)),
            None => None,
        },
    }
}

pub open spec fn opt_field_char(v: JsonValue, name: Seq<char>) -> Option<Option<char>> {
    match jv_get(v, name) {
        None => Some(None),
        Some(JsonValue::Null) => Some(None),
        Some(x) => match jv_char_of(x) {
            Some(u) => Some(Some(u)),
            None => None,
        },
    }
}

pub fn get_u64(v: &JsonValue, name: &str) -> (r: Option<u64>)
    ensures
        r == field_u64(*v, name@),
{
    match jv_obj_get(v, name) {
        Some(x) => jv_as_u64(x),
        None => None,
    }
}

pub fn get_i64(v: &JsonValue, name: &str) -> (r: Option<i64>)
    ensures
        r == field_i64(*v, name@),
{
    match jv_obj_get(v, name) {
        Some(x) => jv_as_i64(x),
        None => None,
    }
}

pub fn get_u32(v: &JsonValue, name: &str) -> (r: Option<u32>)
    ensures
        r == field_u32(*v, name@),
{
    match jv_obj_get(v, name) {
        Some(x) => jv_as_u32(x),
        None => None,
    }
}

pub fn get_bool(v: &JsonValue, name: &str) -> (r: Option<bool>)
    ensures
        r == field_bool(*v, name@),
{
    match jv_obj_get(v, name) {
        Some(x) => jv_as_bool(x),
        None => None,
    }
}

pub fn get_str(v: &JsonValue, name: &str) -> (r: Option<String>)
    ensures
        r == field_str(*v, name@),
{
    match jv_obj_get(v, name) {
        Some(x) => jv_as_string(x),
        None => None,
    }
}

pub fn get_numtext(v: &JsonValue, name: &str) -> (r: Option<String>)
    ensures
        r is Some <==> field_numtext(*v, name@) is Some,
        r matches Some(s) ==> field_numtext(*v, name@) == Some(s@),
{
    match jv_obj_get(v, name) {
        Some(x) => jv_as_numtext(x),
        None => None,
    }
}

pub fn get_opt_u64(v: &JsonValue, name: &str) -> (r: Option<Option<u64>>)
    ensures
        r == opt_field_u64(*v, name@),
{
    match jv_obj_get(v, name) {
        None => Some(None),
        Some(x) => match x {
            JsonValue::Null => Some(None),
            _ => match jv_as_u64(x) {
                Some(u) => Some(Some(u)),
                None => None,
            },
        },
    }
}

pub fn get_opt_i64(v: &JsonValue, name: &str) -> (r: Option<Option<i64>>)
    ensures
        r == opt_field_i64(*v, name@),
{
    match jv_obj_get(v, name) {
        None => Some(None),
        Some(x) => match x {
            JsonValue::Null => Some(None),
            _ => match jv_as_i64(x) {
                Some(u) => Some(Some(u)),
                None => None,
            },
        },
    }
}

pub fn get_opt_bool(v: &JsonValue, name: &str) -> (r: Option<Option<bool>>)
    ensures
        r == opt_field_bool(*v, name@),
{
    match jv_obj_get(v, name) {
        None => Some(None),
        Some(x) => match x {
            JsonValue::Null => Some(None),
            _ => match jv_as_bool(x) {
                Some(u) => Some(Some(u)),
                None => None,
            },
        },
    }
}

pub fn get_opt_str(v: &JsonValue, name: &str) -> (r: Option<Option<String>>)
    ensures
        r == opt_field_str(*v, name@),
{
    match jv_obj_get(v, name) {
        None => Some(None),
        Some(x) => match x {
            JsonValue::Null => Some(None),
            _ => match jv_as_string(x) {
                Some(u) => Some(Some(u)),
                None => None,
            },
        },
    }
}

pub fn get_opt_char(v: &JsonValue, name: &str) -> (r: Option<Option<char>>)
    ensures
        r == opt_field_char(*v, name@),
{
    match jv_obj_get(v, name) {
        None => Some(None),
        Some(x) => match x {
            JsonValue::Null => Some(None),
            _ => match jv_as_char(x) {
                Some(u) => Some(Some(u)),
                None => None,
            },
        },
    }
}

/// The optional string-array field `name` is absent, null, or a string array.
pub open spec fn opt_strvec_ok(v: JsonValue, name: Seq<char>) -> bool {
    match jv_get(v, name) {
        None => true,
        Some(JsonValue::Null) => true,
        Some(x) => str_arr_shaped(x),
    }
}

/// `o` is what the optional string-array field `name` holds.
pub open spec fn opt_strvec_val(v: JsonValue, name: Seq<char>, o: Option<Seq<Seq<char>>>) -> bool {
    match jv_get(v, name) {
        None => o is None,
        Some(JsonValue::Null) => o is None,
        Some(x) => (o matches Some(ss) && is_str_arr(x, ss)),
    }
}

pub fn get_str_vec(v: &JsonValue, name: &str) -> (r: Option<Vec<String>>)
    ensures
        r is Some <==> (jv_get(*v, name@) matches Some(x) && str_arr_shaped(x)),
        r matches Some(ss) ==> (jv_get(*v, name@) matches Some(x) && is_str_arr(
            x,
            ss.deep_view(),
        )),
{
    match jv_obj_get(v, name) {
        Some(x) => json_to_str_vec(x),
        None => None,
    }
}

pub fn get_opt_str_vec(v: &JsonValue, name: &str) -> (r: Option<Option<Vec<String>>>)
    ensures
        r is Some <==> opt_strvec_ok(*v, name@),
        r matches Some(o) ==> opt_strvec_val(
            *v,
            name@,
            match o {
                Some(ss) => Some(ss.deep_view()),
                None => None,
            },
        ),
{
    match jv_obj_get(v, name) {
        None => Some(None),
        Some(x) => match x {
            JsonValue::Null => Some(None),
            _ => match json_to_str_vec(x) {
                Some(ss) => Some(Some(ss)),
                None => None,
            },
        },
    }
}

/// Relies on `String::from(char)`: the string of exactly that character.
#[verifier::external_body]
fn char_string(c: char) -> (r: String)
    ensures
        r@ == seq![c],
{
    String::from(c)
}

/// An optional string encodes as the string or as an explicit null.
pub open spec fn opt_str_json(v: JsonValue, o: Option<String>) -> bool {
    match o {
        None => v is Null,
        Some(s) => (v matches JsonValue::Str(t) && t@ == s@),
    }
}

pub open spec fn opt_u64_json(v: JsonValue, o: Option<u64>) -> bool {
    match o {
        None => v is Null,
        Some(u) => v == JsonValue::UInt(u),
    }
}

pub open spec fn opt_i64_json(v: JsonValue, o: Option<i64>) -> bool {
    match o {
        None => v is Null,
        Some(u) => v == JsonValue::Int(u),
    }
}

pub open spec fn opt_u32_json(v: JsonValue, o: Option<u32>) -> bool {
    match o {
        None => v is Null,
        Some(u) => v == JsonValue::UInt(u as u64),
    }
}

pub open spec fn opt_bool_json(v: JsonValue, o: Option<bool>) -> bool {
    match o {
        None => v is Null,
        Some(b) => v == JsonValue::Bool(b),
    }
}

/// A character encodes as a one-character string.
pub open spec fn char_json(v: JsonValue, c: char) -> bool {
    v matches JsonValue::Str(t) && t@ == seq![c]
}

pub open spec fn opt_char_json(v: JsonValue, o: Option<char>) -> bool {
    match o {
        None => v is Null,
        Some(c) => char_json(v, c),
    }
}

pub open spec fn opt_strvec_json(v: JsonValue, o: Option<Seq<Seq<char>>>) -> bool {
    match o {
        None => v is Null,
        Some(ss) => is_str_arr(v, ss),
    }
}

pub fn jv_of_opt_str(o: &Option<String>) -> (r: JsonValue)
    ensures
        opt_str_json(r, *o),
{
    match o {
        None => JsonValue::Null,
        Some(s) => JsonValue::Str(s.clone()),
    }
}

pub fn jv_of_opt_u64(o: &Option<u64>) -> (r: JsonValue)
    ensures
        opt_u64_json(r, *o),
{
    match o {
        None => JsonValue::Null,
        Some(u) => JsonValue::UInt(*u),
    }
}

pub fn jv_of_opt_i64(o: &Option<i64>) -> (r: JsonValue)
    ensures
        opt_i64_json(r, *o),
{
    match o {
        None => JsonValue::Null,
        Some(u) => JsonValue::Int(*u),
    }
}

pub fn jv_of_opt_u32(o: &Option<u32>) -> (r: JsonValue)
    ensures
        opt_u32_json(r, *o),
{
    match o {
        None => JsonValue::Null,
        Some(u) => JsonValue::UInt(*u as u64),
    }
}

pub fn jv_of_opt_bool(o: &Option<bool>) -> (r: JsonValue)
    ensures
        opt_bool_json(r, *o),
{
    match o {
        None => JsonValue::Null,
        Some(b) => JsonValue::Bool(*b),
    }
}

pub fn jv_of_char(c: char) -> (r: JsonValue)
    ensures
        char_json(r, c),
{
    JsonValue::Str(char_string(c))
}

pub fn jv_of_opt_char(o: &Option<char>) -> (r: JsonValue)
    ensures
        opt_char_json(r, *o),
{
    match o {
        None => JsonValue::Null,
        Some(c) => jv_of_char(*c),
    }
}

pub fn jv_of_opt_str_vec(o: &Option<Vec<String>>) -> (r: JsonValue)
    ensures
        opt_strvec_json(
            r,
            match *o {
                None => None,
                Some(ss) => Some(ss.deep_view()),
            },
        ),
{
    match o {
        None => JsonValue::Null,
        Some(ss) => str_vec_to_json(ss),
    }
}

/// An array of one-character strings.
pub open spec fn is_char_arr(v: JsonValue, cs: Seq<char>) -> bool {
    &&& v matches JsonValue::Arr(items)
    &&& items@.len() == cs.len()
    &&& forall|i: int| 0 <= i < cs.len() ==> char_json(#[trigger] items@[i], cs[i])
}

pub open spec fn opt_charvec_json(v: JsonValue, o: Option<Seq<char>>) -> bool {
    match o {
        None => v is Null,
        Some(cs) => is_char_arr(v, cs),
    }
}

#[verifier::loop_isolation(false)]
pub fn char_vec_to_json(cs: &Vec<char>) -> (r: JsonValue)
    ensures
        is_char_arr(r, cs@),
{
    let n = cs.len();
    let mut items: Vec<JsonValue> = Vec::new();
    let mut i: usize = 0;
    while i < n
        invariant
            n == cs@.len(),
            i <= n,
            items@.len() == i,
            forall|j: int| 0 <= j < i ==> char_json(#[trigger] items@[j], cs@[j]),
        decreases n - i,
    {
        items.push(jv_of_char(cs[i]));
        i += 1;
    }
    JsonValue::Arr(items)
}

pub fn jv_of_opt_char_vec(o: &Option<Vec<char>>) -> (r: JsonValue)
    ensures
        opt_charvec_json(
            r,
            match *o {
                None => None,
                Some(cs) => Some(cs@),
            },
        ),
{
    match o {
        None => JsonValue::Null,
        Some(cs) => char_vec_to_json(cs),
    }
}

/// A name/value list whose values are string arrays, as a JSON object.
pub open spec fn is_strvec_map(v: JsonValue, m: Seq<(String, Vec<String>)>) -> bool {
    &&& v matches JsonValue::Obj(fs)
    &&& fs@.len() == m.len()
    &&& forall|i: int|
        0 <= i < m.len() ==> (#[trigger] fs@[i]).0@ == m[i].0@ && is_str_arr(
            fs@[i].1,
            m[i].1.deep_view(),
        )
}

#[verifier::loop_isolation(false)]
pub fn strvec_map_to_json(m: &Vec<(String, Vec<String>)>) -> (r: JsonValue)
    ensures
        is_strvec_map(r, m@),
{
    let n = m.len();
    let mut fs: Vec<(String, JsonValue)> = Vec::new();
    let mut i: usize = 0;
    while i < n
        invariant
            n == m@.len(),
            i <= n,
            fs@.len() == i,
            forall|j: int|
                0 <= j < i ==> (#[trigger] fs@[j]).0@ == m@[j].0@ && is_str_arr(
                    fs@[j].1,
                    m@[j].1.deep_view(),
                ),
        decreases n - i,
    {
        fs.push((m[i].0.clone(), str_vec_to_json(&m[i].1)));
        i += 1;
    }
    JsonValue::Obj(fs)
}

pub open spec fn jv_u8_of(v: JsonValue) -> Option<u8> {
    match jv_u64_of(v) {
        Some(u) => if u <= u8::MAX as u64 {
            Some(u as u8)
        } else {
            None
        },
        None => None,
    }
}

pub open spec fn field_u8(v: JsonValue, name: Seq<char>) -> Option<u8> {
    match jv_get(v, name) {
        Some(x) => jv_u8_of(x),
        None => None,
    }
}

pub fn get_u8(v: &JsonValue, name: &str) -> (r: Option<u8>)
    ensures
        r == field_u8(*v, name@),
{
    match jv_obj_get(v, name) {
        Some(x) => match jv_as_u64(x) {
            Some(u) => if u <= u8::MAX as u64 {
                Some(u as u8)
            } else {
                None
            },
            None => None,
        },
        None => None,
    }
}

/// The optional numeric-text field `name` is absent, null, or numeric.
pub open spec fn opt_numtext_ok(v: JsonValue, name: Seq<char>) -> bool {
    match jv_get(v, name) {
        None => true,
        Some(JsonValue::Null) => true,
        Some(x) => jv_numtext_of(x) is Some,
    }
}

/// `o` is the decimal text the optional numeric field `name` holds.
pub open spec fn opt_numtext_val(v: JsonValue, name: Seq<char>, o: Option<Seq<char>>) -> bool {
    match jv_get(v, name) {
        None => o is None,
        Some(JsonValue::Null) => o is None,
        Some(x) => (o matches Some(t) && jv_numtext_of(x) == Some(t)),
    }
}

pub fn get_opt_numtext(v: &JsonValue, name: &str) -> (r: Option<Option<String>>)
    ensures
        r is Some <==> opt_numtext_ok(*v, name@),
        r matches Some(o) ==> opt_numtext_val(
            *v,
            name@,
            match o {
                Some(s) => Some(s@),
                None => None,
            },
        ),
{
    match jv_obj_get(v, name) {
        None => Some(None),
        Some(x) => match x {
            JsonValue::Null => Some(None),
            _ => match jv_as_numtext(x) {
                Some(s) => Some(Some(s)),
                None => None,
            },
        },
    }
}

pub fn get_numtext_or_str(v: &JsonValue, name: &str) -> (r: Option<String>)
    ensures
        r is Some <==> (jv_get(*v, name@) matches Some(x) && jv_numtext_or_str_of(x) is Some),
        r matches Some(s) ==> (jv_get(*v, name@) matches Some(x) && jv_numtext_or_str_of(x)
            == Some(s@)),
{
    match jv_obj_get(v, name) {
        Some(x) => jv_as_numtext_or_str(x),
        None => None,
    }
}

/// An array of numeric nodes, each read as its decimal text.
pub open spec fn is_numtext_arr(v: JsonValue, ts: Seq<Seq<char>>) -> bool {
    &&& v matches JsonValue::Arr(items)
    &&& items@.len() == ts.len()
    &&& forall|i: int| 0 <= i < ts.len() ==> jv_numtext_of(#[trigger] items@[i]) == Some(ts[i])
}

pub open spec fn numtext_arr_shaped(v: JsonValue) -> bool {
    &&& v matches JsonValue::Arr(items)
    &&& forall|i: int| 0 <= i < items@.len() ==> jv_numtext_of(#[trigger] items@[i]) is Some
}

#[verifier::loop_isolation(false)]
pub fn json_to_numtext_vec(v: &JsonValue) -> (r: Option<Vec<String>>)
    ensures
        r is Some <==> numtext_arr_shaped(*v),
        r matches Some(ts) ==> is_numtext_arr(*v, ts.deep_view()),
{
    match v {
        JsonValue::Arr(items) => {
            let n = items.len();
            let mut out: Vec<String> = Vec::new();
            let mut i: usize = 0;
            while i < n
                invariant
                    n == items@.len(),
                    i <= n,
                    out@.len() == i,
                    forall|j: int|
                        0 <= j < i ==> jv_numtext_of(#[trigger] items@[j]) == Some(
                            out.deep_view()[j],
                        ),
                decreases n - i,
            {
                match jv_as_numtext(&items[i]) {
                    Some(s) => {
                        out.push(s);
                    },
                    _ => {
                        return None;
                    },
                }
                i += 1;
            }
            Some(out)
        },
        _ => None,
    }
}

/// The optional character-array field `name` is absent, null, or an array
/// of one-character strings.
pub open spec fn opt_charvec_ok(v: JsonValue, name: Seq<char>) -> bool {
    match jv_get(v, name) {
        None => true,
        Some(JsonValue::Null) => true,
        Some(x) => (x matches JsonValue::Arr(items) && forall|i: int|
            0 <= i < items@.len() ==> ((#[trigger] items@[i]) matches JsonValue::Str(t) && t@.len()
                == 1)),
    }
}

/// `o` is what the optional character-array field `name` holds.
pub open spec fn opt_charvec_val(v: JsonValue, name: Seq<char>, o: Option<Seq<char>>) -> bool {
    match jv_get(v, name) {
        None => o is None,
        Some(JsonValue::Null) => o is None,
        Some(x) => (o matches Some(cs) && is_char_arr(x, cs)),
    }
}

#[verifier::loop_isolation(false)]
fn json_to_char_vec(v: &JsonValue) -> (r: Option<Vec<char>>)
    ensures
        r is Some <==> (v matches JsonValue::Arr(items) && forall|i: int|
            0 <= i < items@.len() ==> ((#[trigger] items@[i]) matches JsonValue::Str(t) && t@.len()
                == 1)),
        r matches Some(cs) ==> is_char_arr(*v, cs@),
{
    match v {
        JsonValue::Arr(items) => {
            let n = items.len();
            let mut out: Vec<char> = Vec::new();
            let mut i: usize = 0;
            while i < n
                invariant
                    n == items@.len(),
                    i <= n,
                    out@.len() == i,
                    forall|j: int| 0 <= j < i ==> char_json(#[trigger] items@[j], out@[j]),
                    forall|j: int|
                        0 <= j < i ==> ((#[trigger] items@[j]) matches JsonValue::Str(t)
                            && t@.len() == 1),
                decreases n - i,
            {
                match jv_as_char(&items[i]) {
                    Some(c) => {
                        out.push(c);
                        proof {
                            assert((items@[i as int]->Str_0)@ =~= seq![c]);
                        }
                    },
                    None => {
                        return None;
                    },
                }
                i += 1;
            }
            Some(out)
        },
        _ => None,
    }
}

pub fn get_opt_char_vec(v: &JsonValue, name: &str) -> (r: Option<Option<Vec<char>>>)
    ensures
        r is Some <==> opt_charvec_ok(*v, name@),
        r matches Some(o) ==> opt_charvec_val(
            *v,
            name@,
            match o {
                Some(cs) => Some(cs@),
                None => None,
            },
        ),
{
    match jv_obj_get(v, name) {
        None => Some(None),
        Some(x) => match x {
            JsonValue::Null => Some(None),
            _ => match json_to_char_vec(x) {
                Some(cs) => Some(Some(cs)),
                None => None,
            },
        },
    }
}

/// Lookup lands on index `k` when every earlier field is named otherwise.
pub proof fn lemma_obj_get_at(fields: Seq<(String, JsonValue)>, name: Seq<char>, k: int)
    requires
        0 <= k < fields.len(),
        fields[k].0@ == name,
        forall|j: int| 0 <= j < k ==> (#[trigger] fields[j]).0@ != name,
    ensures
        obj_get(fields, name) == Some(fields[k].1),
    decreases k,
{
    if k == 0 {
    } else {
        let rest = fields.subrange(1, fields.len() as int);
        assert forall|j: int| 0 <= j < k - 1 implies (#[trigger] rest[j]).0@ != name by {
            assert(rest[j] == fields[j + 1]);
        }
        assert(rest[k - 1] == fields[k]);
        lemma_obj_get_at(rest, name, k - 1);
    }
}

/// Optional strings agree value for value.
pub open spec fn opt_str_eq(a: Option<String>, b: Option<String>) -> bool {
    match (a, b) {
        (None, None) => true,
        (Some(x), Some(y)) => x@ == y@,
        _ => false,
    }
}

/// A name/value list of strings encodes as a JSON object in the same order.
pub open spec fn is_str_map(v: JsonValue, m: Seq<(String, String)>) -> bool {
    &&& v matches JsonValue::Obj(fs)
    &&& fs@.len() == m.len()
    &&& forall|i: int|
        0 <= i < m.len() ==> (#[trigger] fs@[i]).0@ == m[i].0@ && (fs@[i].1
            matches JsonValue::Str(t) && t@ == m[i].1@)
}

#[verifier::loop_isolation(false)]
pub fn str_map_to_json(m: &Vec<(String, String)>) -> (r: JsonValue)
    ensures
        is_str_map(r, m@),
{
    let n = m.len();
    let mut fs: Vec<(String, JsonValue)> = Vec::new();
    let mut i: usize = 0;
    while i < n
        invariant
            n == m@.len(),
            i <= n,
            fs@.len() == i,
            forall|j: int|
                0 <= j < i ==> (#[trigger] fs@[j]).0@ == m@[j].0@ && (fs@[j].1
                    matches JsonValue::Str(t) && t@ == m@[j].1@),
        decreases n - i,
    {
        fs.push((m[i].0.clone(), JsonValue::Str(m[i].1.clone())));
        i += 1;
    }
    JsonValue::Obj(fs)
}

} // verus!
