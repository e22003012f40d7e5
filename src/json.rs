//! JSON bodies as the library reads them. serde_json does the reading; the
//! library walks the result.
use vstd::prelude::*;

verus! {

/// A JSON value. A number keeps its decimal text, so that no precision is
/// lost before a field is read with the integer type it is meant to have.
#[derive(Debug, PartialEq, Eq)]
pub enum Json {
    Null,
    Bool(bool),
    Number(String),
    Str(String),
    Array(Vec<Json>),
    Object(Vec<(String, Json)>),
}

#[verifier::external_type_specification]
#[verifier::external_body]
pub struct ExJsonValue(serde_json::Value);

/// The value that serde_json reads from a body; `None` where the bytes are
/// not JSON text.
pub uninterp spec fn json_of(body: Seq<u8>) -> Option<Json>;

/// Relies on serde_json::from_slice: reads JSON text into a value that
/// depends on the bytes alone, or fails where the bytes are no JSON text.
#[verifier::external_body]
pub(crate) fn parse_json(body: &[u8]) -> (r: Option<Json>)
    ensures
        r == json_of(body@),
{
    serde_json::from_slice::<serde_json::Value>(body).ok().map(json_from_value)
}

/// Relies on serde_json::Value's variants and on the text that serde_json
/// prints for a number: moves each node of a parsed value into the matching
/// `Json` node. Only `parse_json` uses it.
#[verifier::external_body]
fn json_from_value(v: serde_json::Value) -> Json {
    match v {
        serde_json::Value::Null => Json::Null,
        serde_json::Value::Bool(b) => Json::Bool(b),
        serde_json::Value::Number(n) => Json::Number(n.to_string()),
        serde_json::Value::String(s) => Json::Str(s),
        serde_json::Value::Array(a) => Json::Array(a.into_iter().map(json_from_value).collect()),
        serde_json::Value::Object(m) => Json::Object(
            m.into_iter().map(|(k, x)| (k, json_from_value(x))).collect(),
        ),
    }
}

/// Whether `s` and `t` hold the same characters.
pub fn text_is(s: &String, t: &str) -> (r: bool)
    ensures
        r == (s@ == t@),
{
    *s == t.to_owned()
}

pub open spec fn is_digit(c: char) -> bool {
    '0' <= c && c <= '9'
}

/// The number that a string of decimal digits writes.
pub open spec fn digits_value(s: Seq<char>) -> int
    decreases s.len(),
{
    if s.len() == 0 {
        0
    } else {
        digits_value(s.drop_last()) * 10 + (s.last() as int - '0' as int)
    }
}

/// The `u64` that a JSON number's text stands for, if it is one: a
/// non-empty run of digits whose value fits.
pub open spec fn decimal_u64(s: Seq<char>) -> Option<u64> {
    if s.len() > 0 && (forall|i: int| 0 <= i < s.len() ==> is_digit(#[trigger] s[i]))
        && digits_value(s) <= u64::MAX {
        Some(digits_value(s) as u64)
    } else {
        None
    }
}

/// Reads the text of a JSON number as a `u64`: `None` for a negative number,
/// a fraction, an exponent or a value that does not fit.
pub fn parse_u64(t: &str) -> (r: Option<u64>)
    ensures
        r == decimal_u64(t@),
{
    let ghost s = t;
    let n = t.unicode_len();
    if n == 0 {
        return None;
    }
    let mut i: usize = 0;
    let mut acc: u64 = 0;
    let mut fits = true;
    let ghost mut val: int = 0;
    while i < n
        invariant
            n == s@.len(),
            t@ == s@,
            0 <= i <= n,
            val == digits_value(s@.subrange(0, i as int)),
            fits ==> acc == val,
            !fits ==> val > u64::MAX,
            val >= 0,
            forall|k: int| 0 <= k < i ==> is_digit(#[trigger] s@[k]),
        decreases n - i,
    {
        let c = t.get_char(i);
        if !('0' <= c && c <= '9') {
            return None;
        }
        let d: u64 = (c as u32 - '0' as u32) as u64;
        proof {
            let p = s@.subrange(0, i as int + 1);
            assert(p.drop_last() =~= s@.subrange(0, i as int));
            assert(p.last() == c);
            let old_val = val;
            val = old_val * 10 + d;
            assert(val >= old_val) by (nonlinear_arith)
                requires
                    old_val >= 0,
                    d >= 0,
                    val == old_val * 10 + d,
            ;
        }
        if fits && acc <= (u64::MAX - d) / 10 {
            proof {
                assert(acc * 10 + d <= u64::MAX) by (nonlinear_arith)
                    requires
                        acc <= (u64::MAX - d) / 10,
                        d <= 9,
                ;
            }
            acc = acc * 10 + d;
        } else {
            proof {
                if fits {
                    assert(acc * 10 + d > u64::MAX) by (nonlinear_arith)
                        requires
                            acc > (u64::MAX - d) / 10,
                            d <= 9,
                    ;
                }
            }
            fits = false;
        }
        i = i + 1;
    }
    assert(s@.subrange(0, n as int) =~= s@);
    if fits {
        Some(acc)
    } else {
        None
    }
}

/// The value that the first field named `key` holds.
pub open spec fn find_field(fields: Seq<(String, Json)>, key: Seq<char>) -> Option<Json>
    decreases fields.len(),
{
    if fields.len() == 0 {
        None
    } else if fields[0].0@ == key {
        Some(fields[0].1)
    } else {
        find_field(fields.drop_first(), key)
    }
}

/// The field `key` of an object; `None` where `j` is no object or has no
/// such field.
pub open spec fn spec_field(j: Json, key: Seq<char>) -> Option<Json> {
    match j {
        Json::Object(fields) => find_field(fields@, key),
        _ => None,
    }
}

pub open spec fn deref_json(o: Option<&Json>) -> Option<Json> {
    match o {
        Some(x) => Some(*x),
        None => None,
    }
}

/// Looks up the first field named `key` among the fields of an object.
pub fn lookup<'a>(fields: &'a Vec<(String, Json)>, key: &str) -> (r: Option<&'a Json>)
    ensures
        deref_json(r) == find_field(fields@, key@),
{
    let n = fields.len();
    let mut i: usize = 0;
    assert(fields@.subrange(0, n as int) =~= fields@);
    while i < n
        invariant
            n == fields@.len(),
            0 <= i <= n,
            find_field(fields@.subrange(i as int, n as int), key@) == find_field(fields@, key@),
        decreases n - i,
    {
        let rest = Ghost(fields@.subrange(i as int, n as int));
        assert(rest@[0] == fields@[i as int]);
        assert(rest@.drop_first() =~= fields@.subrange(i as int + 1, n as int));
        if text_is(&fields[i].0, key) {
            assert(find_field(rest@, key@) == Some(fields@[i as int].1));
            return Some(&fields[i].1);
        }
        i = i + 1;
    }
    assert(fields@.subrange(n as int, n as int).len() == 0);
    None
}

/// Looks up the field `key` of an object.
pub fn field<'a>(j: &'a Json, key: &str) -> (r: Option<&'a Json>)
    ensures
        deref_json(r) == spec_field(*j, key@),
{
    match j {
        Json::Object(fields) => lookup(fields, key),
        _ => None,
    }
}

/// The character of a digit below ten.
pub open spec fn digit_char(d: nat) -> char {
    seq!['0', '1', '2', '3', '4', '5', '6', '7', '8', '9'][d as int]
}

/// The decimal digits of `n`, without sign or leading zeros.
pub open spec fn decimal_text(n: nat) -> Seq<char>
    decreases n,
{
    if n < 10 {
        seq![digit_char(n % 10)]
    } else {
        decimal_text(n / 10).push(digit_char(n % 10))
    }
}

/// The one-character text of a digit below ten.
fn digit_text(d: u64) -> (r: String)
    requires
        d < 10,
    ensures
        r@ == seq![digit_char(d as nat)],
{
    let t = if d == 0 {
        "0"
    } else if d == 1 {
        "1"
    } else if d == 2 {
        "2"
    } else if d == 3 {
        "3"
    } else if d == 4 {
        "4"
    } else if d == 5 {
        "5"
    } else if d == 6 {
        "6"
    } else if d == 7 {
        "7"
    } else if d == 8 {
        "8"
    } else {
        "9"
    };
    proof {
        reveal_strlit("0");
        reveal_strlit("1");
        reveal_strlit("2");
        reveal_strlit("3");
        reveal_strlit("4");
        reveal_strlit("5");
        reveal_strlit("6");
        reveal_strlit("7");
        reveal_strlit("8");
        reveal_strlit("9");
    }
    let r = String::from_str(t);
    assert(r@ =~= seq![digit_char(d as nat)]);
    r
}

/// Writes `n` in decimal digits, without sign or leading zeros.
pub fn decimal_string(n: u64) -> (r: String)
    ensures
        r@ == decimal_text(n as nat),
{
    let mut acc = digit_text(n % 10);
    let mut m: u64 = n / 10;
    proof {
        if n >= 10 {
            assert(decimal_text(n as nat) =~= decimal_text(m as nat) + acc@);
        }
    }
    while m > 0
        invariant
            m > 0 ==> decimal_text(n as nat) == decimal_text(m as nat) + acc@,
            m == 0 ==> decimal_text(n as nat) == acc@,
        decreases m,
    {
        let d = digit_text(m % 10);
        proof {
            if m >= 10 {
                assert(decimal_text(m as nat) + acc@ =~= decimal_text((m / 10) as nat) + (d@
                    + acc@));
            } else {
                assert(decimal_text(m as nat) + acc@ =~= d@ + acc@);
            }
        }
        acc = d.concat(acc.as_str());
        m = m / 10;
    }
    acc
}

/// The decimal text of a number is a run of digits that writes it.
pub proof fn lemma_decimal_text_value(n: nat)
    ensures
        decimal_text(n).len() > 0,
        forall|i: int| 0 <= i < decimal_text(n).len() ==> is_digit(#[trigger] decimal_text(n)[i]),
        digits_value(decimal_text(n)) == n,
    decreases n,
{
    let t = decimal_text(n);
    let digits = seq!['0', '1', '2', '3', '4', '5', '6', '7', '8', '9'];
    let d = digit_char(n % 10);
    assert(d as int - '0' as int == n % 10 && is_digit(d)) by {
        assert(digits[0] == '0' && digits[1] == '1' && digits[2] == '2' && digits[3] == '3');
        assert(digits[4] == '4' && digits[5] == '5' && digits[6] == '6' && digits[7] == '7');
        assert(digits[8] == '8' && digits[9] == '9');
    }
    assert(t.last() == d);
    if n < 10 {
        assert(t.drop_last() =~= Seq::<char>::empty());
        assert(digits_value(t) == digits_value(t.drop_last()) * 10 + (d as int - '0' as int));
    } else {
        lemma_decimal_text_value(n / 10);
        assert(t.drop_last() =~= decimal_text(n / 10));
        assert((n / 10) * 10 + n % 10 == n) by (nonlinear_arith);
        assert(digits_value(t) == digits_value(t.drop_last()) * 10 + (d as int - '0' as int));
    }
}


/// The field `key` read as a `u64`.
pub open spec fn spec_field_u64(j: Json, key: Seq<char>) -> Option<u64> {
    match spec_field(j, key) {
        Some(Json::Number(t)) => decimal_u64(t@),
        _ => None,
    }
}

/// Reads the field `key` of an object as a `u64`.
pub fn field_u64(j: &Json, key: &str) -> (r: Option<u64>)
    ensures
        r == spec_field_u64(*j, key@),
{
    match field(j, key) {
        Some(Json::Number(t)) => parse_u64(t.as_str()),
        _ => None,
    }
}

/// The field `key` read as a `usize`.
pub open spec fn spec_field_usize(j: Json, key: Seq<char>) -> Option<usize> {
    match spec_field_u64(j, key) {
        Some(v) => if v <= usize::MAX {
            Some(v as usize)
        } else {
            None
        },
        None => None,
    }
}

/// Reads the field `key` of an object as a `usize`.
pub fn field_usize(j: &Json, key: &str) -> (r: Option<usize>)
    ensures
        r == spec_field_usize(*j, key@),
{
    match field_u64(j, key) {
        Some(v) => if v <= usize::MAX as u64 {
            Some(v as usize)
        } else {
            None
        },
        None => None,
    }
}

/// The field `key` read as a string.
pub open spec fn spec_field_str(j: Json, key: Seq<char>) -> Option<String> {
    match spec_field(j, key) {
        Some(Json::Str(s)) => Some(s),
        _ => None,
    }
}

/// Reads the field `key` of an object as a string.
pub fn field_str(j: &Json, key: &str) -> (r: Option<String>)
    ensures
        r == spec_field_str(*j, key@),
{
    match field(j, key) {
        Some(Json::Str(s)) => Some(s.clone()),
        _ => None,
    }
}

/// The field `key` read as a string that may be missing or null: the outer
/// `None` is a field of another kind.
pub open spec fn spec_field_opt_str(j: Json, key: Seq<char>) -> Option<Option<String>> {
    match spec_field(j, key) {
        Some(Json::Str(s)) => Some(Some(s)),
        Some(Json::Null) | None => Some(None),
        _ => None,
    }
}

/// Reads the field `key` of an object as a string that may be missing or null.
pub fn field_opt_str(j: &Json, key: &str) -> (r: Option<Option<String>>)
    ensures
        r == spec_field_opt_str(*j, key@),
{
    match field(j, key) {
        Some(Json::Str(s)) => Some(Some(s.clone())),
        Some(Json::Null) | None => Some(None),
        _ => None,
    }
}

/// The field `key` read as a boolean.
pub open spec fn spec_field_bool(j: Json, key: Seq<char>) -> Option<bool> {
    match spec_field(j, key) {
        Some(Json::Bool(b)) => Some(b),
        _ => None,
    }
}

/// Reads the field `key` of an object as a boolean.
pub fn field_bool(j: &Json, key: &str) -> (r: Option<bool>)
    ensures
        r == spec_field_bool(*j, key@),
{
    match field(j, key) {
        Some(Json::Bool(b)) => Some(*b),
        _ => None,
    }
}

/// The `i64` that a JSON number's text stands for, if it is one.
pub open spec fn decimal_i64(s: Seq<char>) -> Option<i64> {
    if s.len() > 0 && s[0] == '-' {
        match decimal_u64(s.drop_first()) {
            Some(u) => if u <= 0x8000_0000_0000_0000 {
                Some((-(u as int)) as i64)
            } else {
                None
            },
            None => None,
        }
    } else {
        match decimal_u64(s) {
            Some(u) => if u <= i64::MAX {
                Some(u as i64)
            } else {
                None
            },
            None => None,
        }
    }
}

/// Reads the text of a JSON number as an `i64`.
pub fn parse_i64(t: &str) -> (r: Option<i64>)
    ensures
        r == decimal_i64(t@),
{
    let n = t.unicode_len();
    if n > 0 && t.get_char(0) == '-' {
        let rest = t.substring_char(1, n);
        assert(rest@ =~= t@.drop_first());
        match parse_u64(rest) {
            Some(u) => if u <= 0x8000_0000_0000_0000 {
                if u == 0x8000_0000_0000_0000 {
                    Some(i64::MIN)
                } else {
                    Some(-(u as i64))
                }
            } else {
                None
            },
            None => None,
        }
    } else {
        match parse_u64(t) {
            Some(u) => if u <= 0x7fff_ffff_ffff_ffff {
                Some(u as i64)
            } else {
                None
            },
            None => None,
        }
    }
}

/// The field `key` read as an `i64`.
pub open spec fn spec_field_i64(j: Json, key: Seq<char>) -> Option<i64> {
    match spec_field(j, key) {
        Some(Json::Number(t)) => decimal_i64(t@),
        _ => None,
    }
}

/// Reads the field `key` of an object as an `i64`.
pub fn field_i64(j: &Json, key: &str) -> (r: Option<i64>)
    ensures
        r == spec_field_i64(*j, key@),
{
    match field(j, key) {
        Some(Json::Number(t)) => parse_i64(t.as_str()),
        _ => None,
    }
}

/// The field `key` read as an `i32`.
pub open spec fn spec_field_i32(j: Json, key: Seq<char>) -> Option<i32> {
    match spec_field_i64(j, key) {
        Some(v) => if i32::MIN <= v <= i32::MAX {
            Some(v as i32)
        } else {
            None
        },
        None => None,
    }
}

/// Reads the field `key` of an object as an `i32`.
pub fn field_i32(j: &Json, key: &str) -> (r: Option<i32>)
    ensures
        r == spec_field_i32(*j, key@),
{
    match field_i64(j, key) {
        Some(v) => if -2147483648 <= v && v <= 2147483647 {
            Some(v as i32)
        } else {
            None
        },
        None => None,
    }
}

/// The field `key` read as a `u64` that may be missing or null: the outer
/// `None` is a field of another kind.
pub open spec fn spec_field_opt_u64(j: Json, key: Seq<char>) -> Option<Option<u64>> {
    match spec_field(j, key) {
        Some(Json::Number(t)) => match decimal_u64(t@) {
            Some(v) => Some(Some(v)),
            None => None,
        },
        Some(Json::Null) | None => Some(None),
        _ => None,
    }
}

/// Reads the field `key` of an object as a `u64` that may be missing or null.
pub fn field_opt_u64(j: &Json, key: &str) -> (r: Option<Option<u64>>)
    ensures
        r == spec_field_opt_u64(*j, key@),
{
    match field(j, key) {
        Some(Json::Number(t)) => match parse_u64(t.as_str()) {
            Some(v) => Some(Some(v)),
            None => None,
        },
        Some(Json::Null) | None => Some(None),
        _ => None,
    }
}

/// The field `key` read as an `i32` that may be missing or null.
pub open spec fn spec_field_opt_i32(j: Json, key: Seq<char>) -> Option<Option<i32>> {
    match spec_field(j, key) {
        Some(Json::Number(_)) => match spec_field_i32(j, key) {
            Some(v) => Some(Some(v)),
            None => None,
        },
        Some(Json::Null) | None => Some(None),
        _ => None,
    }
}

/// Reads the field `key` of an object as an `i32` that may be missing or null.
pub fn field_opt_i32(j: &Json, key: &str) -> (r: Option<Option<i32>>)
    ensures
        r == spec_field_opt_i32(*j, key@),
{
    match field(j, key) {
        Some(Json::Number(_)) => match field_i32(j, key) {
            Some(v) => Some(Some(v)),
            None => None,
        },
        Some(Json::Null) | None => Some(None),
        _ => None,
    }
}

/// The items of the array in the field `key`.
pub open spec fn spec_field_array(j: Json, key: Seq<char>) -> Option<Seq<Json>> {
    match spec_field(j, key) {
        Some(Json::Array(items)) => Some(items@),
        _ => None,
    }
}

/// Looks up the array in the field `key` of an object.
pub fn field_array<'a>(j: &'a Json, key: &str) -> (r: Option<&'a Vec<Json>>)
    ensures
        match r {
            Some(v) => spec_field_array(*j, key@) == Some(v@),
            None => spec_field_array(*j, key@) is None,
        },
{
    match field(j, key) {
        Some(Json::Array(items)) => Some(items),
        _ => None,
    }
}

/// A JSON string's text.
pub open spec fn spec_as_str(j: Json) -> Option<String> {
    match j {
        Json::Str(s) => Some(s),
        _ => None,
    }
}

/// Reads a JSON string.
pub fn as_str(j: &Json) -> (r: Option<String>)
    ensures
        r == spec_as_str(*j),
{
    match j {
        Json::Str(s) => Some(s.clone()),
        _ => None,
    }
}

/// Every item decoded by `f`, in order; `None` where one of them fails.
pub open spec fn decode_each<X>(items: Seq<Json>, f: spec_fn(Json) -> Option<X>) -> Option<
    Seq<X>,
> {
    if forall|i: int| 0 <= i < items.len() ==> (#[trigger] f(items[i])) is Some {
        Some(Seq::new(items.len(), |i: int| f(items[i])->Some_0))
    } else {
        None
    }
}

/// Decodes every item of an array with `f`, which decodes as `spec_f` says.
pub fn decode_list<X, F: Fn(&Json) -> Option<X>>(
    items: &Vec<Json>,
    f: F,
    Ghost(spec_f): Ghost<spec_fn(Json) -> Option<X>>,
) -> (r: Option<Vec<X>>)
    requires
        forall|j: &Json| #[trigger] f.requires((j,)),
        forall|j: &Json, x: Option<X>| #[trigger] f.ensures((j,), x) ==> x == spec_f(*j),
    ensures
        match r {
            Some(v) => decode_each(items@, spec_f) == Some(v@),
            None => decode_each(items@, spec_f) is None,
        },
{
    let mut out: Vec<X> = Vec::new();
    let mut i: usize = 0;
    while i < items.len()
        invariant
            0 <= i <= items@.len(),
            out@.len() == i,
            forall|j: &Json| #[trigger] f.requires((j,)),
            forall|j: &Json, x: Option<X>| #[trigger] f.ensures((j,), x) ==> x == spec_f(*j),
            forall|k: int| 0 <= k < i ==> spec_f(items@[k]) == Some(#[trigger] out@[k]),
        decreases items@.len() - i,
    {
        match f(&items[i]) {
            Some(x) => out.push(x),
            None => {
                assert(spec_f(items@[i as int]) is None);
                return None;
            },
        }
        i = i + 1;
    }
    assert forall|k: int| 0 <= k < items@.len() implies (#[trigger] spec_f(items@[k])) is Some by {
        assert(spec_f(items@[k]) == Some(out@[k]));
    }
    assert(out@ =~= Seq::new(items@.len(), |k: int| spec_f(items@[k])->Some_0));
    Some(out)
}

/// Decodes every item of an array with `f`, which succeeds on an item where
/// `ok` holds of it and then returns a value that `fits` it.
pub fn decode_list_by<X, F: Fn(&Json) -> Option<X>>(
    items: &Vec<Json>,
    f: F,
    Ghost(ok): Ghost<spec_fn(Json) -> bool>,
    Ghost(fits): Ghost<spec_fn(Json, X) -> bool>,
) -> (r: Option<Vec<X>>)
    requires
        forall|j: &Json| #[trigger] f.requires((j,)),
        forall|j: &Json, x: Option<X>| #[trigger]
            f.ensures((j,), x) ==> (x is Some <==> ok(*j)) && (x is Some ==> fits(
                *j,
                x->Some_0,
            )),
    ensures
        r is Some <==> forall|i: int| 0 <= i < items@.len() ==> #[trigger] ok(items@[i]),
        r is Some ==> r->Some_0@.len() == items@.len() && forall|i: int|
            0 <= i < items@.len() ==> #[trigger] fits(items@[i], r->Some_0@[i]),
{
    let mut out: Vec<X> = Vec::new();
    let mut i: usize = 0;
    while i < items.len()
        invariant
            0 <= i <= items@.len(),
            out@.len() == i,
            forall|j: &Json| #[trigger] f.requires((j,)),
            forall|j: &Json, x: Option<X>| #[trigger]
                f.ensures((j,), x) ==> (x is Some <==> ok(*j)) && (x is Some ==> fits(
                    *j,
                    x->Some_0,
                )),
            forall|k: int| 0 <= k < i ==> #[trigger] ok(items@[k]),
            forall|k: int| 0 <= k < i ==> #[trigger] fits(items@[k], out@[k]),
        decreases items@.len() - i,
    {
        match f(&items[i]) {
            Some(x) => out.push(x),
            None => {
                assert(!ok(items@[i as int]));
                return None;
            },
        }
        i = i + 1;
    }
    Some(out)
}

} // verus!
