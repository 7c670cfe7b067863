//! Reading one typed field out of one untyped value.
//!
//! Each reader accepts the representations that its field has on the bus and
//! turns every other value down with a type mismatch that names the field.

use vstd::prelude::*;

use crate::error::{outcome, DecodeError, DecodeErrorView, Expected, Read};
use crate::text::same_text;
use crate::value::{Double, Value};

verus! {

/// What a player publishes, as contracts see it: untyped values under string
/// keys.
pub type Attributes = Map<Seq<char>, Value>;

/// The mismatch of `v` with what the field `name` accepts.
pub open spec fn mismatch(name: Seq<char>, expected: Expected, v: Value) -> DecodeErrorView {
    DecodeErrorView::TypeMismatch(name, expected, v.spec_kind())
}

/// A boolean field: a boolean.
pub open spec fn bool_of(name: Seq<char>, v: Value) -> Read<bool> {
    match v {
        Value::Bool(b) => Ok(b),
        _ => Err(mismatch(name, Expected::Bool, v)),
    }
}

/// A signed 32-bit field: a signed 32-bit integer.
pub open spec fn int32_of(name: Seq<char>, v: Value) -> Read<i32> {
    match v {
        Value::I32(n) => Ok(n),
        _ => Err(mismatch(name, Expected::Int32, v)),
    }
}

/// A double-precision field: a double-precision number.
pub open spec fn double_of(name: Seq<char>, v: Value) -> Read<Double> {
    match v {
        Value::F64(d) => Ok(d),
        _ => Err(mismatch(name, Expected::Double, v)),
    }
}

/// The unsigned number with the two's complement bit pattern of `n`: `n`
/// itself where it is not negative.
pub open spec fn unsigned(n: i64) -> u64 {
    if n >= 0 {
        n as u64
    } else {
        (n + 0x1_0000_0000_0000_0000) as u64
    }
}

/// An unsigned 64-bit field: a 64-bit integer of either signedness.
pub open spec fn count_of(name: Seq<char>, v: Value) -> Read<u64> {
    match v {
        Value::U64(n) => Ok(n),
        Value::I64(n) => Ok(unsigned(n)),
        _ => Err(mismatch(name, Expected::Integer64, v)),
    }
}

/// A string field: a string.
pub open spec fn text_of(name: Seq<char>, v: Value) -> Read<Seq<char>> {
    match v {
        Value::Str(s) => Ok(s@),
        _ => Err(mismatch(name, Expected::Text, v)),
    }
}

/// An identifier field: an object path or a string, taken as it is.
pub open spec fn identifier_of(name: Seq<char>, v: Value) -> Read<Seq<char>> {
    match v {
        Value::ObjectPath(s) => Ok(s@),
        Value::Str(s) => Ok(s@),
        _ => Err(mismatch(name, Expected::Identifier, v)),
    }
}

/// Whether every element is a string, looked at through one level of
/// variant.
pub open spec fn all_text(items: Seq<Value>) -> bool {
    forall|i: int| 0 <= i < items.len() ==> (#[trigger] items[i]).spec_inner() is Str
}

/// The strings that the elements hold, in their order.
pub open spec fn texts_of(items: Seq<Value>) -> Seq<Seq<char>> {
    Seq::new(items.len(), |i: int| items[i].spec_inner()->Str_0@)
}

/// A field that lists strings: an array of which every element is a string.
pub open spec fn text_list_of(name: Seq<char>, v: Value) -> Read<Seq<Seq<char>>> {
    match v {
        Value::Array(items) => if all_text(items@) {
            Ok(texts_of(items@))
        } else {
            Err(mismatch(name, Expected::TextList, v))
        },
        _ => Err(mismatch(name, Expected::TextList, v)),
    }
}

/// Whether a value is an array of which every element is a string.
pub open spec fn is_text_list(v: Value) -> bool {
    v matches Value::Array(items) && all_text(items@)
}

/// The text that an object path or a string holds.
pub open spec fn identifier_in(v: Value) -> Seq<char> {
    match v {
        Value::ObjectPath(s) => s@,
        Value::Str(s) => s@,
        _ => Seq::empty(),
    }
}

/// Whether a value is a 64-bit integer of either signedness.
pub open spec fn is_count(v: Value) -> bool {
    v is U64 || v is I64
}

/// The unsigned number that a 64-bit integer of either signedness stands
/// for.
pub open spec fn count_in(v: Value) -> u64 {
    match v {
        Value::U64(n) => n,
        Value::I64(n) => unsigned(n),
        _ => 0,
    }
}

/// A signed and an unsigned 64-bit integer of the same magnitude are read
/// as the same number.
pub proof fn lemma_width_is_immaterial(name: Seq<char>, n: u64)
    requires
        n <= i64::MAX,
    ensures
        count_of(name, Value::I64(n as i64)) == count_of(name, Value::U64(n)),
        count_of(name, Value::U64(n)) matches Ok(read) && read == n,
{
}

/// What an optional field is: unset where its key is absent, else what the
/// reader makes of the value.
pub open spec fn optional<T>(present: bool, read: Read<T>) -> Read<Option<T>> {
    if !present {
        Ok(None)
    } else {
        match read {
            Ok(t) => Ok(Some(t)),
            Err(e) => Err(e),
        }
    }
}

/// What a required field is: missing where its key is absent, else what
/// the reader makes of the value.
pub open spec fn required<T>(name: Seq<char>, present: bool, read: Read<T>) -> Read<T> {
    if !present {
        Err(DecodeErrorView::MissingField(name))
    } else {
        read
    }
}

/// Whether what was found under a key is what the attributes hold under it.
pub open spec fn found_in(found: Option<&Value>, m: Attributes, key: Seq<char>) -> bool {
    match found {
        Some(v) => m.contains_key(key) && *v == m[key],
        None => !m.contains_key(key),
    }
}

/// Reads a boolean field.
pub fn read_bool(name: &str, v: &Value) -> (r: Result<bool, DecodeError>)
    ensures
        outcome(r) == bool_of(name@, *v),
{
    match v {
        Value::Bool(b) => Ok(*b),
        _ => Err(DecodeError::mismatch(name, Expected::Bool, v.kind())),
    }
}

/// Reads a signed 32-bit field.
pub fn read_int32(name: &str, v: &Value) -> (r: Result<i32, DecodeError>)
    ensures
        outcome(r) == int32_of(name@, *v),
{
    match v {
        Value::I32(n) => Ok(*n),
        _ => Err(DecodeError::mismatch(name, Expected::Int32, v.kind())),
    }
}

/// Reads a double-precision field.
pub fn read_double(name: &str, v: &Value) -> (r: Result<Double, DecodeError>)
    ensures
        outcome(r) == double_of(name@, *v),
{
    match v {
        Value::F64(d) => Ok(*d),
        _ => Err(DecodeError::mismatch(name, Expected::Double, v.kind())),
    }
}

/// Reads a signed 64-bit integer as the unsigned one with the same bits.
pub fn to_unsigned(n: i64) -> (r: u64)
    ensures
        r == unsigned(n),
{
    if n >= 0 {
        n as u64
    } else {
        let low: u64 = (n - i64::MIN) as u64;
        low + 0x8000_0000_0000_0000
    }
}

/// Reads an unsigned 64-bit field from an integer of either signedness.
pub fn read_count(name: &str, v: &Value) -> (r: Result<u64, DecodeError>)
    ensures
        outcome(r) == count_of(name@, *v),
{
    match v {
        Value::U64(n) => Ok(*n),
        Value::I64(n) => Ok(to_unsigned(*n)),
        _ => Err(DecodeError::mismatch(name, Expected::Integer64, v.kind())),
    }
}

/// Reads a string field.
pub fn read_text(name: &str, v: &Value) -> (r: Result<String, DecodeError>)
    ensures
        outcome(r) == text_of(name@, *v),
{
    match v {
        Value::Str(s) => Ok(s.clone()),
        _ => Err(DecodeError::mismatch(name, Expected::Text, v.kind())),
    }
}

/// Reads an identifier field.
pub fn read_identifier(name: &str, v: &Value) -> (r: Result<String, DecodeError>)
    ensures
        outcome(r) == identifier_of(name@, *v),
{
    match v {
        Value::ObjectPath(s) => Ok(s.clone()),
        Value::Str(s) => Ok(s.clone()),
        _ => Err(DecodeError::mismatch(name, Expected::Identifier, v.kind())),
    }
}

/// Reads a field that lists strings.
pub fn read_text_list(name: &str, v: &Value) -> (r: Result<Vec<String>, DecodeError>)
    ensures
        outcome(r) == text_list_of(name@, *v),
{
    match v {
        Value::Array(items) => {
            let mut texts: Vec<String> = Vec::new();
            let mut i: usize = 0;
            while i < items.len()
                invariant
                    i <= items.len(),
                    texts.len() == i,
                    *v == Value::Array(*items),
                    forall|j: int| 0 <= j < i ==> (#[trigger] items@[j]).spec_inner() is Str,
                    forall|j: int|
                        0 <= j < i ==> (#[trigger] texts@[j])@ == items@[j].spec_inner()->Str_0@,
                decreases items.len() - i,
            {
                match items[i].inner() {
                    Value::Str(s) => {
                        texts.push(s.clone());
                    },
                    _ => {
                        assert(!(items@[i as int].spec_inner() is Str));
                        return Err(DecodeError::mismatch(name, Expected::TextList, v.kind()));
                    },
                }
                i += 1;
            }
            assert(texts.deep_view() =~= texts_of(items@));
            Ok(texts)
        },
        _ => Err(DecodeError::mismatch(name, Expected::TextList, v.kind())),
    }
}

/// Reads a required boolean field from what was found under its key.
pub fn required_bool(name: &str, found: Option<&Value>) -> (r: Result<bool, DecodeError>)
    ensures
        outcome(r) == required(name@, found is Some, bool_of(name@, *found->0)),
{
    match found {
        Some(v) => read_bool(name, v),
        None => Err(DecodeError::missing(name)),
    }
}

/// Reads a required double-precision field from what was found under its key.
pub fn required_double(name: &str, found: Option<&Value>) -> (r: Result<Double, DecodeError>)
    ensures
        outcome(r) == required(name@, found is Some, double_of(name@, *found->0)),
{
    match found {
        Some(v) => read_double(name, v),
        None => Err(DecodeError::missing(name)),
    }
}

/// Reads a required unsigned 64-bit field from what was found under its key.
pub fn required_count(name: &str, found: Option<&Value>) -> (r: Result<u64, DecodeError>)
    ensures
        outcome(r) == required(name@, found is Some, count_of(name@, *found->0)),
{
    match found {
        Some(v) => read_count(name, v),
        None => Err(DecodeError::missing(name)),
    }
}

/// Reads a required string field from what was found under its key.
pub fn required_text(name: &str, found: Option<&Value>) -> (r: Result<String, DecodeError>)
    ensures
        outcome(r) == required(name@, found is Some, text_of(name@, *found->0)),
{
    match found {
        Some(v) => read_text(name, v),
        None => Err(DecodeError::missing(name)),
    }
}

/// Reads a required identifier field from what was found under its key.
pub fn required_identifier(name: &str, found: Option<&Value>) -> (r: Result<String, DecodeError>)
    ensures
        outcome(r) == required(name@, found is Some, identifier_of(name@, *found->0)),
{
    match found {
        Some(v) => read_identifier(name, v),
        None => Err(DecodeError::missing(name)),
    }
}

/// Reads a required list of strings from what was found under its key.
pub fn required_text_list(name: &str, found: Option<&Value>) -> (r: Result<Vec<String>, DecodeError>)
    ensures
        outcome(r) == required(name@, found is Some, text_list_of(name@, *found->0)),
{
    match found {
        Some(v) => read_text_list(name, v),
        None => Err(DecodeError::missing(name)),
    }
}

/// Reads an optional boolean field from what was found under its key.
pub fn optional_bool(name: &str, found: Option<&Value>) -> (r: Result<Option<bool>, DecodeError>)
    ensures
        outcome(r) == optional(found is Some, bool_of(name@, *found->0)),
{
    match found {
        Some(v) => match read_bool(name, v) {
            Ok(b) => Ok(Some(b)),
            Err(e) => Err(e),
        },
        None => Ok(None),
    }
}

/// Reads an optional signed 32-bit field from what was found under its key.
pub fn optional_int32(name: &str, found: Option<&Value>) -> (r: Result<Option<i32>, DecodeError>)
    ensures
        outcome(r) == optional(found is Some, int32_of(name@, *found->0)),
{
    match found {
        Some(v) => match read_int32(name, v) {
            Ok(n) => Ok(Some(n)),
            Err(e) => Err(e),
        },
        None => Ok(None),
    }
}

/// Reads an optional double-precision field from what was found under its key.
pub fn optional_double(name: &str, found: Option<&Value>) -> (r: Result<Option<Double>, DecodeError>)
    ensures
        outcome(r) == optional(found is Some, double_of(name@, *found->0)),
{
    match found {
        Some(v) => match read_double(name, v) {
            Ok(d) => Ok(Some(d)),
            Err(e) => Err(e),
        },
        None => Ok(None),
    }
}

/// Reads an optional unsigned 64-bit field from what was found under its key.
pub fn optional_count(name: &str, found: Option<&Value>) -> (r: Result<Option<u64>, DecodeError>)
    ensures
        outcome(r) == optional(found is Some, count_of(name@, *found->0)),
{
    match found {
        Some(v) => match read_count(name, v) {
            Ok(n) => Ok(Some(n)),
            Err(e) => Err(e),
        },
        None => Ok(None),
    }
}

/// Reads an optional string field from what was found under its key.
pub fn optional_text(name: &str, found: Option<&Value>) -> (r: Result<Option<String>, DecodeError>)
    ensures
        outcome(r) == optional(found is Some, text_of(name@, *found->0)),
{
    match found {
        Some(v) => match read_text(name, v) {
            Ok(s) => Ok(Some(s)),
            Err(e) => Err(e),
        },
        None => Ok(None),
    }
}

/// Reads an optional list of strings from what was found under its key.
pub fn optional_text_list(name: &str, found: Option<&Value>) -> (r: Result<
    Option<Vec<String>>,
    DecodeError,
>)
    ensures
        outcome(r) == optional(found is Some, text_list_of(name@, *found->0)),
{
    match found {
        Some(v) => match read_text_list(name, v) {
            Ok(list) => Ok(Some(list)),
            Err(e) => Err(e),
        },
        None => Ok(None),
    }
}

/// Whether every key of a dictionary is a string, looked at through one
/// level of variant.
pub open spec fn text_keyed(entries: Seq<(Value, Value)>) -> bool {
    forall|i: int| 0 <= i < entries.len() ==> (#[trigger] entries[i]).0.spec_inner() is Str
}

/// Whether the entry at index `i` has the string `key` for its key, looked
/// at through one level of variant.
pub open spec fn is_under(entries: Seq<(Value, Value)>, key: Seq<char>, i: int) -> bool {
    entries[i].0.spec_inner() matches Value::Str(s) && s@ == key
}

/// Whether the entry at index `i` is the last one under `key`.
pub open spec fn is_last_under(entries: Seq<(Value, Value)>, key: Seq<char>, i: int) -> bool {
    &&& 0 <= i < entries.len()
    &&& is_under(entries, key, i)
    &&& forall|j: int| i < j < entries.len() ==> !is_under(entries, key, j)
}

/// The attributes that a dictionary holds under its string keys: under each
/// key the value of the last entry with that key, looked at through one level
/// of variant.
pub open spec fn attributes_of(entries: Seq<(Value, Value)>) -> Attributes {
    Map::new(
        |key: Seq<char>| exists|i: int| is_last_under(entries, key, i),
        |key: Seq<char>| *entries[choose|i: int| is_last_under(entries, key, i)].1.spec_inner(),
    )
}

/// Whether all keys of a dictionary are strings.
pub fn has_text_keys(entries: &Vec<(Value, Value)>) -> (r: bool)
    ensures
        r == text_keyed(entries@),
{
    let mut i: usize = 0;
    while i < entries.len()
        invariant
            i <= entries.len(),
            forall|j: int| 0 <= j < i ==> (#[trigger] entries@[j]).0.spec_inner() is Str,
        decreases entries.len() - i,
    {
        match entries[i].0.inner() {
            Value::Str(_) => {},
            _ => {
                assert(!(entries@[i as int].0.spec_inner() is Str));
                return false;
            },
        }
        i += 1;
    }
    true
}

/// Looks the string `key` up in a dictionary.
pub fn lookup<'a>(entries: &'a Vec<(Value, Value)>, key: &str) -> (r: Option<&'a Value>)
    ensures
        found_in(r, attributes_of(entries@), key@),
{
    let mut i: usize = entries.len();
    while i > 0
        invariant
            i <= entries.len(),
            forall|j: int| i <= j < entries.len() ==> !is_under(entries@, key@, j),
        decreases i,
    {
        i -= 1;
        match entries[i].0.inner() {
            Value::Str(s) => {
                if same_text(s.as_str(), key) {
                    assert(is_last_under(entries@, key@, i as int));
                    let ghost chosen = choose|j: int| is_last_under(entries@, key@, j);
                    assert(chosen == i);
                    return Some(entries[i].1.inner());
                }
            },
            _ => {},
        }
    }
    None
}

} // verus!
