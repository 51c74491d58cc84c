use crate::json::{member, Json, JsonNumber};
use crate::models::{BlacklistInfo, ConnectInfo};
use vstd::prelude::*;

verus! {

/// A reply, or a part of one, did not have the shape its type requires.
#[derive(Debug, Clone, Copy, PartialEq, Eq, Structural)]
pub struct DecodeError;

/// Types that can be read from a JSON value.
pub trait FromJson: Sized {
    /// Whether `j` is a wire form of `v`.
    spec fn decodes_to(j: Json, v: Self) -> bool;

    /// Reads a value from `j`, failing exactly when `j` is the wire form of
    /// no value.
    fn from_json(j: &Json) -> (r: Result<Self, DecodeError>)
        ensures
            match r {
                Ok(v) => Self::decodes_to(*j, v),
                Err(_) => forall|v: Self| !#[trigger] Self::decodes_to(*j, v),
            },
    ;
}

/// Each item of `items` is a wire form of the value at the same place in `vals`.
pub open spec fn list_decodes<T: FromJson>(items: Seq<Json>, vals: Seq<T>) -> bool {
    &&& items.len() == vals.len()
    &&& forall|i: int| 0 <= i < items.len() ==> #[trigger] T::decodes_to(items[i], vals[i])
}

/// The decoded form of a field that holds `false` when it has no value.
pub open spec fn false_or_decodes<T: FromJson>(j: Json, v: Option<T>) -> bool {
    match j {
        Json::Bool(false) => v is None,
        _ => match v {
            Some(x) => T::decodes_to(j, x),
            None => false,
        },
    }
}

/// The decoded form of a string field that holds `sentinel` when it has no
/// value; `None` when `j` is not a string.
pub open spec fn text_unless(j: Json, sentinel: Seq<char>) -> Option<Option<String>> {
    match j {
        Json::Str(s) => if s@ == sentinel {
            Some(None)
        } else {
            Some(Some(s))
        },
        _ => None,
    }
}

/// A required member read by `T`.
pub open spec fn decodes_at<T: FromJson>(j: Json, key: Seq<char>, v: T) -> bool {
    match member(j, key) {
        Some(m) => T::decodes_to(m, v),
        None => false,
    }
}

/// A required member that holds `false` when it has no value.
pub open spec fn false_or_at<T: FromJson>(j: Json, key: Seq<char>, v: Option<T>) -> bool {
    match member(j, key) {
        Some(m) => false_or_decodes(m, v),
        None => false,
    }
}

/// A required string member that holds `sentinel` when it has no value.
pub open spec fn text_unless_at(j: Json, key: Seq<char>, sentinel: Seq<char>) -> Option<Option<String>> {
    match member(j, key) {
        Some(m) => text_unless(m, sentinel),
        None => None,
    }
}

/// An optional member: absent or `null` when it has no value.
pub open spec fn optional_at<T: FromJson>(j: Json, key: Seq<char>, v: Option<T>) -> bool {
    match member(j, key) {
        None | Some(Json::Null) => v is None,
        Some(m) => match v {
            Some(x) => T::decodes_to(m, x),
            None => false,
        },
    }
}

/// Reads the required member `key` of `j` as a `T`.
pub fn field<T: FromJson>(j: &Json, key: &str) -> (r: Result<T, DecodeError>)
    ensures
        match r {
            Ok(v) => decodes_at(*j, key@, v),
            Err(_) => forall|v: T| !#[trigger] decodes_at(*j, key@, v),
        },
{
    match j.get(key) {
        Some(m) => T::from_json(m),
        None => Err(DecodeError),
    }
}

/// Reads the required member `key` of `j`, which holds `false` when it has
/// no value.
pub fn field_false_or<T: FromJson>(j: &Json, key: &str) -> (r: Result<Option<T>, DecodeError>)
    ensures
        match r {
            Ok(v) => false_or_at(*j, key@, v),
            Err(_) => forall|v: Option<T>| !#[trigger] false_or_at(*j, key@, v),
        },
{
    match j.get(key) {
        Some(m) => false_or(m),
        None => Err(DecodeError),
    }
}

/// Reads the required string member `key` of `j`, which holds `sentinel`
/// when it has no value.
pub fn field_text_unless(j: &Json, key: &str, sentinel: &str) -> (r: Result<Option<String>, DecodeError>)
    ensures
        match text_unless_at(*j, key@, sentinel@) {
            Some(v) => r == Ok::<Option<String>, DecodeError>(v),
            None => r is Err,
        },
{
    match j.get(key) {
        Some(m) => text_or_none(m, sentinel),
        None => Err(DecodeError),
    }
}

/// Reads the optional member `key` of `j`.
pub fn field_optional<T: FromJson>(j: &Json, key: &str) -> (r: Result<Option<T>, DecodeError>)
    ensures
        match r {
            Ok(v) => optional_at(*j, key@, v),
            Err(_) => forall|v: Option<T>| !#[trigger] optional_at(*j, key@, v),
        },
{
    match j.get(key) {
        None => Ok(None),
        Some(Json::Null) => Ok(None),
        Some(m) => match T::from_json(m) {
            Ok(x) => Ok(Some(x)),
            Err(e) => {
                assert forall|v: Option<T>| !#[trigger] optional_at(*j, key@, v) by {
                    if let Some(x) = v {
                        assert(!T::decodes_to(*m, x));
                    }
                }
                Err(e)
            },
        },
    }
}

/// Reads every item of `items` as a `T`.
pub fn list_from_json<T: FromJson>(items: &Vec<Json>) -> (r: Result<Vec<T>, DecodeError>)
    ensures
        match r {
            Ok(v) => list_decodes(items@, v@),
            Err(_) => forall|v: Seq<T>| !#[trigger] list_decodes(items@, v),
        },
{
    let mut out: Vec<T> = Vec::new();
    let mut i: usize = 0;
    while i < items.len()
        invariant
            i <= items@.len(),
            out@.len() == i,
            forall|k: int| 0 <= k < i ==> #[trigger] T::decodes_to(items@[k], out@[k]),
        decreases items@.len() - i,
    {
        match T::from_json(&items[i]) {
            Ok(x) => out.push(x),
            Err(e) => {
                assert forall|v: Seq<T>| !#[trigger] list_decodes(items@, v) by {
                    if list_decodes(items@, v) {
                        assert(T::decodes_to(items@[i as int], v[i as int]));
                    }
                }
                return Err(e);
            },
        }
        i = i + 1;
    }
    Ok(out)
}

/// Reads a field that holds `false` when it has no value, and a `T` otherwise.
pub fn false_or<T: FromJson>(j: &Json) -> (r: Result<Option<T>, DecodeError>)
    ensures
        match r {
            Ok(v) => false_or_decodes(*j, v),
            Err(_) => forall|v: Option<T>| !#[trigger] false_or_decodes(*j, v),
        },
{
    let absent = match j {
        Json::Bool(b) => !*b,
        _ => false,
    };
    if absent {
        Ok(None)
    } else {
        match T::from_json(j) {
            Ok(x) => Ok(Some(x)),
            Err(e) => {
                assert forall|v: Option<T>| !#[trigger] false_or_decodes(*j, v) by {
                    if let Some(x) = v {
                        assert(!T::decodes_to(*j, x));
                    }
                }
                Err(e)
            },
        }
    }
}

/// Reads a string field that holds `sentinel` when it has no value.
pub fn text_or_none(j: &Json, sentinel: &str) -> (r: Result<Option<String>, DecodeError>)
    ensures
        match text_unless(*j, sentinel@) {
            Some(v) => r == Ok::<Option<String>, DecodeError>(v),
            None => r is Err,
        },
{
    match j {
        Json::Str(s) => {
            if *s == String::from_str(sentinel) {
                Ok(None)
            } else {
                Ok(Some(s.clone()))
            }
        },
        _ => Err(DecodeError),
    }
}

/// Reads a string field in which the empty string means that it has no value.
pub fn empty_string_as_none(j: &Json) -> (r: Result<Option<String>, DecodeError>)
    ensures
        match *j {
            Json::Str(s) => if s@.len() == 0 {
                r == Ok::<Option<String>, DecodeError>(None)
            } else {
                r == Ok::<Option<String>, DecodeError>(Some(s))
            },
            _ => r is Err,
        },
{
    proof {
        reveal_strlit("");
    }
    let r = text_or_none(j, "");
    proof {
        if let Json::Str(s) = j {
            assert(s@.len() == 0 <==> s@ =~= ""@);
        }
    }
    r
}

/// Reads a zip code, in which `-` means that there is none.
pub fn zipcode_field(j: &Json) -> (r: Result<Option<String>, DecodeError>)
    ensures
        match *j {
            Json::Str(s) => if s@ == seq!['-'] {
                r == Ok::<Option<String>, DecodeError>(None)
            } else {
                r == Ok::<Option<String>, DecodeError>(Some(s))
            },
            _ => r is Err,
        },
{
    proof {
        reveal_strlit("-");
    }
    let r = text_or_none(j, "-");
    proof {
        if let Json::Str(s) = j {
            assert("-"@ =~= seq!['-']);
        }
    }
    r
}

/// Reads an IP address, in which `false` means that there is none.
pub fn ip_field(j: &Json) -> (r: Result<Option<String>, DecodeError>)
    ensures
        match *j {
            Json::Bool(false) => r == Ok::<Option<String>, DecodeError>(None),
            Json::Str(s) => r == Ok::<Option<String>, DecodeError>(Some(s)),
            _ => r is Err,
        },
{
    let r = false_or::<String>(j);
    proof {
        match j {
            Json::Bool(b) => if !*b {
                assert(false_or_decodes(*j, None::<String>));
            },
            Json::Str(s) => assert(false_or_decodes(*j, Some(*s))),
            _ => {},
        }
    }
    r
}

/// Reads a blacklist, in which `false` means that there is none.
pub fn blacklist_field(j: &Json) -> (r: Result<Option<Vec<BlacklistInfo>>, DecodeError>)
    ensures
        match r {
            Ok(v) => false_or_decodes(*j, v),
            Err(_) => forall|v: Option<Vec<BlacklistInfo>>| !#[trigger] false_or_decodes(*j, v),
        },
{
    false_or::<Vec<BlacklistInfo>>(j)
}

/// Reads connection details, in which `false` means that there are none.
pub fn connect_info_field(j: &Json) -> (r: Result<Option<ConnectInfo>, DecodeError>)
    ensures
        match r {
            Ok(v) => false_or_decodes(*j, v),
            Err(_) => forall|v: Option<ConnectInfo>| !#[trigger] false_or_decodes(*j, v),
        },
{
    false_or::<ConnectInfo>(j)
}

impl FromJson for bool {
    open spec fn decodes_to(j: Json, v: bool) -> bool {
        j == Json::Bool(v)
    }

    fn from_json(j: &Json) -> (r: Result<bool, DecodeError>) {
        match j {
            Json::Bool(b) => Ok(*b),
            _ => Err(DecodeError),
        }
    }
}

impl FromJson for u64 {
    open spec fn decodes_to(j: Json, v: u64) -> bool {
        j == Json::Number(JsonNumber::Unsigned(v))
    }

    fn from_json(j: &Json) -> (r: Result<u64, DecodeError>) {
        match j {
            Json::Number(JsonNumber::Unsigned(n)) => Ok(*n),
            _ => Err(DecodeError),
        }
    }
}

impl FromJson for u32 {
    open spec fn decodes_to(j: Json, v: u32) -> bool {
        j == Json::Number(JsonNumber::Unsigned(v as u64))
    }

    fn from_json(j: &Json) -> (r: Result<u32, DecodeError>) {
        match j {
            Json::Number(JsonNumber::Unsigned(n)) => if *n <= u32::MAX as u64 {
                Ok(*n as u32)
            } else {
                Err(DecodeError)
            },
            _ => Err(DecodeError),
        }
    }
}

impl FromJson for u16 {
    open spec fn decodes_to(j: Json, v: u16) -> bool {
        j == Json::Number(JsonNumber::Unsigned(v as u64))
    }

    fn from_json(j: &Json) -> (r: Result<u16, DecodeError>) {
        match j {
            Json::Number(JsonNumber::Unsigned(n)) => if *n <= u16::MAX as u64 {
                Ok(*n as u16)
            } else {
                Err(DecodeError)
            },
            _ => Err(DecodeError),
        }
    }
}

/// Any number is accepted, as it was sent.
impl FromJson for JsonNumber {
    open spec fn decodes_to(j: Json, v: JsonNumber) -> bool {
        j == Json::Number(v)
    }

    fn from_json(j: &Json) -> (r: Result<JsonNumber, DecodeError>) {
        match j {
            Json::Number(n) => Ok(n.duplicate()),
            _ => Err(DecodeError),
        }
    }
}

impl FromJson for String {
    open spec fn decodes_to(j: Json, v: String) -> bool {
        j == Json::Str(v)
    }

    fn from_json(j: &Json) -> (r: Result<String, DecodeError>) {
        match j {
            Json::Str(s) => Ok(s.clone()),
            _ => Err(DecodeError),
        }
    }
}

impl<T: FromJson> FromJson for Vec<T> {
    open spec fn decodes_to(j: Json, v: Vec<T>) -> bool {
        match j {
            Json::Array(items) => list_decodes(items@, v@),
            _ => false,
        }
    }

    fn from_json(j: &Json) -> (r: Result<Vec<T>, DecodeError>) {
        match j {
            Json::Array(items) => list_from_json(items),
            _ => Err(DecodeError),
        }
    }
}

} // verus!
