use vstd::prelude::*;
use vstd::string::StringExecFns;
use vstd::utf8::decode_utf8;
use vstd::utf8::encode_utf8;
use vstd::utf8::encode_utf8_decode_utf8;
use vstd::utf8::encode_utf8_valid_utf8;
use vstd::utf8::valid_utf8;

use crate::errors::MarshalError;
use crate::person::Person;

verus! {

/// A value as the host runtime holds it.
#[derive(Debug, PartialEq, Eq)]
pub enum HostValue {
    Undefined,
    Null,
    Boolean(bool),
    Number(i64),
    /// Text as the host hands it over: bytes meant to be UTF-8.
    Text(Vec<u8>),
    Array(Vec<HostValue>),
    /// An object: named fields, in the order the host lists them.
    Object(Vec<HostField>),
}

/// One named field of a host object.
#[derive(Debug, PartialEq, Eq)]
pub struct HostField {
    pub key: String,
    pub value: HostValue,
}

/// The mathematical form of a marshalling failure.
pub enum MarshalFault {
    TypeMismatch,
    InvalidEncoding,
    MissingField(Seq<char>),
    InvalidElement(nat),
}

impl View for MarshalError {
    type V = MarshalFault;

    open spec fn view(&self) -> MarshalFault {
        match self {
            MarshalError::TypeMismatch => MarshalFault::TypeMismatch,
            MarshalError::InvalidEncoding => MarshalFault::InvalidEncoding,
            MarshalError::MissingField(name) => MarshalFault::MissingField(name@),
            MarshalError::InvalidElement(i) => MarshalFault::InvalidElement(*i as nat),
        }
    }
}

/// The 32-bit signed integer that `h` holds, if it holds one.
pub open spec fn i32_of(h: HostValue) -> Option<i32> {
    match h {
        HostValue::Number(n) => if i32::MIN <= n <= i32::MAX { Some(n as i32) } else { None },
        _ => None,
    }
}

/// The conversion of `h` to a 32-bit unsigned integer.
pub open spec fn u32_of(h: HostValue) -> Result<u32, MarshalFault> {
    match h {
        HostValue::Number(n) => if 0 <= n <= u32::MAX { Ok(n as u32) } else { Err(MarshalFault::TypeMismatch) },
        _ => Err(MarshalFault::TypeMismatch),
    }
}

/// The conversion of `h` to text.
pub open spec fn text_of(h: HostValue) -> Result<Seq<char>, MarshalFault> {
    match h {
        HostValue::Text(b) => if valid_utf8(b@) { Ok(decode_utf8(b@)) } else { Err(MarshalFault::InvalidEncoding) },
        _ => Err(MarshalFault::TypeMismatch),
    }
}

/// `i` is the first field of `fs` named `key`.
pub open spec fn first_match(fs: Seq<HostField>, key: Seq<char>, i: int) -> bool {
    &&& 0 <= i < fs.len()
    &&& fs[i].key@ == key
    &&& forall|j: int| 0 <= j < i ==> (#[trigger] fs[j]).key@ != key
}

/// The value of the first field of `fs` named `key`, if any.
pub open spec fn field_of(fs: Seq<HostField>, key: Seq<char>) -> Option<HostValue> {
    if exists|i: int| first_match(fs, key, i) {
        Some(fs[choose|i: int| first_match(fs, key, i)].value)
    } else {
        None
    }
}

/// The conversion of `h` to a person's name and age: fields are found by
/// name, the name before the age, and fields of other names are ignored.
pub open spec fn person_of(h: HostValue) -> Result<(Seq<char>, u32), MarshalFault> {
    match h {
        HostValue::Object(fs) => match field_of(fs@, "name"@) {
            None => Err(MarshalFault::MissingField("name"@)),
            Some(nv) => match text_of(nv) {
                Err(e) => Err(e),
                Ok(name) => match field_of(fs@, "age"@) {
                    None => Err(MarshalFault::MissingField("age"@)),
                    Some(av) => match u32_of(av) {
                        Err(e) => Err(e),
                        Ok(age) => Ok((name, age)),
                    },
                },
            },
        },
        _ => Err(MarshalFault::TypeMismatch),
    }
}

/// `h` is the host form of the person `p`.
pub open spec fn hosts_person(h: HostValue, p: (Seq<char>, u32)) -> bool {
    &&& h matches HostValue::Object(fs)
    &&& fs@.len() == 2
    &&& fs@[0].key@ == "name"@
    &&& fs@[0].value matches HostValue::Text(b) && b@ == encode_utf8(p.0)
    &&& fs@[1].key@ == "age"@
    &&& fs@[1].value == HostValue::Number(p.1 as i64)
}

/// Relies on std's `String::from_utf8`: it succeeds exactly on well-formed
/// UTF-8, and the string then holds the characters that the bytes encode.
#[verifier::external_body]
fn utf8_to_string(bytes: Vec<u8>) -> (r: Option<String>)
    ensures
        r is Some <==> valid_utf8(bytes@),
        r matches Some(s) ==> s@ == decode_utf8(bytes@),
{
    String::from_utf8(bytes).ok()
}

/// Hands an integer to the host as a number.
pub fn i32_to_host(v: i32) -> (r: HostValue)
    ensures
        r == HostValue::Number(v as i64),
        i32_of(r) == Some(v),
{
    HostValue::Number(v as i64)
}

/// Reads a 32-bit signed integer; any other value is a type mismatch.
pub fn i32_from_host(h: &HostValue) -> (r: Result<i32, MarshalError>)
    ensures
        r matches Ok(v) ==> i32_of(*h) == Some(v),
        r matches Err(e) ==> i32_of(*h) is None && e == MarshalError::TypeMismatch,
{
    match h {
        HostValue::Number(n) => {
            if i32::MIN as i64 <= *n && *n <= i32::MAX as i64 {
                Ok(*n as i32)
            } else {
                Err(MarshalError::TypeMismatch)
            }
        },
        _ => Err(MarshalError::TypeMismatch),
    }
}

/// Reads a 32-bit unsigned integer; any other value is a type mismatch.
pub fn u32_from_host(h: &HostValue) -> (r: Result<u32, MarshalError>)
    ensures
        r matches Ok(v) ==> u32_of(*h) == Ok::<u32, MarshalFault>(v),
        r matches Err(e) ==> u32_of(*h) == Err::<u32, MarshalFault>(e@),
{
    match h {
        HostValue::Number(n) => {
            if 0 <= *n && *n <= u32::MAX as i64 {
                Ok(*n as u32)
            } else {
                Err(MarshalError::TypeMismatch)
            }
        },
        _ => Err(MarshalError::TypeMismatch),
    }
}

/// Hands text to the host as its UTF-8 bytes.
pub fn string_to_host(s: &String) -> (r: HostValue)
    ensures
        r matches HostValue::Text(b) && b@ == encode_utf8(s@),
        text_of(r) == Ok::<Seq<char>, MarshalFault>(s@),
{
    let bytes = s.as_str().as_bytes();
    let mut v: Vec<u8> = Vec::new();
    let mut i: usize = 0;
    while i < bytes.len()
        invariant
            i <= bytes@.len(),
            v@ == bytes@.subrange(0, i as int),
        decreases bytes@.len() - i,
    {
        v.push(bytes[i]);
        i = i + 1;
    }
    assert(v@ =~= bytes@);
    proof {
        broadcast use encode_utf8_decode_utf8, encode_utf8_valid_utf8;
    }
    HostValue::Text(v)
}

/// Reads text; bytes that are not well-formed UTF-8 are an invalid encoding,
/// and any other value a type mismatch.
pub fn string_from_host(h: &HostValue) -> (r: Result<String, MarshalError>)
    ensures
        r matches Ok(s) ==> text_of(*h) == Ok::<Seq<char>, MarshalFault>(s@),
        r matches Err(e) ==> text_of(*h) == Err::<Seq<char>, MarshalFault>(e@),
{
    match h {
        HostValue::Text(b) => {
            let mut bytes: Vec<u8> = Vec::new();
            let mut i: usize = 0;
            while i < b.len()
                invariant
                    i <= b@.len(),
                    bytes@ == b@.subrange(0, i as int),
                decreases b@.len() - i,
            {
                bytes.push(b[i]);
                i = i + 1;
            }
            assert(bytes@ =~= b@);
            match utf8_to_string(bytes) {
                Some(s) => Ok(s),
                None => Err(MarshalError::InvalidEncoding),
            }
        },
        _ => Err(MarshalError::TypeMismatch),
    }
}

/// Hands a sequence of integers to the host, in order.
pub fn i32_seq_to_host(v: &Vec<i32>) -> (r: HostValue)
    ensures
        r matches HostValue::Array(items) && items@.len() == v@.len() && forall|i: int|
            0 <= i < v@.len() ==> i32_of(#[trigger] items@[i]) == Some(v@[i]),
{
    let mut items: Vec<HostValue> = Vec::new();
    let mut i: usize = 0;
    while i < v.len()
        invariant
            i <= v@.len(),
            items@.len() == i,
            forall|k: int| 0 <= k < i ==> i32_of(#[trigger] items@[k]) == Some(v@[k]),
        decreases v@.len() - i,
    {
        items.push(i32_to_host(v[i]));
        i = i + 1;
    }
    HostValue::Array(items)
}

/// `r` is the reading of the host elements `items` as integers: all of them
/// in order, or the index of the first that is not one.
pub open spec fn read_i32_seq(items: Seq<HostValue>, r: Result<Vec<i32>, MarshalError>) -> bool {
    match r {
        Ok(v) => v@.len() == items.len() && forall|i: int|
            0 <= i < items.len() ==> i32_of(#[trigger] items[i]) == Some(v@[i]),
        Err(MarshalError::InvalidElement(k)) => k < items.len() && i32_of(items[k as int]) is None
            && forall|j: int| 0 <= j < k ==> i32_of(#[trigger] items[j]) is Some,
        Err(_) => false,
    }
}

/// Reads a sequence of integers element by element, in order; fails at the
/// first element that is not one, naming its index.
pub fn i32_seq_from_host(h: &HostValue) -> (r: Result<Vec<i32>, MarshalError>)
    ensures
        match *h {
            HostValue::Array(items) => read_i32_seq(items@, r),
            _ => r matches Err(e) && e == MarshalError::TypeMismatch,
        },
{
    match h {
        HostValue::Array(items) => {
            let mut v: Vec<i32> = Vec::new();
            let mut i: usize = 0;
            while i < items.len()
                invariant
                    *h == HostValue::Array(*items),
                    i <= items@.len(),
                    v@.len() == i,
                    forall|k: int| 0 <= k < i ==> i32_of(#[trigger] items@[k]) == Some(v@[k]),
                decreases items@.len() - i,
            {
                match i32_from_host(&items[i]) {
                    Ok(x) => v.push(x),
                    Err(_) => {
                        assert forall|j: int| 0 <= j < i implies i32_of(#[trigger] items@[j]) is Some by {
                            assert(i32_of(items@[j]) == Some(v@[j]));
                        }
                        return Err(MarshalError::InvalidElement(i));
                    },
                }
                i = i + 1;
            }
            Ok(v)
        },
        _ => Err(MarshalError::TypeMismatch),
    }
}

/// Hands an optional integer to the host: absence becomes null.
pub fn option_i32_to_host(v: Option<i32>) -> (r: HostValue)
    ensures
        v is None ==> r is Null,
        v matches Some(x) ==> r == HostValue::Number(x as i64),
{
    match v {
        Some(x) => i32_to_host(x),
        None => HostValue::Null,
    }
}

/// Reads an optional integer: undefined and null are absence; any other value
/// must be an integer.
pub fn option_i32_from_host(h: &HostValue) -> (r: Result<Option<i32>, MarshalError>)
    ensures
        (h is Undefined || h is Null) ==> r == Ok::<Option<i32>, MarshalError>(None),
        !(h is Undefined || h is Null) ==> (r matches Ok(v) ==> v is Some && i32_of(*h) == v),
        !(h is Undefined || h is Null) ==> (r matches Err(e) ==> i32_of(*h) is None && e == MarshalError::TypeMismatch),
{
    match h {
        HostValue::Undefined => Ok(None),
        HostValue::Null => Ok(None),
        _ => match i32_from_host(h) {
            Ok(x) => Ok(Some(x)),
            Err(e) => Err(e),
        },
    }
}

/// Reads optional text: undefined and null are absence.
pub fn option_string_from_host(h: &HostValue) -> (r: Result<Option<String>, MarshalError>)
    ensures
        (h is Undefined || h is Null) ==> (r matches Ok(v) && v is None),
        !(h is Undefined || h is Null) ==> (r matches Ok(v) ==> v matches Some(s) && text_of(*h) == Ok::<Seq<char>, MarshalFault>(s@)),
        !(h is Undefined || h is Null) ==> (r matches Err(e) ==> text_of(*h) == Err::<Seq<char>, MarshalFault>(e@)),
{
    match h {
        HostValue::Undefined => Ok(None),
        HostValue::Null => Ok(None),
        _ => match string_from_host(h) {
            Ok(s) => Ok(Some(s)),
            Err(e) => Err(e),
        },
    }
}

/// The index of the first field named `key`.
fn find_field(fs: &Vec<HostField>, key: &String) -> (r: Option<usize>)
    ensures
        r matches Some(i) ==> first_match(fs@, key@, i as int),
        r is None ==> forall|j: int| 0 <= j < fs@.len() ==> (#[trigger] fs@[j]).key@ != key@,
        r matches Some(i) ==> field_of(fs@, key@) == Some(fs@[i as int].value),
        r is None ==> field_of(fs@, key@) is None,
{
    let mut i: usize = 0;
    while i < fs.len()
        invariant
            i <= fs@.len(),
            forall|j: int| 0 <= j < i ==> (#[trigger] fs@[j]).key@ != key@,
        decreases fs@.len() - i,
    {
        if fs[i].key == *key {
            proof {
                assert(first_match(fs@, key@, i as int));
                let c = choose|c: int| first_match(fs@, key@, c);
                if c < i {
                    assert(fs@[c].key@ != key@);
                } else if c > i {
                    assert(fs@[i as int].key@ != key@);
                }
            }
            return Some(i);
        }
        i = i + 1;
    }
    None
}

/// Hands a person to the host as an object with the fields `name` and `age`.
pub fn person_to_host(p: &Person) -> (r: HostValue)
    ensures
        hosts_person(r, p@),
{
    proof {
        reveal_strlit("name");
        reveal_strlit("age");
    }
    let mut fs: Vec<HostField> = Vec::new();
    fs.push(HostField { key: String::from_str("name"), value: string_to_host(&p.name) });
    fs.push(HostField { key: String::from_str("age"), value: HostValue::Number(p.age as i64) });
    HostValue::Object(fs)
}

/// Reads a person from a host object, field by field by name; fields of
/// other names are ignored.
pub fn person_from_host(h: &HostValue) -> (r: Result<Person, MarshalError>)
    ensures
        r matches Ok(p) ==> person_of(*h) == Ok::<(Seq<char>, u32), MarshalFault>(p@),
        r matches Err(e) ==> person_of(*h) == Err::<(Seq<char>, u32), MarshalFault>(e@),
{
    match h {
        HostValue::Object(fs) => {
            let name_key = String::from_str("name");
            let name = match find_field(fs, &name_key) {
                None => {
                    return Err(MarshalError::MissingField(name_key));
                },
                Some(i) => match string_from_host(&fs[i].value) {
                    Ok(s) => s,
                    Err(e) => {
                        return Err(e);
                    },
                },
            };
            let age_key = String::from_str("age");
            let age = match find_field(fs, &age_key) {
                None => {
                    return Err(MarshalError::MissingField(age_key));
                },
                Some(i) => match u32_from_host(&fs[i].value) {
                    Ok(a) => a,
                    Err(e) => {
                        return Err(e);
                    },
                },
            };
            Ok(Person { name, age })
        },
        _ => Err(MarshalError::TypeMismatch),
    }
}

/// Marshalling a person to its host form and back gives its name and age
/// exactly.
pub proof fn law_person_round_trip(h: HostValue, p: (Seq<char>, u32))
    requires
        hosts_person(h, p),
    ensures
        person_of(h) == Ok::<(Seq<char>, u32), MarshalFault>(p),
{
    broadcast use encode_utf8_decode_utf8, encode_utf8_valid_utf8;

    reveal_strlit("name");
    reveal_strlit("age");
    assert("name"@.len() == 4);
    assert("age"@.len() == 3);
    let fs = h->Object_0@;
    assert(first_match(fs, "name"@, 0));
    assert(fs[0].key@ != "age"@);
    assert(first_match(fs, "age"@, 1));
    let c = choose|c: int| first_match(fs, "name"@, c);
    assert(c == 0) by {
        if c > 0 {
            assert(fs[0].key@ != "name"@);
        }
    }
    let d = choose|d: int| first_match(fs, "age"@, d);
    assert(d == 1) by {
        if d == 0 {
            assert(fs[0].key@ == "age"@);
        } else if d > 1 {
            assert(fs[1].key@ != "age"@);
        }
    }
}

} // verus!
