//! Conversion between dynamically typed host values and typed CQL values.
use vstd::prelude::*;
use vstd::string::*;

verus! {

/// A duration as CQL stores it.
#[derive(Clone, Copy, Debug, PartialEq, Eq)]
pub struct CqlDuration {
    pub months: i32,
    pub days: i32,
    pub nanoseconds: i64,
}

/// A typed CQL value.
///
/// Floating-point values are carried by their IEEE-754 bit patterns.
/// Identifiers, addresses and arbitrary-precision numbers are carried by
/// their textual form, which is all that decoding exposes of them.
#[derive(Debug, PartialEq)]
pub enum CqlValue {
    Ascii(String),
    Text(String),
    Boolean(bool),
    Int(i32),
    BigInt(i64),
    SmallInt(i16),
    TinyInt(i8),
    Counter(i64),
    Float(u32),
    Double(u64),
    Blob(Vec<u8>),
    Uuid(String),
    Timeuuid(String),
    Inet(String),
    List(Vec<CqlValue>),
    SetOf(Vec<CqlValue>),
    MapOf(Vec<(CqlValue, CqlValue)>),
    Timestamp(i64),
    Date(u32),
    Time(i64),
    Duration(CqlDuration),
    Varint(String),
    Decimal(String),
    Tuple(Vec<Option<CqlValue>>),
    UserDefinedType { keyspace: String, udt_name: String, fields: Vec<(String, Option<CqlValue>)> },
    Empty,
}

/// A value of the dynamically typed host.
///
/// Host floats are carried by their bit patterns: `Single` holds the bits of
/// the 32-bit float that a host float is sent as, when the host has judged
/// that the narrowing keeps the value close enough; `Double` holds the bits
/// of any other host float.
/// `Other` is a host value of a type with no CQL counterpart, carried by the
/// name of its type.
#[derive(Debug, PartialEq)]
pub enum HostValue {
    Null,
    Bool(bool),
    Int(i64),
    Single(u32),
    Double(u64),
    Text(String),
    Bytes(Vec<u8>),
    List(Vec<HostValue>),
    Dict(Vec<(HostValue, HostValue)>),
    Other(String),
}

/// The error of `py_to_cql_value`: a host type that no CQL type represents.
#[derive(Debug, PartialEq)]
pub struct UnsupportedType {
    pub host_type: String,
}

impl UnsupportedType {
    /// "Cannot convert Python type <type> to CQL value".
    pub fn message(&self) -> (r: String)
        ensures
            r@ == "Cannot convert Python type "@ + self.host_type@ + " to CQL value"@,
    {
        let s = String::from_str("Cannot convert Python type ");
        let s = s.concat(self.host_type.as_str());
        s.concat(" to CQL value")
    }
}

pub open spec fn fits_i32(i: i64) -> bool {
    i32::MIN <= i <= i32::MAX
}

/// `h` is the text `s`.
pub open spec fn is_text(h: HostValue, s: Seq<char>) -> bool {
    h is Text && h->Text_0@ == s
}

/// `h` is a host integer with value `i`.
pub open spec fn is_int(h: HostValue, i: int) -> bool {
    h is Int && h->Int_0 == i
}

/// The host mapping that a duration decodes to.
pub open spec fn is_duration_dict(h: HostValue, d: CqlDuration) -> bool {
    &&& h is Dict
    &&& h->Dict_0@.len() == 3
    &&& is_text(h->Dict_0@[0].0, "months"@) && is_int(h->Dict_0@[0].1, d.months as int)
    &&& is_text(h->Dict_0@[1].0, "days"@) && is_int(h->Dict_0@[1].1, d.days as int)
    &&& is_text(h->Dict_0@[2].0, "nanoseconds"@) && is_int(h->Dict_0@[2].1, d.nanoseconds as int)
}

/// `h` is what `c` decodes to.
pub open spec fn decodes_to(c: CqlValue, h: HostValue) -> bool
    decreases c,
{
    match c {
        CqlValue::Ascii(s) => is_text(h, s@),
        CqlValue::Text(s) => is_text(h, s@),
        CqlValue::Boolean(b) => h == HostValue::Bool(b),
        CqlValue::Int(i) => is_int(h, i as int),
        CqlValue::BigInt(i) => is_int(h, i as int),
        CqlValue::SmallInt(i) => is_int(h, i as int),
        CqlValue::TinyInt(i) => is_int(h, i as int),
        CqlValue::Counter(i) => is_int(h, i as int),
        CqlValue::Float(b) => h == HostValue::Single(b),
        CqlValue::Double(b) => h == HostValue::Double(b),
        CqlValue::Blob(b) => h is Bytes && h->Bytes_0@ == b@,
        CqlValue::Uuid(s) => is_text(h, s@),
        CqlValue::Timeuuid(s) => is_text(h, s@),
        CqlValue::Inet(s) => is_text(h, s@),
        CqlValue::List(items) => {
            &&& h is List
            &&& h->List_0@.len() == items@.len()
            &&& forall|i: int| 0 <= i < items@.len() ==> decodes_to(items@[i], #[trigger] h->List_0@[i])
        },
        CqlValue::SetOf(items) => {
            &&& h is List
            &&& h->List_0@.len() == items@.len()
            &&& forall|i: int| 0 <= i < items@.len() ==> decodes_to(items@[i], #[trigger] h->List_0@[i])
        },
        CqlValue::MapOf(pairs) => {
            &&& h is Dict
            &&& h->Dict_0@.len() == pairs@.len()
            &&& forall|i: int|
                0 <= i < pairs@.len() ==> decodes_to(pairs@[i].0, (#[trigger] h->Dict_0@[i]).0)
                    && decodes_to(pairs@[i].1, h->Dict_0@[i].1)
        },
        CqlValue::Timestamp(t) => is_int(h, t as int),
        CqlValue::Date(d) => is_int(h, d as int),
        CqlValue::Time(t) => is_int(h, t as int),
        CqlValue::Duration(d) => is_duration_dict(h, d),
        CqlValue::Varint(s) => is_text(h, s@),
        CqlValue::Decimal(s) => is_text(h, s@),
        CqlValue::Tuple(items) => {
            &&& h is List
            &&& h->List_0@.len() == items@.len()
            &&& forall|i: int|
                0 <= i < items@.len() ==> match items@[i] {
                    Some(x) => decodes_to(x, #[trigger] h->List_0@[i]),
                    None => h->List_0@[i] is Null,
                }
        },
        CqlValue::UserDefinedType { fields, .. } => {
            &&& h is Dict
            &&& h->Dict_0@.len() == fields@.len()
            &&& forall|i: int|
                0 <= i < fields@.len() ==> is_text((#[trigger] h->Dict_0@[i]).0, fields@[i].0@)
                    && match fields@[i].1 {
                    Some(x) => decodes_to(x, h->Dict_0@[i].1),
                    None => h->Dict_0@[i].1 is Null,
                }
        },
        CqlValue::Empty => h is Null,
    }
}

fn text_of(s: &String) -> (r: HostValue)
    ensures
        is_text(r, s@),
{
    HostValue::Text(s.clone())
}

fn int_of(i: i64) -> (r: HostValue)
    ensures
        is_int(r, i as int),
{
    HostValue::Int(i)
}

fn duration_dict(d: CqlDuration) -> (r: HostValue)
    ensures
        is_duration_dict(r, d),
{
    let mut pairs: Vec<(HostValue, HostValue)> = Vec::new();
    pairs.push((HostValue::Text(String::from_str("months")), HostValue::Int(d.months as i64)));
    pairs.push((HostValue::Text(String::from_str("days")), HostValue::Int(d.days as i64)));
    pairs.push(
        (HostValue::Text(String::from_str("nanoseconds")), HostValue::Int(d.nanoseconds)),
    );
    HostValue::Dict(pairs)
}

fn decode_all(items: &Vec<CqlValue>) -> (r: Vec<HostValue>)
    ensures
        r@.len() == items@.len(),
        forall|i: int| 0 <= i < items@.len() ==> decodes_to(items@[i], #[trigger] r@[i]),
    decreases items,
{
    let mut out: Vec<HostValue> = Vec::new();
    let mut i: usize = 0;
    while i < items.len()
        invariant
            i <= items@.len(),
            out@.len() == i,
            forall|j: int| 0 <= j < i ==> decodes_to(items@[j], #[trigger] out@[j]),
        decreases items@.len() - i,
    {
        let h = cql_value_to_py(&items[i]);
        out.push(h);
        i = i + 1;
    }
    out
}

fn decode_pairs(pairs: &Vec<(CqlValue, CqlValue)>) -> (r: Vec<(HostValue, HostValue)>)
    ensures
        r@.len() == pairs@.len(),
        forall|j: int|
            0 <= j < pairs@.len() ==> decodes_to(pairs@[j].0, (#[trigger] r@[j]).0)
                && decodes_to(pairs@[j].1, r@[j].1),
    decreases pairs,
{
    let mut out: Vec<(HostValue, HostValue)> = Vec::new();
    let mut i: usize = 0;
    while i < pairs.len()
        invariant
            i <= pairs@.len(),
            out@.len() == i,
            forall|j: int|
                0 <= j < i ==> decodes_to(pairs@[j].0, (#[trigger] out@[j]).0)
                    && decodes_to(pairs@[j].1, out@[j].1),
        decreases pairs@.len() - i,
    {
        proof {
            assert(decreases_to!(*pairs => pairs[i as int]));
        }
        let k = cql_value_to_py(&pairs[i].0);
        let v = cql_value_to_py(&pairs[i].1);
        out.push((k, v));
        i = i + 1;
    }
    out
}

fn decode_optionals(items: &Vec<Option<CqlValue>>) -> (r: Vec<HostValue>)
    ensures
        r@.len() == items@.len(),
        forall|j: int|
            0 <= j < items@.len() ==> match items@[j] {
                Some(x) => decodes_to(x, #[trigger] r@[j]),
                None => r@[j] is Null,
            },
    decreases items,
{
    let mut out: Vec<HostValue> = Vec::new();
    let mut i: usize = 0;
    while i < items.len()
        invariant
            i <= items@.len(),
            out@.len() == i,
            forall|j: int|
                0 <= j < i ==> match items@[j] {
                    Some(x) => decodes_to(x, #[trigger] out@[j]),
                    None => out@[j] is Null,
                },
        decreases items@.len() - i,
    {
        proof {
            assert(decreases_to!(*items => items[i as int]));
        }
        match &items[i] {
            Some(x) => out.push(cql_value_to_py(x)),
            None => out.push(HostValue::Null),
        }
        i = i + 1;
    }
    out
}

fn decode_fields(fields: &Vec<(String, Option<CqlValue>)>) -> (r: Vec<(HostValue, HostValue)>)
    ensures
        r@.len() == fields@.len(),
        forall|j: int|
            0 <= j < fields@.len() ==> is_text((#[trigger] r@[j]).0, fields@[j].0@) && match fields@[j].1 {
                Some(x) => decodes_to(x, r@[j].1),
                None => r@[j].1 is Null,
            },
    decreases fields,
{
    let mut out: Vec<(HostValue, HostValue)> = Vec::new();
    let mut i: usize = 0;
    while i < fields.len()
        invariant
            i <= fields@.len(),
            out@.len() == i,
            forall|j: int|
                0 <= j < i ==> is_text((#[trigger] out@[j]).0, fields@[j].0@) && match fields@[j].1 {
                    Some(x) => decodes_to(x, out@[j].1),
                    None => out@[j].1 is Null,
                },
        decreases fields@.len() - i,
    {
        proof {
            assert(decreases_to!(*fields => fields[i as int]));
        }
        let name = text_of(&fields[i].0);
        match &fields[i].1 {
            Some(x) => out.push((name, cql_value_to_py(x))),
            None => out.push((name, HostValue::Null)),
        }
        i = i + 1;
    }
    out
}

/// Decodes a CQL value to a host value. Never fails.
pub fn cql_value_to_py(value: &CqlValue) -> (r: HostValue)
    ensures
        decodes_to(*value, r),
    decreases value,
{
    match value {
        CqlValue::Ascii(s) => text_of(s),
        CqlValue::Text(s) => text_of(s),
        CqlValue::Boolean(b) => HostValue::Bool(*b),
        CqlValue::Int(i) => int_of(*i as i64),
        CqlValue::BigInt(i) => int_of(*i),
        CqlValue::SmallInt(i) => int_of(*i as i64),
        CqlValue::TinyInt(i) => int_of(*i as i64),
        CqlValue::Counter(i) => int_of(*i),
        CqlValue::Float(b) => HostValue::Single(*b),
        CqlValue::Double(b) => HostValue::Double(*b),
        CqlValue::Blob(b) => HostValue::Bytes(b.clone()),
        CqlValue::Uuid(s) => text_of(s),
        CqlValue::Timeuuid(s) => text_of(s),
        CqlValue::Inet(s) => text_of(s),
        CqlValue::List(items) => HostValue::List(decode_all(items)),
        CqlValue::SetOf(items) => HostValue::List(decode_all(items)),
        CqlValue::MapOf(pairs) => HostValue::Dict(decode_pairs(pairs)),
        CqlValue::Timestamp(t) => int_of(*t),
        CqlValue::Date(d) => int_of(*d as i64),
        CqlValue::Time(t) => int_of(*t),
        CqlValue::Duration(d) => duration_dict(*d),
        CqlValue::Varint(s) => text_of(s),
        CqlValue::Decimal(s) => text_of(s),
        CqlValue::Tuple(items) => HostValue::List(decode_optionals(items)),
        CqlValue::UserDefinedType { fields, .. } => HostValue::Dict(decode_fields(fields)),
        CqlValue::Empty => HostValue::Null,
    }
}

/// `h` can be encoded: it holds no value of an unsupported host type.
pub open spec fn encodable(h: HostValue) -> bool
    decreases h,
{
    match h {
        HostValue::List(items) => forall|i: int| 0 <= i < items@.len() ==> encodable(#[trigger] items@[i]),
        HostValue::Dict(pairs) => forall|i: int|
            0 <= i < pairs@.len() ==> encodable((#[trigger] pairs@[i]).0) && encodable(pairs@[i].1),
        HostValue::Other(_) => false,
        _ => true,
    }
}

/// `t` is the type name of the first unsupported host value in `h`, in the
/// order in which encoding visits values: list elements in order, and in a
/// mapping the entries in order, each key before its value.
pub open spec fn first_unsupported_type(h: HostValue, t: Seq<char>) -> bool
    decreases h,
{
    match h {
        HostValue::List(items) => exists|i: int|
            0 <= i < items@.len() && (forall|j: int| 0 <= j < i ==> encodable(#[trigger] items@[j]))
                && first_unsupported_type(#[trigger] items@[i], t),
        HostValue::Dict(pairs) => exists|i: int|
            0 <= i < pairs@.len() && (forall|j: int|
                0 <= j < i ==> encodable((#[trigger] pairs@[j]).0) && encodable(pairs@[j].1)) && (
            first_unsupported_type((#[trigger] pairs@[i]).0, t) || (encodable(pairs@[i].0)
                && first_unsupported_type(pairs@[i].1, t))),
        HostValue::Other(n) => n@ == t,
        _ => false,
    }
}

/// `c` is what `h` encodes to. Integers take the narrow `Int` form when they
/// fit in 32 bits and the wide `BigInt` form otherwise.
pub open spec fn encodes_to(h: HostValue, c: CqlValue) -> bool
    decreases h,
{
    match h {
        HostValue::Null => c is Empty,
        HostValue::Bool(b) => c == CqlValue::Boolean(b),
        HostValue::Int(i) => if fits_i32(i) {
            c == CqlValue::Int(i as i32)
        } else {
            c == CqlValue::BigInt(i)
        },
        HostValue::Single(b) => c == CqlValue::Float(b),
        HostValue::Double(b) => c == CqlValue::Double(b),
        HostValue::Text(s) => c is Text && c->Text_0@ == s@,
        HostValue::Bytes(b) => c is Blob && c->Blob_0@ == b@,
        HostValue::List(items) => {
            &&& c is List
            &&& c->List_0@.len() == items@.len()
            &&& forall|i: int| 0 <= i < items@.len() ==> encodes_to(items@[i], #[trigger] c->List_0@[i])
        },
        HostValue::Dict(pairs) => {
            &&& c is MapOf
            &&& c->MapOf_0@.len() == pairs@.len()
            &&& forall|i: int|
                0 <= i < pairs@.len() ==> encodes_to(pairs@[i].0, (#[trigger] c->MapOf_0@[i]).0)
                    && encodes_to(pairs@[i].1, c->MapOf_0@[i].1)
        },
        HostValue::Other(_) => false,
    }
}

fn encode_all(items: &Vec<HostValue>) -> (r: Result<Vec<CqlValue>, UnsupportedType>)
    ensures
        r is Ok <==> forall|i: int| 0 <= i < items@.len() ==> encodable(#[trigger] items@[i]),
        r matches Ok(out) ==> out@.len() == items@.len() && forall|i: int|
            0 <= i < items@.len() ==> encodes_to(items@[i], #[trigger] out@[i]),
        r matches Err(e) ==> exists|i: int|
            0 <= i < items@.len() && (forall|j: int| 0 <= j < i ==> encodable(#[trigger] items@[j]))
                && first_unsupported_type(#[trigger] items@[i], e.host_type@),
    decreases items,
{
    let mut out: Vec<CqlValue> = Vec::new();
    let mut i: usize = 0;
    while i < items.len()
        invariant
            i <= items@.len(),
            out@.len() == i,
            forall|j: int| 0 <= j < i ==> encodable(#[trigger] items@[j]),
            forall|j: int| 0 <= j < i ==> encodes_to(items@[j], #[trigger] out@[j]),
        decreases items@.len() - i,
    {
        match py_to_cql_value(&items[i]) {
            Ok(c) => out.push(c),
            Err(e) => {
                return Err(e);
            },
        }
        i = i + 1;
    }
    Ok(out)
}

fn encode_pairs(pairs: &Vec<(HostValue, HostValue)>) -> (r: Result<Vec<(CqlValue, CqlValue)>, UnsupportedType>)
    ensures
        r is Ok <==> forall|i: int|
            0 <= i < pairs@.len() ==> encodable((#[trigger] pairs@[i]).0) && encodable(pairs@[i].1),
        r matches Ok(out) ==> out@.len() == pairs@.len() && forall|i: int|
            0 <= i < pairs@.len() ==> encodes_to(pairs@[i].0, (#[trigger] out@[i]).0)
                && encodes_to(pairs@[i].1, out@[i].1),
        r matches Err(e) ==> exists|i: int|
            0 <= i < pairs@.len() && (forall|j: int|
                0 <= j < i ==> encodable((#[trigger] pairs@[j]).0) && encodable(pairs@[j].1)) && (
            first_unsupported_type((#[trigger] pairs@[i]).0, e.host_type@) || (encodable(
                pairs@[i].0,
            ) && first_unsupported_type(pairs@[i].1, e.host_type@))),
    decreases pairs,
{
    let mut out: Vec<(CqlValue, CqlValue)> = Vec::new();
    let mut i: usize = 0;
    while i < pairs.len()
        invariant
            i <= pairs@.len(),
            out@.len() == i,
            forall|j: int| 0 <= j < i ==> encodable((#[trigger] pairs@[j]).0) && encodable(pairs@[j].1),
            forall|j: int|
                0 <= j < i ==> encodes_to(pairs@[j].0, (#[trigger] out@[j]).0)
                    && encodes_to(pairs@[j].1, out@[j].1),
        decreases pairs@.len() - i,
    {
        proof {
            assert(decreases_to!(*pairs => pairs[i as int]));
        }
        let k = match py_to_cql_value(&pairs[i].0) {
            Ok(c) => c,
            Err(e) => {
                return Err(e);
            },
        };
        let v = match py_to_cql_value(&pairs[i].1) {
            Ok(c) => c,
            Err(e) => {
                return Err(e);
            },
        };
        out.push((k, v));
        i = i + 1;
    }
    Ok(out)
}

/// Encodes a host value as a CQL value.
///
/// Null, booleans, integers, floats, text, bytes, lists and mappings are
/// classified in that order; lists and mappings are encoded element by
/// element. Any other host type is refused, naming the first such value's
/// type in the order of encoding.
pub fn py_to_cql_value(obj: &HostValue) -> (r: Result<CqlValue, UnsupportedType>)
    ensures
        r is Ok <==> encodable(*obj),
        r matches Ok(c) ==> encodes_to(*obj, c),
        r matches Err(e) ==> first_unsupported_type(*obj, e.host_type@),
    decreases obj,
{
    match obj {
        HostValue::Null => Ok(CqlValue::Empty),
        HostValue::Bool(b) => Ok(CqlValue::Boolean(*b)),
        HostValue::Int(i) => {
            if i32::MIN as i64 <= *i && *i <= i32::MAX as i64 {
                Ok(CqlValue::Int(*i as i32))
            } else {
                Ok(CqlValue::BigInt(*i))
            }
        },
        HostValue::Single(b) => Ok(CqlValue::Float(*b)),
        HostValue::Double(b) => Ok(CqlValue::Double(*b)),
        HostValue::Text(s) => Ok(CqlValue::Text(s.clone())),
        HostValue::Bytes(b) => Ok(CqlValue::Blob(b.clone())),
        HostValue::List(items) => match encode_all(items) {
            Ok(out) => Ok(CqlValue::List(out)),
            Err(e) => Err(e),
        },
        HostValue::Dict(pairs) => match encode_pairs(pairs) {
            Ok(out) => Ok(CqlValue::MapOf(out)),
            Err(e) => Err(e),
        },
        HostValue::Other(n) => Err(UnsupportedType { host_type: n.clone() }),
    }
}

/// Encodes a host mapping of names to values, in the mapping's order. An
/// absent mapping gives no values. Fails when some value cannot be encoded.
pub fn py_dict_to_values(dict: Option<&Vec<(String, HostValue)>>) -> (r: Result<
    Vec<(String, CqlValue)>,
    UnsupportedType,
>)
    ensures
        dict is None ==> r is Ok && r->Ok_0@.len() == 0,
        dict is Some ==> (r is Ok <==> forall|i: int|
            0 <= i < dict->Some_0@.len() ==> encodable((#[trigger] dict->Some_0@[i]).1)),
        dict is Some && r is Ok ==> r->Ok_0@.len() == dict->Some_0@.len() && forall|i: int|
            0 <= i < dict->Some_0@.len() ==> (#[trigger] r->Ok_0@[i]).0@ == dict->Some_0@[i].0@
                && encodes_to(dict->Some_0@[i].1, r->Ok_0@[i].1),
        r is Err ==> dict is Some && exists|i: int|
            0 <= i < dict->Some_0@.len() && (forall|j: int|
                0 <= j < i ==> encodable((#[trigger] dict->Some_0@[j]).1)) && first_unsupported_type(
                (#[trigger] dict->Some_0@[i]).1,
                r->Err_0.host_type@,
            ),
{
    let mut out: Vec<(String, CqlValue)> = Vec::new();
    match dict {
        None => Ok(out),
        Some(d) => {
            let mut i: usize = 0;
            while i < d.len()
                invariant
                    dict == Some(d),
                    i <= d@.len(),
                    out@.len() == i,
                    forall|j: int| 0 <= j < i ==> encodable((#[trigger] d@[j]).1),
                    forall|j: int|
                        0 <= j < i ==> (#[trigger] out@[j]).0@ == d@[j].0@ && encodes_to(d@[j].1, out@[j].1),
                decreases d@.len() - i,
            {
                match py_to_cql_value(&d[i].1) {
                    Ok(c) => out.push((d[i].0.clone(), c)),
                    Err(e) => {
                        proof {
                            assert(!encodable(d@[i as int].1));
                            assert(first_unsupported_type(d@[i as int].1, e.host_type@));
                            assert(dict->Some_0@[i as int] == d@[i as int]);
                            assert(!encodable(dict->Some_0@[i as int].1));
                        }
                        return Err(e);
                    },
                }
                i = i + 1;
            }
            Ok(out)
        },
    }
}

/// `h` is a boolean, an integer, a text or a byte sequence.
pub open spec fn is_scalar(h: HostValue) -> bool {
    h is Bool || h is Int || h is Text || h is Bytes
}

/// Host values `a` and `b` are the same scalar.
pub open spec fn same_scalar(a: HostValue, b: HostValue) -> bool {
    match (a, b) {
        (HostValue::Bool(x), HostValue::Bool(y)) => x == y,
        (HostValue::Int(x), HostValue::Int(y)) => x == y,
        (HostValue::Text(x), HostValue::Text(y)) => x@ == y@,
        (HostValue::Bytes(x), HostValue::Bytes(y)) => x@ == y@,
        _ => false,
    }
}

/// Encoding then decoding a boolean, an integer, a text or a byte sequence
/// gives back the same value.
pub proof fn lemma_scalar_round_trip(v: HostValue, c: CqlValue, h: HostValue)
    requires
        is_scalar(v),
        encodes_to(v, c),
        decodes_to(c, h),
    ensures
        same_scalar(h, v),
{
}

/// An integer is encoded in the narrow `Int` form exactly when it lies in
/// the signed 32-bit range, and in the wide `BigInt` form otherwise.
pub proof fn lemma_integer_width(i: i64, c: CqlValue)
    requires
        encodes_to(HostValue::Int(i), c),
    ensures
        c is Int <==> fits_i32(i),
        c is BigInt <==> !fits_i32(i),
        c is Int ==> c->Int_0 == i,
        c is BigInt ==> c->BigInt_0 == i,
{
}

} // verus!
