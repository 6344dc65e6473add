//! The keyed serialization path: named request parameters built from host
//! values, with narrower rules for nested collections than `py_to_cql_value`.
use vstd::prelude::*;
use vstd::string::*;
use crate::value::{HostValue, fits_i32};

verus! {

/// One named parameter in the form it is written to the wire.
#[derive(Debug, PartialEq)]
pub enum NamedParam {
    Null,
    Bool(bool),
    Int(i32),
    BigInt(i64),
    Float(u32),
    Double(u64),
    Text(String),
    Blob(Vec<u8>),
    TextMap(Vec<(String, String)>),
    IntMap(Vec<(String, i64)>),
    TextList(Vec<String>),
}

/// A named parameter whose host value has no wire form.
#[derive(Debug, PartialEq)]
pub struct SerializeError {
    pub key: String,
    pub host_type: String,
}

impl SerializeError {
    /// "Cannot serialize Python type for key '<key>': <type>".
    pub fn message(&self) -> (r: String)
        ensures
            r@ == "Cannot serialize Python type for key '"@ + self.key@ + "': "@ + self.host_type@,
    {
        let s = String::from_str("Cannot serialize Python type for key '");
        let s = s.concat(self.key.as_str());
        let s = s.concat("': ");
        s.concat(self.host_type.as_str())
    }
}

/// Every entry of the mapping is a text key with a text value.
pub open spec fn all_text_entries(pairs: Seq<(HostValue, HostValue)>) -> bool {
    forall|i: int| 0 <= i < pairs.len() ==> (#[trigger] pairs[i]).0 is Text && pairs[i].1 is Text
}

/// Every entry of the mapping is a text key with an integer value.
pub open spec fn all_int_entries(pairs: Seq<(HostValue, HostValue)>) -> bool {
    forall|i: int| 0 <= i < pairs.len() ==> (#[trigger] pairs[i]).0 is Text && pairs[i].1 is Int
}

/// The texts among `items`, in order; other elements are left out.
pub open spec fn text_elements(items: Seq<HostValue>) -> Seq<Seq<char>>
    decreases items.len(),
{
    if items.len() == 0 {
        Seq::empty()
    } else {
        let rest = text_elements(items.drop_last());
        match items.last() {
            HostValue::Text(s) => rest.push(s@),
            _ => rest,
        }
    }
}

/// `p` is the wire form of the host value `h` on the keyed path.
///
/// A mapping becomes a text map when it is non-empty and all its entries are
/// text to text, an integer map when all its entries are text to integer, and
/// an empty integer map otherwise. A list keeps its text elements only.
pub open spec fn param_of(h: HostValue, p: NamedParam) -> bool {
    match h {
        HostValue::Null => p is Null,
        HostValue::Bool(b) => p == NamedParam::Bool(b),
        HostValue::Int(i) => if fits_i32(i) {
            p == NamedParam::Int(i as i32)
        } else {
            p == NamedParam::BigInt(i)
        },
        HostValue::Single(b) => p == NamedParam::Float(b),
        HostValue::Double(b) => p == NamedParam::Double(b),
        HostValue::Text(s) => p is Text && p->Text_0@ == s@,
        HostValue::Bytes(b) => p is Blob && p->Blob_0@ == b@,
        HostValue::Dict(pairs) => if pairs@.len() > 0 && all_text_entries(pairs@) {
            &&& p is TextMap
            &&& p->TextMap_0@.len() == pairs@.len()
            &&& forall|i: int|
                0 <= i < pairs@.len() ==> (#[trigger] p->TextMap_0@[i]).0@ == pairs@[i].0->Text_0@
                    && p->TextMap_0@[i].1@ == pairs@[i].1->Text_0@
        } else if all_int_entries(pairs@) {
            &&& p is IntMap
            &&& p->IntMap_0@.len() == pairs@.len()
            &&& forall|i: int|
                0 <= i < pairs@.len() ==> (#[trigger] p->IntMap_0@[i]).0@ == pairs@[i].0->Text_0@
                    && p->IntMap_0@[i].1 == pairs@[i].1->Int_0
        } else {
            p is IntMap && p->IntMap_0@.len() == 0
        },
        HostValue::List(items) => {
            &&& p is TextList
            &&& p->TextList_0@.len() == text_elements(items@).len()
            &&& forall|i: int|
                0 <= i < p->TextList_0@.len() ==> (#[trigger] p->TextList_0@[i])@ == text_elements(items@)[i]
        },
        HostValue::Other(_) => false,
    }
}

/// `out` is the named parameter list built from `values`, entry by entry.
pub open spec fn serializes_to(values: Seq<(String, HostValue)>, out: Seq<(String, NamedParam)>) -> bool {
    &&& out.len() == values.len()
    &&& forall|i: int|
        0 <= i < values.len() ==> (#[trigger] out[i]).0@ == values[i].0@ && param_of(values[i].1, out[i].1)
}

/// Some entry of `values` holds a host value that has no wire form.
pub open spec fn has_unsupported(values: Seq<(String, HostValue)>) -> bool {
    exists|i: int| 0 <= i < values.len() && (#[trigger] values[i]).1 is Other
}

/// `e` names the first entry of `values` whose host value has no wire form.
pub open spec fn first_unsupported(values: Seq<(String, HostValue)>, e: SerializeError) -> bool {
    exists|i: int|
        0 <= i < values.len() && (#[trigger] values[i]).1 is Other
            && (forall|j: int| 0 <= j < i ==> !(#[trigger] values[j].1 is Other))
            && e.key@ == values[i].0@ && e.host_type@ == values[i].1->Other_0@
}

fn text_map(pairs: &Vec<(HostValue, HostValue)>) -> (r: Vec<(String, String)>)
    requires
        all_text_entries(pairs@),
    ensures
        r@.len() == pairs@.len(),
        forall|i: int|
            0 <= i < pairs@.len() ==> (#[trigger] r@[i]).0@ == pairs@[i].0->Text_0@
                && r@[i].1@ == pairs@[i].1->Text_0@,
{
    let mut out: Vec<(String, String)> = Vec::new();
    let mut i: usize = 0;
    while i < pairs.len()
        invariant
            all_text_entries(pairs@),
            i <= pairs@.len(),
            out@.len() == i,
            forall|j: int|
                0 <= j < i ==> (#[trigger] out@[j]).0@ == pairs@[j].0->Text_0@
                    && out@[j].1@ == pairs@[j].1->Text_0@,
        decreases pairs@.len() - i,
    {
        proof {
            assert(pairs@[i as int].0 is Text && pairs@[i as int].1 is Text);
        }
        match (&pairs[i].0, &pairs[i].1) {
            (HostValue::Text(k), HostValue::Text(v)) => out.push((k.clone(), v.clone())),
            _ => {},
        }
        i = i + 1;
    }
    out
}

fn int_map(pairs: &Vec<(HostValue, HostValue)>) -> (r: Vec<(String, i64)>)
    requires
        all_int_entries(pairs@),
    ensures
        r@.len() == pairs@.len(),
        forall|i: int|
            0 <= i < pairs@.len() ==> (#[trigger] r@[i]).0@ == pairs@[i].0->Text_0@
                && r@[i].1 == pairs@[i].1->Int_0,
{
    let mut out: Vec<(String, i64)> = Vec::new();
    let mut i: usize = 0;
    while i < pairs.len()
        invariant
            all_int_entries(pairs@),
            i <= pairs@.len(),
            out@.len() == i,
            forall|j: int|
                0 <= j < i ==> (#[trigger] out@[j]).0@ == pairs@[j].0->Text_0@
                    && out@[j].1 == pairs@[j].1->Int_0,
        decreases pairs@.len() - i,
    {
        proof {
            assert(pairs@[i as int].0 is Text && pairs@[i as int].1 is Int);
        }
        match (&pairs[i].0, &pairs[i].1) {
            (HostValue::Text(k), HostValue::Int(v)) => out.push((k.clone(), *v)),
            _ => {},
        }
        i = i + 1;
    }
    out
}

fn check_text_entries(pairs: &Vec<(HostValue, HostValue)>) -> (r: bool)
    ensures
        r == all_text_entries(pairs@),
{
    let mut i: usize = 0;
    while i < pairs.len()
        invariant
            i <= pairs@.len(),
            forall|j: int| 0 <= j < i ==> (#[trigger] pairs@[j]).0 is Text && pairs@[j].1 is Text,
        decreases pairs@.len() - i,
    {
        match (&pairs[i].0, &pairs[i].1) {
            (HostValue::Text(_), HostValue::Text(_)) => {},
            _ => {
                return false;
            },
        }
        i = i + 1;
    }
    true
}

fn check_int_entries(pairs: &Vec<(HostValue, HostValue)>) -> (r: bool)
    ensures
        r == all_int_entries(pairs@),
{
    let mut i: usize = 0;
    while i < pairs.len()
        invariant
            i <= pairs@.len(),
            forall|j: int| 0 <= j < i ==> (#[trigger] pairs@[j]).0 is Text && pairs@[j].1 is Int,
        decreases pairs@.len() - i,
    {
        match (&pairs[i].0, &pairs[i].1) {
            (HostValue::Text(_), HostValue::Int(_)) => {},
            _ => {
                return false;
            },
        }
        i = i + 1;
    }
    true
}

fn text_list(items: &Vec<HostValue>) -> (r: Vec<String>)
    ensures
        r@.len() == text_elements(items@).len(),
        forall|i: int| 0 <= i < r@.len() ==> (#[trigger] r@[i])@ == text_elements(items@)[i],
{
    let mut out: Vec<String> = Vec::new();
    let mut i: usize = 0;
    while i < items.len()
        invariant
            i <= items@.len(),
            out@.len() == text_elements(items@.subrange(0, i as int)).len(),
            forall|j: int|
                0 <= j < out@.len() ==> (#[trigger] out@[j])@ == text_elements(items@.subrange(0, i as int))[j],
        decreases items@.len() - i,
    {
        proof {
            assert(items@.subrange(0, i + 1).drop_last() =~= items@.subrange(0, i as int));
        }
        match &items[i] {
            HostValue::Text(s) => out.push(s.clone()),
            _ => {},
        }
        i = i + 1;
    }
    proof {
        assert(items@.subrange(0, items@.len() as int) =~= items@);
    }
    out
}

/// The wire form of one named parameter's host value, or the host type's
/// name where it has none.
pub fn encode_named(h: &HostValue) -> (r: Option<NamedParam>)
    ensures
        r is None <==> h is Other,
        r matches Some(p) ==> param_of(*h, p),
{
    match h {
        HostValue::Null => Some(NamedParam::Null),
        HostValue::Bool(b) => Some(NamedParam::Bool(*b)),
        HostValue::Int(i) => {
            if i32::MIN as i64 <= *i && *i <= i32::MAX as i64 {
                Some(NamedParam::Int(*i as i32))
            } else {
                Some(NamedParam::BigInt(*i))
            }
        },
        HostValue::Single(b) => Some(NamedParam::Float(*b)),
        HostValue::Double(b) => Some(NamedParam::Double(*b)),
        HostValue::Text(s) => Some(NamedParam::Text(s.clone())),
        HostValue::Bytes(b) => Some(NamedParam::Blob(b.clone())),
        HostValue::Dict(pairs) => {
            if pairs.len() > 0 && check_text_entries(pairs) {
                Some(NamedParam::TextMap(text_map(pairs)))
            } else if check_int_entries(pairs) {
                Some(NamedParam::IntMap(int_map(pairs)))
            } else {
                Some(NamedParam::IntMap(Vec::new()))
            }
        },
        HostValue::List(items) => Some(NamedParam::TextList(text_list(items))),
        HostValue::Other(_) => None,
    }
}

/// Builds the named parameters of a request from a host mapping of names to
/// values, in the mapping's order. An absent mapping gives no parameters.
/// Fails on the first entry whose value has no wire form, naming its key and
/// host type.
pub fn py_dict_to_serialized_values(dict: Option<&Vec<(String, HostValue)>>) -> (r: Result<
    Vec<(String, NamedParam)>,
    SerializeError,
>)
    ensures
        dict is None ==> r is Ok && r->Ok_0@.len() == 0,
        dict is Some ==> (r is Ok <==> !has_unsupported(dict->Some_0@)),
        dict is Some && r is Ok ==> serializes_to(dict->Some_0@, r->Ok_0@),
        r is Err ==> dict is Some && first_unsupported(dict->Some_0@, r->Err_0),
{
    let mut out: Vec<(String, NamedParam)> = Vec::new();
    match dict {
        None => Ok(out),
        Some(d) => {
            let mut i: usize = 0;
            while i < d.len()
                invariant
                    dict == Some(d),
                    i <= d@.len(),
                    out@.len() == i,
                    forall|j: int| 0 <= j < i ==> !(#[trigger] d@[j].1 is Other),
                    forall|j: int|
                        0 <= j < i ==> (#[trigger] out@[j]).0@ == d@[j].0@ && param_of(d@[j].1, out@[j].1),
                decreases d@.len() - i,
            {
                match encode_named(&d[i].1) {
                    Some(p) => out.push((d[i].0.clone(), p)),
                    None => {
                        let host_type = match &d[i].1 {
                            HostValue::Other(n) => n.clone(),
                            _ => String::new(),
                        };
                        let e = SerializeError { key: d[i].0.clone(), host_type };
                        proof {
                            assert(d@[i as int].1 is Other);
                            assert(has_unsupported(d@));
                            assert(first_unsupported(d@, e));
                        }
                        return Err(e);
                    },
                }
                i = i + 1;
            }
            proof {
                assert(!has_unsupported(d@));
            }
            Ok(out)
        },
    }
}

} // verus!
