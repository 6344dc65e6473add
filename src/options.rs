//! Consistency levels, their case-insensitive parsing, and the option record
//! that statements and batches carry.
use vstd::prelude::*;
use vstd::string::*;
use crate::text::{text_eq, to_upper, upper_of};

verus! {

/// How many replicas must acknowledge an operation.
#[derive(Clone, Copy, Debug, PartialEq, Eq, Structural)]
pub enum Consistency {
    Any,
    One,
    Two,
    Three,
    Quorum,
    All,
    LocalQuorum,
    EachQuorum,
    LocalOne,
}

/// The consistency of the linearizable phase of a conditional write.
#[derive(Clone, Copy, Debug, PartialEq, Eq, Structural)]
pub enum SerialConsistency {
    Serial,
    LocalSerial,
}

/// A rejected option value, carrying the offending text.
#[derive(Debug, PartialEq)]
pub enum OptionError {
    InvalidConsistency(String),
    InvalidSerialConsistency(String),
}

impl OptionError {
    /// "Invalid consistency level: <text>", or the same for a serial level.
    pub fn message(&self) -> (r: String)
        ensures
            self matches OptionError::InvalidConsistency(t) ==> r@ == "Invalid consistency level: "@ + t@,
            self matches OptionError::InvalidSerialConsistency(t) ==> r@ == "Invalid serial consistency level: "@ + t@,
    {
        match self {
            OptionError::InvalidConsistency(t) => String::from_str("Invalid consistency level: ").concat(t.as_str()),
            OptionError::InvalidSerialConsistency(t) => String::from_str("Invalid serial consistency level: ").concat(
                t.as_str(),
            ),
        }
    }
}

/// Execution options of a statement or a batch. An unset option leaves the
/// driver's default in force.
#[derive(Clone, Copy, Debug, PartialEq, Eq, Structural)]
pub struct StatementOptions {
    pub consistency: Option<Consistency>,
    pub serial_consistency: Option<SerialConsistency>,
    pub page_size: Option<i32>,
    pub timestamp: Option<i64>,
    pub timeout_ms: Option<u64>,
    pub tracing: bool,
    pub idempotent: bool,
}

impl StatementOptions {
    /// No option set; tracing off; not idempotent.
    pub open spec fn spec_default() -> StatementOptions {
        StatementOptions {
            consistency: None,
            serial_consistency: None,
            page_size: None,
            timestamp: None,
            timeout_ms: None,
            tracing: false,
            idempotent: false,
        }
    }

    pub fn new() -> (r: StatementOptions)
        ensures
            r == StatementOptions::spec_default(),
    {
        StatementOptions {
            consistency: None,
            serial_consistency: None,
            page_size: None,
            timestamp: None,
            timeout_ms: None,
            tracing: false,
            idempotent: false,
        }
    }
}

/// The consistency level that the upper-cased text `u` names, if any.
/// Multi-word levels are named with or without the underscore.
pub open spec fn consistency_of_upper(u: Seq<char>) -> Option<Consistency> {
    if u == "ANY"@ {
        Some(Consistency::Any)
    } else if u == "ONE"@ {
        Some(Consistency::One)
    } else if u == "TWO"@ {
        Some(Consistency::Two)
    } else if u == "THREE"@ {
        Some(Consistency::Three)
    } else if u == "QUORUM"@ {
        Some(Consistency::Quorum)
    } else if u == "ALL"@ {
        Some(Consistency::All)
    } else if u == "LOCAL_QUORUM"@ || u == "LOCALQUORUM"@ {
        Some(Consistency::LocalQuorum)
    } else if u == "EACH_QUORUM"@ || u == "EACHQUORUM"@ {
        Some(Consistency::EachQuorum)
    } else if u == "LOCAL_ONE"@ || u == "LOCALONE"@ {
        Some(Consistency::LocalOne)
    } else {
        None
    }
}

/// The serial consistency level that the upper-cased text `u` names, if any.
pub open spec fn serial_consistency_of_upper(u: Seq<char>) -> Option<SerialConsistency> {
    if u == "SERIAL"@ {
        Some(SerialConsistency::Serial)
    } else if u == "LOCAL_SERIAL"@ || u == "LOCALSERIAL"@ {
        Some(SerialConsistency::LocalSerial)
    } else {
        None
    }
}

/// The consistency level that the text `s` names in any letter case.
pub open spec fn consistency_named(s: Seq<char>) -> Option<Consistency> {
    consistency_of_upper(upper_of(s))
}

/// The serial consistency level that the text `s` names in any letter case.
pub open spec fn serial_consistency_named(s: Seq<char>) -> Option<SerialConsistency> {
    serial_consistency_of_upper(upper_of(s))
}

/// The consistency level that the upper-cased text `upper` names, if any.
pub fn consistency_from_upper(upper: &str) -> (r: Option<Consistency>)
    ensures
        r == consistency_of_upper(upper@),
{
    if text_eq(upper, "ANY") {
        Some(Consistency::Any)
    } else if text_eq(upper, "ONE") {
        Some(Consistency::One)
    } else if text_eq(upper, "TWO") {
        Some(Consistency::Two)
    } else if text_eq(upper, "THREE") {
        Some(Consistency::Three)
    } else if text_eq(upper, "QUORUM") {
        Some(Consistency::Quorum)
    } else if text_eq(upper, "ALL") {
        Some(Consistency::All)
    } else if text_eq(upper, "LOCAL_QUORUM") || text_eq(upper, "LOCALQUORUM") {
        Some(Consistency::LocalQuorum)
    } else if text_eq(upper, "EACH_QUORUM") || text_eq(upper, "EACHQUORUM") {
        Some(Consistency::EachQuorum)
    } else if text_eq(upper, "LOCAL_ONE") || text_eq(upper, "LOCALONE") {
        Some(Consistency::LocalOne)
    } else {
        None
    }
}

/// The serial consistency level that the upper-cased text `upper` names, if
/// any.
pub fn serial_consistency_from_upper(upper: &str) -> (r: Option<SerialConsistency>)
    ensures
        r == serial_consistency_of_upper(upper@),
{
    if text_eq(upper, "SERIAL") {
        Some(SerialConsistency::Serial)
    } else if text_eq(upper, "LOCAL_SERIAL") || text_eq(upper, "LOCALSERIAL") {
        Some(SerialConsistency::LocalSerial)
    } else {
        None
    }
}

/// Parses a consistency level in any letter case, as `str::to_uppercase`
/// maps it. Fails on any text that names no level, carrying that text.
pub fn parse_consistency(consistency: &str) -> (r: Result<Consistency, OptionError>)
    ensures
        consistency_named(consistency@) matches Some(c) ==> r == Ok::<Consistency, OptionError>(c),
        consistency_named(consistency@) is None ==> (r matches Err(OptionError::InvalidConsistency(
            t,
        )) && t@ == consistency@),
{
    let upper = to_upper(consistency);
    match consistency_from_upper(upper.as_str()) {
        Some(c) => Ok(c),
        None => Err(OptionError::InvalidConsistency(String::from_str(consistency))),
    }
}

/// Parses a serial consistency level in any letter case, as
/// `str::to_uppercase` maps it. Fails on any text that names no level,
/// carrying that text.
pub fn parse_serial_consistency(consistency: &str) -> (r: Result<SerialConsistency, OptionError>)
    ensures
        serial_consistency_named(consistency@) matches Some(c) ==> r == Ok::<
            SerialConsistency,
            OptionError,
        >(c),
        serial_consistency_named(consistency@) is None ==> (r matches Err(
            OptionError::InvalidSerialConsistency(t),
        ) && t@ == consistency@),
{
    let upper = to_upper(consistency);
    match serial_consistency_from_upper(upper.as_str()) {
        Some(c) => Ok(c),
        None => Err(OptionError::InvalidSerialConsistency(String::from_str(consistency))),
    }
}

/// Level names are case-insensitive: two texts with the same upper-case
/// form name the same consistency level and the same serial consistency
/// level, or both name none.
pub proof fn lemma_consistency_ignores_case(s: Seq<char>, t: Seq<char>)
    requires
        upper_of(s) == upper_of(t),
    ensures
        consistency_named(s) == consistency_named(t),
        serial_consistency_named(s) == serial_consistency_named(t),
{
}

/// The underscored and the concatenated spelling of a multi-word level name
/// the same level: texts that upper-case to "LOCAL_QUORUM" and to
/// "LOCALQUORUM" both name `LocalQuorum`.
pub proof fn lemma_consistency_aliases(s: Seq<char>, t: Seq<char>)
    requires
        upper_of(s) == "LOCAL_QUORUM"@,
        upper_of(t) == "LOCALQUORUM"@,
    ensures
        consistency_named(s) == Some(Consistency::LocalQuorum),
        consistency_named(t) == Some(Consistency::LocalQuorum),
        consistency_named(s) == consistency_named(t),
{
    reveal_strlit("LOCALQUORUM");
    reveal_strlit("LOCAL_QUORUM");
    reveal_strlit("ANY");
    reveal_strlit("ONE");
    reveal_strlit("TWO");
    reveal_strlit("THREE");
    reveal_strlit("QUORUM");
    reveal_strlit("ALL");
    assert("QUORUM"@.len() == 6);
    assert("LOCAL_QUORUM"@.len() == 12);
    assert("LOCALQUORUM"@.len() == 11);
    assert("LOCAL_QUORUM"@ != "QUORUM"@);
    assert("LOCALQUORUM"@ != "QUORUM"@);
    assert("LOCALQUORUM"@ != "LOCAL_QUORUM"@);
}

} // verus!
