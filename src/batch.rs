//! Batches: an ordered list of statements under one atomicity mode and one
//! option set.
use vstd::prelude::*;
use vstd::string::*;
use crate::options::{
    OptionError, StatementOptions, consistency_named, parse_consistency, parse_serial_consistency,
    serial_consistency_named,
};
use crate::text::{lower_of, text_eq, to_lower};
use crate::query::{PreparedStatement, Query};

verus! {

/// The atomicity mode of a batch.
#[derive(Clone, Copy, Debug, PartialEq, Eq, Structural)]
pub enum BatchType {
    Logged,
    Unlogged,
    Counter,
}

/// A batch type name that is none of "logged", "unlogged" and "counter".
#[derive(Debug, PartialEq)]
pub struct InvalidBatchType {
    pub given: String,
}

impl InvalidBatchType {
    /// Names the given text and the valid batch types.
    pub fn message(&self) -> (r: String)
        ensures
            r@ == "Invalid batch type '"@ + self.given@ + "'. Must be 'logged', 'unlogged', or 'counter'"@,
    {
        let s = String::from_str("Invalid batch type '");
        let s = s.concat(self.given.as_str());
        s.concat("'. Must be 'logged', 'unlogged', or 'counter'")
    }
}

/// One statement of a batch, captured by value when it was appended.
#[derive(Debug, PartialEq)]
pub enum BatchStatement {
    Text(String),
    Query(Query),
    Prepared(PreparedStatement),
}

/// The batch type that the lower-cased text `l` names, if any.
pub open spec fn batch_type_of_lower(l: Seq<char>) -> Option<BatchType> {
    if l == "logged"@ {
        Some(BatchType::Logged)
    } else if l == "unlogged"@ {
        Some(BatchType::Unlogged)
    } else if l == "counter"@ {
        Some(BatchType::Counter)
    } else {
        None
    }
}

/// The batch type that `s` names in any letter case.
pub open spec fn batch_type_named(s: Seq<char>) -> Option<BatchType> {
    batch_type_of_lower(lower_of(s))
}

/// The batch type that the lower-cased text `lower` names, if any.
pub fn batch_type_from_lower(lower: &str) -> (r: Option<BatchType>)
    ensures
        r == batch_type_of_lower(lower@),
{
    if text_eq(lower, "logged") {
        Some(BatchType::Logged)
    } else if text_eq(lower, "unlogged") {
        Some(BatchType::Unlogged)
    } else if text_eq(lower, "counter") {
        Some(BatchType::Counter)
    } else {
        None
    }
}

/// `s` is a copy of `t`.
pub open spec fn same_statement(s: BatchStatement, t: BatchStatement) -> bool {
    match (s, t) {
        (BatchStatement::Text(a), BatchStatement::Text(b)) => a@ == b@,
        (BatchStatement::Query(a), BatchStatement::Query(b)) => a.query_string@ == b.query_string@
            && a.options == b.options,
        (BatchStatement::Prepared(a), BatchStatement::Prepared(b)) => a.id@ == b.id@ && a.statement@
            == b.statement@ && a.options == b.options,
        _ => false,
    }
}

/// A batch of statements.
#[derive(Debug, PartialEq)]
pub struct Batch {
    pub batch_type: BatchType,
    pub statements: Vec<BatchStatement>,
    pub options: StatementOptions,
}

/// `b` has the type and the statements of `c`, and the options `o`.
pub open spec fn batch_with(b: Batch, c: Batch, o: StatementOptions) -> bool {
    &&& b.batch_type == c.batch_type
    &&& b.statements@.len() == c.statements@.len()
    &&& forall|i: int|
        0 <= i < b.statements@.len() ==> same_statement(#[trigger] b.statements@[i], c.statements@[i])
    &&& b.options == o
}

/// `b` is `c` with `s` appended.
pub open spec fn appended(b: Batch, c: Batch, s: BatchStatement) -> bool {
    &&& b.batch_type == c.batch_type
    &&& b.options == c.options
    &&& b.statements@ == c.statements@.push(s)
}

fn copy_statement(s: &BatchStatement) -> (r: BatchStatement)
    ensures
        same_statement(r, *s),
{
    match s {
        BatchStatement::Text(t) => BatchStatement::Text(t.clone()),
        BatchStatement::Query(q) => BatchStatement::Query(
            Query { query_string: q.query_string.clone(), options: q.options },
        ),
        BatchStatement::Prepared(p) => BatchStatement::Prepared(
            PreparedStatement { id: p.id.clone(), statement: p.statement.clone(), options: p.options },
        ),
    }
}

impl Batch {
    /// An empty batch of the type named by `batch_type` in any letter case,
    /// as `str::to_lowercase` maps it. Fails on any other name, carrying it.
    pub fn new(batch_type: &str) -> (r: Result<Batch, InvalidBatchType>)
        ensures
            batch_type_named(batch_type@) matches Some(t) ==> (r matches Ok(b) && b.batch_type == t
                && b.statements@.len() == 0 && b.options == StatementOptions::spec_default()),
            batch_type_named(batch_type@) is None ==> (r matches Err(e) && e.given@ == batch_type@),
    {
        let lower = to_lower(batch_type);
        let t = match batch_type_from_lower(lower.as_str()) {
            Some(t) => t,
            None => {
                return Err(InvalidBatchType { given: String::from_str(batch_type) });
            },
        };
        Ok(Batch { batch_type: t, statements: Vec::new(), options: StatementOptions::new() })
    }

    fn copy(&self) -> (r: Batch)
        ensures
            batch_with(r, *self, self.options),
    {
        let mut statements: Vec<BatchStatement> = Vec::new();
        let mut i: usize = 0;
        while i < self.statements.len()
            invariant
                i <= self.statements@.len(),
                statements@.len() == i,
                forall|j: int|
                    0 <= j < i ==> same_statement(#[trigger] statements@[j], self.statements@[j]),
            decreases self.statements@.len() - i,
        {
            statements.push(copy_statement(&self.statements[i]));
            i = i + 1;
        }
        Batch { batch_type: self.batch_type, statements, options: self.options }
    }

    /// Appends a statement given by its text.
    pub fn append_statement(&mut self, query: &str)
        ensures
            final(self).statements@.len() == old(self).statements@.len() + 1,
            appended(*final(self), *old(self), final(self).statements@.last()),
            final(self).statements@.last() matches BatchStatement::Text(t) && t@ == query@,
    {
        self.statements.push(BatchStatement::Text(String::from_str(query)));
    }

    /// Appends a copy of a configured statement.
    pub fn append_query(&mut self, query: &Query)
        ensures
            final(self).statements@.len() == old(self).statements@.len() + 1,
            appended(*final(self), *old(self), final(self).statements@.last()),
            same_statement(final(self).statements@.last(), BatchStatement::Query(*query)),
    {
        self.statements.push(
            BatchStatement::Query(
                Query { query_string: query.query_string.clone(), options: query.options },
            ),
        );
    }

    /// Appends a copy of a prepared statement.
    pub fn append_prepared(&mut self, prepared: &PreparedStatement)
        ensures
            final(self).statements@.len() == old(self).statements@.len() + 1,
            appended(*final(self), *old(self), final(self).statements@.last()),
            same_statement(final(self).statements@.last(), BatchStatement::Prepared(*prepared)),
    {
        self.statements.push(
            BatchStatement::Prepared(
                PreparedStatement {
                    id: prepared.id.clone(),
                    statement: prepared.statement.clone(),
                    options: prepared.options,
                },
            ),
        );
    }

    /// Sets the consistency level of the whole batch and returns a copy of
    /// it. On text that names no level, fails and leaves the batch as it was.
    pub fn with_consistency(&mut self, consistency: &str) -> (r: Result<Batch, OptionError>)
        ensures
            consistency_named(consistency@) matches Some(c) ==> {
                &&& batch_with(*final(self), *old(self), StatementOptions { consistency: Some(c), ..old(self).options })
                &&& r matches Ok(b) && batch_with(b, *final(self), final(self).options)
            },
            consistency_named(consistency@) is None ==> *final(self) == *old(self) && (r matches Err(
                OptionError::InvalidConsistency(t),
            ) && t@ == consistency@),
    {
        let c = parse_consistency(consistency)?;
        self.options.consistency = Some(c);
        proof {
            assert(self.statements@ == old(self).statements@);
        }
        Ok(self.copy())
    }

    /// Sets the serial consistency level of the whole batch and returns a
    /// copy of it.
    pub fn with_serial_consistency(&mut self, serial_consistency: &str) -> (r: Result<Batch, OptionError>)
        ensures
            serial_consistency_named(serial_consistency@) matches Some(c) ==> {
                &&& batch_with(*final(self), *old(self), StatementOptions { serial_consistency: Some(c), ..old(self).options })
                &&& r matches Ok(b) && batch_with(b, *final(self), final(self).options)
            },
            serial_consistency_named(serial_consistency@) is None ==> *final(self) == *old(self) && (
            r matches Err(OptionError::InvalidSerialConsistency(t)) && t@ == serial_consistency@),
    {
        let c = parse_serial_consistency(serial_consistency)?;
        self.options.serial_consistency = Some(c);
        Ok(self.copy())
    }

    /// Sets the timestamp of the whole batch and returns a copy of it.
    pub fn with_timestamp(&mut self, timestamp: i64) -> (r: Batch)
        ensures
            batch_with(*final(self), *old(self), StatementOptions { timestamp: Some(timestamp), ..old(self).options }),
            batch_with(r, *final(self), final(self).options),
    {
        self.options.timestamp = Some(timestamp);
        self.copy()
    }

    /// Records a request timeout for the whole batch and returns a copy of
    /// it. A driver without per-batch timeouts leaves the recorded value
    /// unused.
    pub fn with_timeout(&mut self, timeout_ms: u64) -> (r: Batch)
        ensures
            batch_with(*final(self), *old(self), StatementOptions { timeout_ms: Some(timeout_ms), ..old(self).options }),
            batch_with(r, *final(self), final(self).options),
    {
        self.options.timeout_ms = Some(timeout_ms);
        self.copy()
    }

    /// Turns tracing on or off for the whole batch and returns a copy of it.
    pub fn with_tracing(&mut self, tracing: bool) -> (r: Batch)
        ensures
            batch_with(*final(self), *old(self), StatementOptions { tracing, ..old(self).options }),
            batch_with(r, *final(self), final(self).options),
    {
        self.options.tracing = tracing;
        self.copy()
    }

    pub fn is_idempotent(&self) -> (r: bool)
        ensures
            r == self.options.idempotent,
    {
        self.options.idempotent
    }

    pub fn set_idempotent(&mut self, idempotent: bool)
        ensures
            batch_with(*final(self), *old(self), StatementOptions { idempotent, ..old(self).options }),
    {
        self.options.idempotent = idempotent;
    }

    /// The number of statements in the batch.
    pub fn statements_count(&self) -> (r: usize)
        ensures
            r == self.statements@.len(),
    {
        self.statements.len()
    }
}

} // verus!
