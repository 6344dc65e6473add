//! Statements: plain query text with options, and prepared statements.
use vstd::prelude::*;
use crate::options::{
    Consistency, OptionError, SerialConsistency, StatementOptions, consistency_named,
    parse_consistency, parse_serial_consistency, serial_consistency_named,
};

verus! {

/// A statement given by its text, with its execution options.
#[derive(Debug, PartialEq)]
pub struct Query {
    pub query_string: String,
    pub options: StatementOptions,
}

/// `q` has the text of `p` and the options `o`.
pub open spec fn query_with(q: Query, p: Query, o: StatementOptions) -> bool {
    q.query_string@ == p.query_string@ && q.options == o
}

impl Query {
    /// A statement with the given text and no option set.
    pub fn new(query: &str) -> (r: Query)
        ensures
            r.query_string@ == query@,
            r.options == StatementOptions::spec_default(),
    {
        Query { query_string: String::from_str(query), options: StatementOptions::new() }
    }

    fn copy(&self) -> (r: Query)
        ensures
            query_with(r, *self, self.options),
    {
        Query { query_string: self.query_string.clone(), options: self.options }
    }

    /// Sets the consistency level named by `consistency` on this statement
    /// and returns a copy of it. On text that names no level, fails and
    /// leaves the statement as it was.
    pub fn with_consistency(&mut self, consistency: &str) -> (r: Result<Query, OptionError>)
        ensures
            consistency_named(consistency@) matches Some(c) ==> {
                &&& query_with(*final(self), *old(self), StatementOptions { consistency: Some(c), ..old(self).options })
                &&& r matches Ok(q) && query_with(q, *final(self), final(self).options)
            },
            consistency_named(consistency@) is None ==> *final(self) == *old(self) && (r matches Err(
                OptionError::InvalidConsistency(t),
            ) && t@ == consistency@),
    {
        let c = parse_consistency(consistency)?;
        self.options.consistency = Some(c);
        Ok(self.copy())
    }

    /// Sets the serial consistency level named by `serial_consistency` and
    /// returns a copy of the statement. On text that names no level, fails
    /// and leaves the statement as it was.
    pub fn with_serial_consistency(&mut self, serial_consistency: &str) -> (r: Result<Query, OptionError>)
        ensures
            serial_consistency_named(serial_consistency@) matches Some(c) ==> {
                &&& query_with(*final(self), *old(self), StatementOptions { serial_consistency: Some(c), ..old(self).options })
                &&& r matches Ok(q) && query_with(q, *final(self), final(self).options)
            },
            serial_consistency_named(serial_consistency@) is None ==> *final(self) == *old(self) && (
            r matches Err(OptionError::InvalidSerialConsistency(t)) && t@ == serial_consistency@),
    {
        let c = parse_serial_consistency(serial_consistency)?;
        self.options.serial_consistency = Some(c);
        Ok(self.copy())
    }

    /// Sets the page size and returns a copy of the statement.
    pub fn with_page_size(&mut self, page_size: i32) -> (r: Query)
        ensures
            query_with(*final(self), *old(self), StatementOptions { page_size: Some(page_size), ..old(self).options }),
            query_with(r, *final(self), final(self).options),
    {
        self.options.page_size = Some(page_size);
        self.copy()
    }

    /// Sets the timestamp, in microseconds since the epoch, and returns a
    /// copy of the statement.
    pub fn with_timestamp(&mut self, timestamp: i64) -> (r: Query)
        ensures
            query_with(*final(self), *old(self), StatementOptions { timestamp: Some(timestamp), ..old(self).options }),
            query_with(r, *final(self), final(self).options),
    {
        self.options.timestamp = Some(timestamp);
        self.copy()
    }

    /// Sets the request timeout, in milliseconds, and returns a copy of the
    /// statement.
    pub fn with_timeout(&mut self, timeout_ms: u64) -> (r: Query)
        ensures
            query_with(*final(self), *old(self), StatementOptions { timeout_ms: Some(timeout_ms), ..old(self).options }),
            query_with(r, *final(self), final(self).options),
    {
        self.options.timeout_ms = Some(timeout_ms);
        self.copy()
    }

    /// Turns tracing on or off and returns a copy of the statement.
    pub fn with_tracing(&mut self, tracing: bool) -> (r: Query)
        ensures
            query_with(*final(self), *old(self), StatementOptions { tracing, ..old(self).options }),
            query_with(r, *final(self), final(self).options),
    {
        self.options.tracing = tracing;
        self.copy()
    }

    pub fn is_idempotent(&self) -> (r: bool)
        ensures
            r == self.options.idempotent,
    {
        self.options.idempotent
    }

    pub fn set_idempotent(&mut self, idempotent: bool)
        ensures
            query_with(*final(self), *old(self), StatementOptions { idempotent, ..old(self).options }),
    {
        self.options.idempotent = idempotent;
    }

    /// The statement's text.
    pub fn get_contents(&self) -> (r: String)
        ensures
            r@ == self.query_string@,
    {
        self.query_string.clone()
    }
}

/// A statement prepared by the server: its server-assigned identity, its
/// text, and its execution options.
#[derive(Debug, PartialEq)]
pub struct PreparedStatement {
    pub id: Vec<u8>,
    pub statement: String,
    pub options: StatementOptions,
}

/// `p` has the identity and text of `q` and the options `o`.
pub open spec fn prepared_with(p: PreparedStatement, q: PreparedStatement, o: StatementOptions) -> bool {
    p.id@ == q.id@ && p.statement@ == q.statement@ && p.options == o
}

impl PreparedStatement {
    /// The handle of a statement that the server prepared under `id`, with
    /// the options it was prepared with.
    pub fn new(id: Vec<u8>, statement: String, options: StatementOptions) -> (r: PreparedStatement)
        ensures
            r.id@ == id@,
            r.statement@ == statement@,
            r.options == options,
    {
        PreparedStatement { id, statement, options }
    }

    fn with_options(&self, options: StatementOptions) -> (r: PreparedStatement)
        ensures
            prepared_with(r, *self, options),
    {
        PreparedStatement { id: self.id.clone(), statement: self.statement.clone(), options }
    }

    /// A copy of this handle with the consistency level named by
    /// `consistency`; this handle is left as it is.
    pub fn with_consistency(&self, consistency: &str) -> (r: Result<PreparedStatement, OptionError>)
        ensures
            consistency_named(consistency@) matches Some(c) ==> (r matches Ok(p) && prepared_with(
                p,
                *self,
                StatementOptions { consistency: Some(c), ..self.options },
            )),
            consistency_named(consistency@) is None ==> (r matches Err(OptionError::InvalidConsistency(t))
                && t@ == consistency@),
    {
        let c = parse_consistency(consistency)?;
        Ok(self.with_options(StatementOptions { consistency: Some(c), ..self.options }))
    }

    /// A copy of this handle with the serial consistency level named by
    /// `serial_consistency`.
    pub fn with_serial_consistency(&self, serial_consistency: &str) -> (r: Result<
        PreparedStatement,
        OptionError,
    >)
        ensures
            serial_consistency_named(serial_consistency@) matches Some(c) ==> (r matches Ok(p)
                && prepared_with(p, *self, StatementOptions { serial_consistency: Some(c), ..self.options })),
            serial_consistency_named(serial_consistency@) is None ==> (r matches Err(
                OptionError::InvalidSerialConsistency(t),
            ) && t@ == serial_consistency@),
    {
        let c = parse_serial_consistency(serial_consistency)?;
        Ok(self.with_options(StatementOptions { serial_consistency: Some(c), ..self.options }))
    }

    /// A copy of this handle with the given page size.
    pub fn with_page_size(&self, page_size: i32) -> (r: PreparedStatement)
        ensures
            prepared_with(r, *self, StatementOptions { page_size: Some(page_size), ..self.options }),
    {
        self.with_options(StatementOptions { page_size: Some(page_size), ..self.options })
    }

    /// A copy of this handle with the given timestamp.
    pub fn with_timestamp(&self, timestamp: i64) -> (r: PreparedStatement)
        ensures
            prepared_with(r, *self, StatementOptions { timestamp: Some(timestamp), ..self.options }),
    {
        self.with_options(StatementOptions { timestamp: Some(timestamp), ..self.options })
    }

    /// A copy of this handle with tracing on or off.
    pub fn with_tracing(&self, tracing: bool) -> (r: PreparedStatement)
        ensures
            prepared_with(r, *self, StatementOptions { tracing, ..self.options }),
    {
        self.with_options(StatementOptions { tracing, ..self.options })
    }

    pub fn is_idempotent(&self) -> (r: bool)
        ensures
            r == self.options.idempotent,
    {
        self.options.idempotent
    }

    /// A copy of this handle marked idempotent or not.
    pub fn set_idempotent(&self, idempotent: bool) -> (r: PreparedStatement)
        ensures
            prepared_with(r, *self, StatementOptions { idempotent, ..self.options }),
    {
        self.with_options(StatementOptions { idempotent, ..self.options })
    }

    /// The server-assigned identity.
    pub fn get_id(&self) -> (r: Vec<u8>)
        ensures
            r@ == self.id@,
    {
        self.id.clone()
    }

    /// The statement's text.
    pub fn get_statement(&self) -> (r: String)
        ensures
            r@ == self.statement@,
    {
        self.statement.clone()
    }
}

} // verus!
