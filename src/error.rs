//! Failures reported by the database driver, carried as text.
use vstd::prelude::*;
use vstd::string::*;

verus! {

/// The operation that the driver failed.
#[derive(Clone, Copy, Debug, PartialEq, Eq, Structural)]
pub enum RemoteOperation {
    Query,
    Session,
    Prepare,
    UseKeyspace,
    SchemaAgreement,
    Serialization,
    Deserialization,
}

/// A failure of the driver: the operation and the driver's diagnostic.
#[derive(Debug, PartialEq)]
pub struct ScyllaError {
    pub operation: RemoteOperation,
    pub cause: String,
}

pub open spec fn operation_label(op: RemoteOperation) -> Seq<char> {
    match op {
        RemoteOperation::Query => "Query error: "@,
        RemoteOperation::Session => "Session error: "@,
        RemoteOperation::Prepare => "Prepare error: "@,
        RemoteOperation::UseKeyspace => "Use keyspace error: "@,
        RemoteOperation::SchemaAgreement => "Schema agreement error: "@,
        RemoteOperation::Serialization => "Serialization error: "@,
        RemoteOperation::Deserialization => "Deserialization error: "@,
    }
}

impl ScyllaError {
    pub fn new(operation: RemoteOperation, cause: String) -> (r: ScyllaError)
        ensures
            r.operation == operation,
            r.cause == cause,
    {
        ScyllaError { operation, cause }
    }

    /// The operation's label followed by the driver's diagnostic.
    pub fn message(&self) -> (r: String)
        ensures
            r@ == operation_label(self.operation) + self.cause@,
    {
        let label = match self.operation {
            RemoteOperation::Query => "Query error: ",
            RemoteOperation::Session => "Session error: ",
            RemoteOperation::Prepare => "Prepare error: ",
            RemoteOperation::UseKeyspace => "Use keyspace error: ",
            RemoteOperation::SchemaAgreement => "Schema agreement error: ",
            RemoteOperation::Serialization => "Serialization error: ",
            RemoteOperation::Deserialization => "Deserialization error: ",
        };
        let s = String::from_str(label);
        s.concat(self.cause.as_str())
    }
}

} // verus!
