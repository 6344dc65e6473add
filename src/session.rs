//! Session configuration, and the parameter sets of executed requests.
use vstd::prelude::*;
use vstd::string::*;
use crate::params::{NamedParam, SerializeError, has_unsupported, first_unsupported, py_dict_to_serialized_values, serializes_to};
use crate::text::text_eq;
use crate::value::HostValue;

verus! {

/// Compression of the connection's frames.
#[derive(Clone, Copy, Debug, PartialEq, Eq, Structural)]
pub enum Compression {
    Lz4,
    Snappy,
}

/// A rejected session setting.
#[derive(Debug, PartialEq)]
pub enum ConfigError {
    /// A pool size of zero.
    PoolSizeZero,
    /// A compression name that is none of "lz4" and "snappy".
    InvalidCompression(String),
}

impl ConfigError {
    pub fn message(&self) -> (r: String)
        ensures
            self is PoolSizeZero ==> r@ == "Pool size must be greater than 0"@,
            self matches ConfigError::InvalidCompression(t) ==> r@ == "Invalid compression type '"@ + t@
                + "'. Must be 'lz4', 'snappy', or None"@,
    {
        match self {
            ConfigError::PoolSizeZero => String::from_str("Pool size must be greater than 0"),
            ConfigError::InvalidCompression(t) => {
                let s = String::from_str("Invalid compression type '");
                let s = s.concat(t.as_str());
                s.concat("'. Must be 'lz4', 'snappy', or None")
            },
        }
    }
}

/// Settings of a session to be opened. Unset settings keep the driver's
/// defaults.
#[derive(Debug, PartialEq)]
pub struct SessionBuilder {
    pub known_nodes: Vec<String>,
    pub keyspace: Option<(String, bool)>,
    pub connection_timeout_ms: Option<u64>,
    pub pool_size_per_host: Option<usize>,
    pub credentials: Option<(String, String)>,
    pub compression: Option<Compression>,
    pub tcp_nodelay: Option<bool>,
    pub tcp_keepalive_ms: Option<u64>,
}

pub open spec fn same_texts(a: Seq<String>, b: Seq<String>) -> bool {
    a.len() == b.len() && forall|i: int| 0 <= i < a.len() ==> (#[trigger] a[i])@ == b[i]@
}

pub open spec fn same_opt_pair<T>(a: Option<(String, T)>, b: Option<(String, T)>) -> bool {
    match (a, b) {
        (Some(x), Some(y)) => x.0@ == y.0@ && x.1 == y.1,
        (None, None) => true,
        _ => false,
    }
}

pub open spec fn same_credentials(a: Option<(String, String)>, b: Option<(String, String)>) -> bool {
    match (a, b) {
        (Some(x), Some(y)) => x.0@ == y.0@ && x.1@ == y.1@,
        (None, None) => true,
        _ => false,
    }
}

/// `a` holds the same settings as `b`.
pub open spec fn same_settings(a: SessionBuilder, b: SessionBuilder) -> bool {
    &&& same_texts(a.known_nodes@, b.known_nodes@)
    &&& same_opt_pair(a.keyspace, b.keyspace)
    &&& a.connection_timeout_ms == b.connection_timeout_ms
    &&& a.pool_size_per_host == b.pool_size_per_host
    &&& same_credentials(a.credentials, b.credentials)
    &&& a.compression == b.compression
    &&& a.tcp_nodelay == b.tcp_nodelay
    &&& a.tcp_keepalive_ms == b.tcp_keepalive_ms
}

/// `a` holds the settings of `b` but for the known nodes.
pub open spec fn same_but_nodes(a: SessionBuilder, b: SessionBuilder) -> bool {
    same_settings(a, SessionBuilder { known_nodes: a.known_nodes, ..b })
}

/// The compression that the text `s` names, matched exactly.
pub open spec fn compression_named(s: Seq<char>) -> Option<Compression> {
    if s == "lz4"@ {
        Some(Compression::Lz4)
    } else if s == "snappy"@ {
        Some(Compression::Snappy)
    } else {
        None
    }
}

fn copy_texts(v: &Vec<String>) -> (r: Vec<String>)
    ensures
        same_texts(r@, v@),
{
    let mut out: Vec<String> = Vec::new();
    let mut i: usize = 0;
    while i < v.len()
        invariant
            i <= v@.len(),
            out@.len() == i,
            forall|j: int| 0 <= j < i ==> (#[trigger] out@[j])@ == v@[j]@,
        decreases v@.len() - i,
    {
        out.push(v[i].clone());
        i = i + 1;
    }
    out
}

impl SessionBuilder {
    /// No known node and every setting at the driver's default.
    pub fn new() -> (r: SessionBuilder)
        ensures
            r.known_nodes@.len() == 0,
            r.keyspace is None,
            r.connection_timeout_ms is None,
            r.pool_size_per_host is None,
            r.credentials is None,
            r.compression is None,
            r.tcp_nodelay is None,
            r.tcp_keepalive_ms is None,
    {
        SessionBuilder {
            known_nodes: Vec::new(),
            keyspace: None,
            connection_timeout_ms: None,
            pool_size_per_host: None,
            credentials: None,
            compression: None,
            tcp_nodelay: None,
            tcp_keepalive_ms: None,
        }
    }

    fn copy(&self) -> (r: SessionBuilder)
        ensures
            same_settings(r, *self),
    {
        let keyspace = match &self.keyspace {
            Some(k) => Some((k.0.clone(), k.1)),
            None => None,
        };
        let credentials = match &self.credentials {
            Some(c) => Some((c.0.clone(), c.1.clone())),
            None => None,
        };
        SessionBuilder {
            known_nodes: copy_texts(&self.known_nodes),
            keyspace,
            connection_timeout_ms: self.connection_timeout_ms,
            pool_size_per_host: self.pool_size_per_host,
            credentials,
            compression: self.compression,
            tcp_nodelay: self.tcp_nodelay,
            tcp_keepalive_ms: self.tcp_keepalive_ms,
        }
    }

    /// Adds a contact node and returns a copy of the settings.
    pub fn known_node(&mut self, hostname: &str) -> (r: SessionBuilder)
        ensures
            same_but_nodes(*final(self), *old(self)),
            final(self).known_nodes@.len() == old(self).known_nodes@.len() + 1,
            same_texts(final(self).known_nodes@.drop_last(), old(self).known_nodes@),
            final(self).known_nodes@.last()@ == hostname@,
            same_settings(r, *final(self)),
    {
        self.known_nodes.push(String::from_str(hostname));
        proof {
            assert(final(self).known_nodes@.drop_last() =~= old(self).known_nodes@);
        }
        self.copy()
    }

    /// Adds contact nodes, in order, and returns a copy of the settings.
    pub fn known_nodes(&mut self, hostnames: Vec<String>) -> (r: SessionBuilder)
        ensures
            same_but_nodes(*final(self), *old(self)),
            same_texts(final(self).known_nodes@, old(self).known_nodes@ + hostnames@),
            same_settings(r, *final(self)),
    {
        let ghost start = self.known_nodes@;
        let mut i: usize = 0;
        while i < hostnames.len()
            invariant
                i <= hostnames@.len(),
                same_but_nodes(*self, *old(self)),
                old(self).known_nodes@ == start,
                self.known_nodes@ == start + hostnames@.subrange(0, i as int),
            decreases hostnames@.len() - i,
        {
            self.known_nodes.push(hostnames[i].clone());
            proof {
                assert(self.known_nodes@ =~= start + hostnames@.subrange(0, i + 1));
            }
            i = i + 1;
        }
        proof {
            assert(hostnames@.subrange(0, hostnames@.len() as int) =~= hostnames@);
        }
        self.copy()
    }

    /// Sets the keyspace that the session starts in.
    pub fn use_keyspace(&mut self, keyspace_name: &str, case_sensitive: bool) -> (r: SessionBuilder)
        ensures
            final(self).keyspace matches Some(k) && k.0@ == keyspace_name@ && k.1 == case_sensitive,
            same_settings(*final(self), SessionBuilder { keyspace: final(self).keyspace, ..*old(self) }),
            same_settings(r, *final(self)),
    {
        self.keyspace = Some((String::from_str(keyspace_name), case_sensitive));
        self.copy()
    }

    /// Sets the timeout for establishing connections, in milliseconds.
    pub fn connection_timeout(&mut self, duration_ms: u64) -> (r: SessionBuilder)
        ensures
            same_settings(*final(self), SessionBuilder { connection_timeout_ms: Some(duration_ms), ..*old(self) }),
            same_settings(r, *final(self)),
    {
        self.connection_timeout_ms = Some(duration_ms);
        self.copy()
    }

    /// Sets the number of connections per host. Fails on zero, leaving the
    /// settings as they were.
    pub fn pool_size(&mut self, size: usize) -> (r: Result<SessionBuilder, ConfigError>)
        ensures
            size == 0 ==> *final(self) == *old(self) && r matches Err(ConfigError::PoolSizeZero),
            size > 0 ==> same_settings(*final(self), SessionBuilder { pool_size_per_host: Some(size), ..*old(self) })
                && (r matches Ok(b) && same_settings(b, *final(self))),
    {
        if size == 0 {
            return Err(ConfigError::PoolSizeZero);
        }
        self.pool_size_per_host = Some(size);
        Ok(self.copy())
    }

    /// Sets the credentials to authenticate with.
    pub fn user(&mut self, username: &str, password: &str) -> (r: SessionBuilder)
        ensures
            final(self).credentials matches Some(c) && c.0@ == username@ && c.1@ == password@,
            same_settings(*final(self), SessionBuilder { credentials: final(self).credentials, ..*old(self) }),
            same_settings(r, *final(self)),
    {
        self.credentials = Some((String::from_str(username), String::from_str(password)));
        self.copy()
    }

    /// Sets the compression named by `compression` ("lz4" or "snappy"), or
    /// none. Fails on any other name, leaving the settings as they were.
    pub fn compression(&mut self, compression: Option<&str>) -> (r: Result<SessionBuilder, ConfigError>)
        ensures
            compression is None ==> same_settings(*final(self), SessionBuilder { compression: None, ..*old(self) })
                && (r matches Ok(b) && same_settings(b, *final(self))),
            compression matches Some(s) ==> match compression_named(s@) {
                Some(c) => same_settings(*final(self), SessionBuilder { compression: Some(c), ..*old(self) })
                    && (r matches Ok(b) && same_settings(b, *final(self))),
                None => *final(self) == *old(self) && (r matches Err(ConfigError::InvalidCompression(t))
                    && t@ == s@),
            },
    {
        let comp = match compression {
            None => None,
            Some(s) => {
                if text_eq(s, "lz4") {
                    Some(Compression::Lz4)
                } else if text_eq(s, "snappy") {
                    Some(Compression::Snappy)
                } else {
                    return Err(ConfigError::InvalidCompression(String::from_str(s)));
                }
            },
        };
        self.compression = comp;
        Ok(self.copy())
    }

    /// Turns Nagle's algorithm off or on for the session's connections.
    pub fn tcp_nodelay(&mut self, nodelay: bool) -> (r: SessionBuilder)
        ensures
            same_settings(*final(self), SessionBuilder { tcp_nodelay: Some(nodelay), ..*old(self) }),
            same_settings(r, *final(self)),
    {
        self.tcp_nodelay = Some(nodelay);
        self.copy()
    }

    /// Sets the TCP keepalive interval in milliseconds, or leaves the
    /// driver's default with none.
    pub fn tcp_keepalive(&mut self, keepalive_ms: Option<u64>) -> (r: SessionBuilder)
        ensures
            same_settings(*final(self), SessionBuilder { tcp_keepalive_ms: keepalive_ms, ..*old(self) }),
            same_settings(r, *final(self)),
    {
        self.tcp_keepalive_ms = keepalive_ms;
        self.copy()
    }
}

/// `out` is the parameter sets of a batch of `count` statements executed
/// with `sets`: one per statement, or per given set where more sets than
/// statements are given. A given mapping is serialized; a set that is not a
/// mapping, and every set past the end of `sets`, is empty.
pub open spec fn batch_sets_to(
    count: nat,
    sets: Seq<Option<Vec<(String, HostValue)>>>,
    out: Seq<Vec<(String, NamedParam)>>,
) -> bool {
    &&& out.len() == if sets.len() > count { sets.len() } else { count }
    &&& forall|i: int|
        0 <= i < out.len() ==> if i < sets.len() && sets[i] is Some {
            serializes_to(sets[i]->Some_0@, (#[trigger] out[i])@)
        } else {
            out[i]@.len() == 0
        }
}

/// Some given set holds a value that has no wire form.
pub open spec fn some_set_unsupported(sets: Seq<Option<Vec<(String, HostValue)>>>) -> bool {
    exists|i: int| 0 <= i < sets.len() && (#[trigger] sets[i]) is Some && has_unsupported(sets[i]->Some_0@)
}

/// The parameter sets of a batch of `statement_count` statements. Sets are
/// aligned with the statements by position; a missing set, or one that is
/// not a mapping (`None`), gives an empty parameter set rather than an
/// error. Fails on the first set holding a value with no wire form, with
/// that set's error.
pub fn batch_values(statement_count: usize, value_sets: &Vec<Option<Vec<(String, HostValue)>>>) -> (r: Result<
    Vec<Vec<(String, NamedParam)>>,
    SerializeError,
>)
    ensures
        r is Ok <==> !some_set_unsupported(value_sets@),
        r matches Ok(out) ==> batch_sets_to(statement_count as nat, value_sets@, out@),
        r matches Err(e) ==> exists|i: int|
            0 <= i < value_sets@.len() && (#[trigger] value_sets@[i]) is Some && first_unsupported(
                value_sets@[i]->Some_0@,
                e,
            ) && forall|j: int|
                0 <= j < i ==> !((#[trigger] value_sets@[j]) is Some && has_unsupported(
                    value_sets@[j]->Some_0@,
                )),
{
    let mut out: Vec<Vec<(String, NamedParam)>> = Vec::new();
    let mut i: usize = 0;
    while i < value_sets.len()
        invariant
            i <= value_sets@.len(),
            out@.len() == i,
            forall|j: int|
                0 <= j < i ==> !((#[trigger] value_sets@[j]) is Some && has_unsupported(value_sets@[j]->Some_0@)),
            forall|j: int|
                0 <= j < i ==> if value_sets@[j] is Some {
                    serializes_to(value_sets@[j]->Some_0@, (#[trigger] out@[j])@)
                } else {
                    out@[j]@.len() == 0
                },
        decreases value_sets@.len() - i,
    {
        match &value_sets[i] {
            Some(d) => match py_dict_to_serialized_values(Some(d)) {
                Ok(params) => out.push(params),
                Err(e) => {
                    return Err(e);
                },
            },
            None => out.push(Vec::new()),
        }
        i = i + 1;
    }
    while i < statement_count
        invariant
            value_sets@.len() <= i,
            value_sets@.len() >= statement_count ==> i == value_sets@.len(),
            value_sets@.len() < statement_count ==> i <= statement_count,
            out@.len() == i,
            forall|j: int|
                0 <= j < value_sets@.len() ==> !((#[trigger] value_sets@[j]) is Some && has_unsupported(value_sets@[j]->Some_0@)),
            forall|j: int|
                0 <= j < i ==> if j < value_sets@.len() && value_sets@[j] is Some {
                    serializes_to(value_sets@[j]->Some_0@, (#[trigger] out@[j])@)
                } else {
                    out@[j]@.len() == 0
                },
        decreases statement_count - i,
    {
        out.push(Vec::new());
        i = i + 1;
    }
    Ok(out)
}

/// A batch given fewer parameter sets than statements is sent with an empty
/// parameter set for each statement past the last given set.
pub proof fn lemma_missing_sets_are_empty(
    count: nat,
    sets: Seq<Option<Vec<(String, HostValue)>>>,
    out: Seq<Vec<(String, NamedParam)>>,
)
    requires
        sets.len() < count,
        batch_sets_to(count, sets, out),
    ensures
        out.len() == count,
        forall|i: int| sets.len() <= i < count ==> (#[trigger] out[i])@.len() == 0,
{
    assert forall|i: int| sets.len() <= i < count implies (#[trigger] out[i])@.len() == 0 by {
    }
}

} // verus!
