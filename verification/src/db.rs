//! The shared connection handle's caller-side state and lifecycle: open
//! once, closed one way, no reopen. Every operation checks liveness
//! before anything reaches the engine and fails fast with the "not open"
//! condition on a closed handle; closing twice is a harmless no-op.
use vstd::prelude::*;
use crate::errors::ShimError;
use crate::rows::Column;
use crate::stmt::{spec_toggle, Statement};
use crate::text::{has_prefix, str_has_prefix};
use crate::txn::{TransactionWrapper, TxPhase};
use vstd::string::StringExecFns;

verus! {

/// Open-time options: an optional busy timeout in whole milliseconds.
#[derive(Clone, Copy, Debug, PartialEq, Eq, Structural)]
pub struct Options {
    pub timeout: Option<u64>,
}

/// The caller-side state of one database handle.
#[derive(Debug)]
pub struct Database {
    pub path: String,
    pub open: bool,
    pub default_safe_integers: bool,
    pub memory: bool,
}

/// Whether a connection path names a remote transport rather than a
/// local file.
pub open spec fn is_remote_path_spec(path: Seq<char>) -> bool {
    has_prefix(path, "libsql://"@) || has_prefix(path, "http://"@) || has_prefix(
        path,
        "https://"@,
    )
}

/// Tests whether a connection path names a remote transport.
pub fn is_remote_path(path: &str) -> (r: bool)
    ensures
        r == is_remote_path_spec(path@),
{
    str_has_prefix(path, "libsql://") || str_has_prefix(path, "http://") || str_has_prefix(
        path,
        "https://",
    )
}

/// The busy timeout to apply at open time: only a positive timeout is
/// ever applied.
pub fn busy_timeout_ms(opts: &Option<Options>) -> (r: Option<u64>)
    ensures
        r == (match opts {
            Option::Some(o) => match o.timeout {
                Option::Some(t) => if t > 0 {
                    Option::Some(t)
                } else {
                    Option::None
                },
                Option::None => Option::None,
            },
            Option::None => Option::<u64>::None,
        }),
{
    match opts {
        Option::Some(o) => match o.timeout {
            Option::Some(t) => if t > 0 {
                Option::Some(t)
            } else {
                Option::None
            },
            Option::None => Option::None,
        },
        Option::None => Option::None,
    }
}

impl Database {
    /// A freshly opened handle: open, safe integers off by default, and
    /// marked in-memory exactly for the reserved in-memory path.
    pub fn new(path: String) -> (d: Database)
        ensures
            d.open,
            !d.default_safe_integers,
            d.memory == (path@ == ":memory:"@),
            d.path == path,
    {
        let memory_path = String::from_str(":memory:");
        let memory = path == memory_path;
        Database { path, open: true, default_safe_integers: false, memory }
    }

    /// Whether this handle is the reserved in-memory database.
    pub fn memory(&self) -> (r: bool)
        ensures
            r == self.memory,
    {
        self.memory
    }

    /// Closes the handle. Closing is one-way and idempotent: a closed
    /// handle stays closed and closing it again is a no-op success.
    pub fn close(&mut self)
        ensures
            !final(self).open,
            final(self).path == old(self).path,
            final(self).default_safe_integers == old(self).default_safe_integers,
            final(self).memory == old(self).memory,
    {
        self.open = false;
    }

    /// Sets the default integer-precision policy for statements prepared
    /// afterward; an absent toggle turns it on.
    pub fn defaultSafeIntegers(&mut self, toggle: Option<bool>)
        ensures
            final(self).default_safe_integers == spec_toggle(toggle),
            final(self).open == old(self).open,
            final(self).path == old(self).path,
            final(self).memory == old(self).memory,
    {
        self.default_safe_integers = match toggle {
            Option::Some(b) => b,
            Option::None => true,
        };
    }

    /// The liveness gate: succeeds exactly while the handle is open, and
    /// fails with the "not open" condition — before any engine call —
    /// once it is closed.
    pub fn check_open(&self) -> (r: Result<(), ShimError>)
        ensures
            self.open ==> r is Ok,
            !self.open ==> r matches Err(ShimError::Closed),
    {
        if self.open {
            Ok(())
        } else {
            Err(ShimError::Closed)
        }
    }

    /// Gates a statement batch: on an open handle the SQL is handed on
    /// to the engine untouched; on a closed one the call fails with the
    /// "not open" condition before any engine interaction.
    pub fn exec<'a>(&self, sql: &'a str) -> (r: Result<&'a str, ShimError>)
        ensures
            self.open ==> (r matches Ok(s) && s@ == sql@),
            !self.open ==> r matches Err(ShimError::Closed),
    {
        if self.open {
            Ok(sql)
        } else {
            Err(ShimError::Closed)
        }
    }

    /// Builds the statement handle for a successful preparation: both
    /// output modes start off and the safe-integer policy is inherited
    /// from this handle's default. On a closed handle preparation fails
    /// with the "not open" condition before any engine call.
    pub fn prepare(&self, columns: Vec<Column>, parameter_names: Vec<String>) -> (r: Result<
        Statement,
        ShimError,
    >)
        requires
            forall|i: int|
                0 <= i < parameter_names@.len() ==> (#[trigger] parameter_names@[i])@.len() >= 1,
        ensures
            !self.open ==> r matches Err(ShimError::Closed),
            self.open ==> (r matches Ok(s) && s.wf() && s.columns == columns
                && s.parameter_names == parameter_names && !s.raw && !s.pluck && s.safe_ints
                == self.default_safe_integers),
    {
        if !self.open {
            return Err(ShimError::Closed);
        }
        Ok(Statement::new(columns, parameter_names, self.default_safe_integers))
    }

    /// Whether the connection is inside an explicit transaction, from
    /// the engine's autocommit state: a closed handle has no engine
    /// state to read, and reports false.
    pub fn in_transaction(&self, engine_autocommit: Option<bool>) -> (r: bool)
        requires
            self.open <==> engine_autocommit is Some,
        ensures
            r == (match engine_autocommit {
                Option::Some(a) => !a,
                Option::None => false,
            }),
    {
        match engine_autocommit {
            Option::Some(a) => !a,
            Option::None => false,
        }
    }

    /// Starts a transaction bracket on an open handle; on a closed one
    /// the wrapper fails with the "not open" condition when invoked.
    pub fn transaction(&self) -> (r: Result<TransactionWrapper, ShimError>)
        ensures
            self.open ==> (r matches Ok(m) && m.phase == TxPhase::Ready),
            !self.open ==> r matches Err(ShimError::Closed),
    {
        if self.open {
            Ok(TransactionWrapper::wrap())
        } else {
            Err(ShimError::Closed)
        }
    }
}

/// An authorizer verdict on one statement.
#[derive(Clone, Copy, Debug, PartialEq, Eq, Structural)]
pub enum Authorization {
    Allow,
    Deny,
    Ignore,
}

/// The verdict an authorizer hook's answer maps to: "allow", "deny" and
/// "ignore" select their verdicts; any other answer, and a hook that
/// failed to produce one, deny.
pub open spec fn authorizer_spec(answer: Option<Seq<char>>) -> Authorization {
    match answer {
        Option::Some(s) => if s == "allow"@ {
            Authorization::Allow
        } else if s == "deny"@ {
            Authorization::Deny
        } else if s == "ignore"@ {
            Authorization::Ignore
        } else {
            Authorization::Deny
        },
        Option::None => Authorization::Deny,
    }
}

/// Maps an authorizer hook's answer to a verdict.
pub fn authorizer(answer: Option<&str>) -> (d: Authorization)
    ensures
        d == authorizer_spec(match answer {
            Option::Some(s) => Option::Some(s@),
            Option::None => Option::None,
        }),
{
    match answer {
        Option::Some(s) => {
            if crate::text::str_eq(s, "allow") {
                Authorization::Allow
            } else if crate::text::str_eq(s, "deny") {
                Authorization::Deny
            } else if crate::text::str_eq(s, "ignore") {
                Authorization::Ignore
            } else {
                Authorization::Deny
            }
        },
        Option::None => Authorization::Deny,
    }
}

} // verus!
