use vstd::prelude::*;
use vstd::string::StringExecFns;

verus! {

/// Explicit retry semantics of an error.
#[derive(Debug, Clone, Copy, PartialEq, Eq, Hash, Structural)]
pub enum ErrorStatus {
    /// Retrying will not help.
    Permanent,
    /// Safe to retry.
    Temporary,
    /// Was retried and still fails.
    Persistent,
}

impl ErrorStatus {
    /// The lower-case name of the status, as it appears in every rendering.
    pub open spec fn name(self) -> Seq<char> {
        match self {
            ErrorStatus::Permanent => "permanent"@,
            ErrorStatus::Temporary => "temporary"@,
            ErrorStatus::Persistent => "persistent"@,
        }
    }

    /// `true` exactly for `Temporary`.
    pub fn is_retryable(&self) -> (res: bool)
        ensures
            res == (*self == ErrorStatus::Temporary),
    {
        matches!(self, ErrorStatus::Temporary)
    }

    /// `true` exactly for `Permanent`.
    pub fn is_permanent(&self) -> (res: bool)
        ensures
            res == (*self == ErrorStatus::Permanent),
    {
        matches!(self, ErrorStatus::Permanent)
    }

    /// `true` exactly for `Persistent`.
    pub fn is_persistent(&self) -> (res: bool)
        ensures
            res == (*self == ErrorStatus::Persistent),
    {
        matches!(self, ErrorStatus::Persistent)
    }

    /// The human-readable name of the status, which is its machine name.
    pub fn to_string(&self) -> (res: String)
        ensures
            res@ == self.name(),
    {
        self.to_machine_string()
    }

    /// The machine-readable name of the status.
    pub fn to_machine_string(&self) -> (res: String)
        ensures
            res@ == self.name(),
    {
        match self {
            ErrorStatus::Permanent => String::from_str("permanent"),
            ErrorStatus::Temporary => String::from_str("temporary"),
            ErrorStatus::Persistent => String::from_str("persistent"),
        }
    }
}

impl From<ErrorStatus> for bool {
    /// A status converts to whether it is retryable.
    fn from(status: ErrorStatus) -> (res: bool) {
        status.is_retryable()
    }
}

impl vstd::std_specs::convert::FromSpecImpl<ErrorStatus> for bool {
    open spec fn obeys_from_spec() -> bool {
        true
    }

    open spec fn from_spec(status: ErrorStatus) -> bool {
        status == ErrorStatus::Temporary
    }
}

} // verus!
