//! The error value: kind, status, message, operation label, context and
//! cause.

use std::borrow::Cow;
use std::sync::Arc;
use vstd::prelude::*;
use vstd::string::to_string_from_display_ensures;
use crate::arena::{all_fit, borrowed_pairs_view, pairs_view, ContextArena, ContextHandle};
use crate::kind::ErrorKind;
use crate::status::ErrorStatus;
use crate::text::str_eq;

verus! {

/// What an error says, as mathematical values.
pub struct ErrorView {
    /// What the caller can do about the error.
    pub kind: ErrorKind,
    /// Whether retrying may help.
    pub status: ErrorStatus,
    /// The human-readable message.
    pub message: Seq<char>,
    /// The label of the operation that failed, if one was set.
    pub operation: Option<Seq<char>>,
    /// Where the context pairs live.
    pub context: ContextHandle,
}

/// A single error: an actionable kind, an explicit status, a message, an
/// optional operation label, key/value context and an optional cause.
///
/// An error is built once where the failure happens and enriched on its
/// way out; every enrichment takes the error and returns a new one.
#[derive(Debug)]
pub struct Error {
    kind: ErrorKind,
    status: ErrorStatus,
    message: Cow<'static, str>,
    operation: Option<&'static str>,
    context: ContextHandle,
    cause: Option<Arc<Error>>,
}

impl View for Error {
    type V = ErrorView;

    closed spec fn view(&self) -> ErrorView {
        ErrorView {
            kind: self.kind,
            status: self.status,
            message: self.message@,
            operation: match self.operation {
                Some(op) => Some(op@),
                None => None,
            },
            context: self.context,
        }
    }
}

impl Clone for Error {
    /// The copy says the same, reads the same context and shares the
    /// cause.
    fn clone(&self) -> (res: Self)
        ensures
            res@ == (ErrorView { context: res@.context, ..self@ }),
            forall|arena: ContextArena| #[trigger]
                res.context_pairs(arena) == self.context_pairs(arena),
            res.cause_of() == self.cause_of(),
    {
        Error {
            kind: self.kind,
            status: self.status,
            message: match &self.message {
                Cow::Borrowed(s) => Cow::Borrowed(*s),
                Cow::Owned(s) => Cow::Owned(s.clone()),
            },
            operation: self.operation,
            context: self.context.clone(),
            cause: match &self.cause {
                Some(cause) => Some(Arc::clone(cause)),
                None => None,
            },
        }
    }
}

impl PartialEq for Error {
    fn eq(&self, other: &Self) -> (res: bool) {
        let same_operation = match (self.operation, other.operation) {
            (Some(a), Some(b)) => str_eq(a, b),
            (None, None) => true,
            _ => false,
        };
        self.kind == other.kind && self.status == other.status && str_eq(
            self.message(),
            other.message(),
        ) && same_operation
    }
}

impl vstd::std_specs::cmp::PartialEqSpecImpl for Error {
    open spec fn obeys_eq_spec() -> bool {
        true
    }

    /// Two errors are equal when kind, status, message and operation
    /// label agree; context and cause are not compared.
    open spec fn eq_spec(&self, other: &Self) -> bool {
        &&& self@.kind == other@.kind
        &&& self@.status == other@.status
        &&& self@.message == other@.message
        &&& self@.operation == other@.operation
    }
}

impl Eq for Error {}

impl Error {
    /// The underlying error that this one was caused by, if one was set.
    pub closed spec fn cause_of(&self) -> Option<Error> {
        match self.cause {
            Some(cause) => Some(*cause),
            None => None,
        }
    }

    /// A new error says what it was given and has no operation label, no
    /// context and no cause.
    pub open spec fn is_fresh(&self, kind: ErrorKind, status: ErrorStatus, message: Seq<char>) -> bool {
        &&& self@.kind == kind
        &&& self@.status == status
        &&& self@.message == message
        &&& self@.operation is None
        &&& self@.context is Empty
        &&& self.cause_of() is None
    }

    /// The context pairs of the error as read through `arena`.
    pub open spec fn context_pairs(&self, arena: ContextArena) -> Seq<(Seq<char>, Seq<char>)> {
        self@.context.resolved(arena)
    }

    /// A permanent "not found" error with a static message.
    pub fn not_found() -> (res: Self)
        ensures
            res.is_fresh(ErrorKind::NotFound, ErrorStatus::Permanent, "not found"@),
    {
        Self::permanent_static(ErrorKind::NotFound, "not found")
    }

    /// A permanent "permission denied" error with a static message.
    pub fn permission_denied() -> (res: Self)
        ensures
            res.is_fresh(ErrorKind::PermissionDenied, ErrorStatus::Permanent, "permission denied"@),
    {
        Self::permanent_static(ErrorKind::PermissionDenied, "permission denied")
    }

    /// A temporary "timeout" error with a static message.
    pub fn timeout() -> (res: Self)
        ensures
            res.is_fresh(ErrorKind::Timeout, ErrorStatus::Temporary, "operation timed out"@),
    {
        Self::temporary_static(ErrorKind::Timeout, "operation timed out")
    }

    /// A permanent "validation failed" error with a static message.
    pub fn validation_failed() -> (res: Self)
        ensures
            res.is_fresh(ErrorKind::Validation, ErrorStatus::Permanent, "validation failed"@),
    {
        Self::permanent_static(ErrorKind::Validation, "validation failed")
    }

    /// A permanent "unexpected error" with a static message.
    pub fn unexpected() -> (res: Self)
        ensures
            res.is_fresh(ErrorKind::Unexpected, ErrorStatus::Permanent, "unexpected error"@),
    {
        Self::permanent_static(ErrorKind::Unexpected, "unexpected error")
    }

    /// A permanent error that borrows a static message.
    pub fn permanent_static(kind: ErrorKind, message: &'static str) -> (res: Self)
        ensures
            res.is_fresh(kind, ErrorStatus::Permanent, message@),
    {
        Error {
            kind,
            status: ErrorStatus::Permanent,
            message: Cow::Borrowed(message),
            operation: None,
            context: ContextHandle::Empty,
            cause: None,
        }
    }

    /// A temporary error that borrows a static message.
    pub fn temporary_static(kind: ErrorKind, message: &'static str) -> (res: Self)
        ensures
            res.is_fresh(kind, ErrorStatus::Temporary, message@),
    {
        Error {
            kind,
            status: ErrorStatus::Temporary,
            message: Cow::Borrowed(message),
            operation: None,
            context: ContextHandle::Empty,
            cause: None,
        }
    }

    /// A persistent error that borrows a static message.
    pub fn persistent_static(kind: ErrorKind, message: &'static str) -> (res: Self)
        ensures
            res.is_fresh(kind, ErrorStatus::Persistent, message@),
    {
        Error {
            kind,
            status: ErrorStatus::Persistent,
            message: Cow::Borrowed(message),
            operation: None,
            context: ContextHandle::Empty,
            cause: None,
        }
    }

    /// A permanent error: retrying will not help.
    pub fn permanent(kind: ErrorKind, message: &str) -> (res: Self)
        ensures
            res.is_fresh(kind, ErrorStatus::Permanent, message@),
    {
        Self::new(kind, ErrorStatus::Permanent, message)
    }

    /// A temporary error: safe to retry.
    pub fn temporary(kind: ErrorKind, message: &str) -> (res: Self)
        ensures
            res.is_fresh(kind, ErrorStatus::Temporary, message@),
    {
        Self::new(kind, ErrorStatus::Temporary, message)
    }

    /// A persistent error: it was retried and still fails.
    pub fn persistent(kind: ErrorKind, message: &str) -> (res: Self)
        ensures
            res.is_fresh(kind, ErrorStatus::Persistent, message@),
    {
        Self::new(kind, ErrorStatus::Persistent, message)
    }

    /// An error with the given kind, status and message.
    pub fn new(kind: ErrorKind, status: ErrorStatus, message: &str) -> (res: Self)
        ensures
            res.is_fresh(kind, status, message@),
    {
        Error {
            kind,
            status,
            message: Cow::Owned(message.to_owned()),
            operation: None,
            context: ContextHandle::Empty,
            cause: None,
        }
    }

    /// The kind of the error.
    pub fn kind(&self) -> (res: &ErrorKind)
        ensures
            *res == self@.kind,
    {
        &self.kind
    }

    /// The status of the error.
    pub fn status(&self) -> (res: &ErrorStatus)
        ensures
            *res == self@.status,
    {
        &self.status
    }

    /// The message of the error.
    pub fn message(&self) -> (res: &str)
        ensures
            res@ == self@.message,
    {
        match &self.message {
            Cow::Borrowed(s) => s,
            Cow::Owned(s) => s.as_str(),
        }
    }

    /// The operation label, if one was set.
    pub fn operation(&self) -> (res: Option<&'static str>)
        ensures
            res is Some == self@.operation is Some,
            res matches Some(op) ==> self@.operation == Some(op@),
    {
        self.operation
    }

    /// The context pairs, in the order in which they were added, as read
    /// through the arena of the calling thread.
    pub fn context(&self, arena: &ContextArena) -> (res: Vec<(String, String)>)
        ensures
            pairs_view(res@) == self.context_pairs(*arena),
    {
        self.context.resolve(arena)
    }

    /// The handle that says where the context pairs live.
    pub fn context_handle(&self) -> (res: &ContextHandle)
        ensures
            *res == self@.context,
    {
        &self.context
    }

    /// The underlying error, if one was set.
    pub fn cause(&self) -> (res: Option<&Error>)
        ensures
            res is Some == self.cause_of() is Some,
            res matches Some(cause) ==> self.cause_of() == Some(*cause),
    {
        match &self.cause {
            Some(cause) => Some(&**cause),
            None => None,
        }
    }

    /// Whether the error is safe to retry: decided by the status alone,
    /// whatever the kind.
    pub fn is_retryable(&self) -> (res: bool)
        ensures
            res == (self@.status == ErrorStatus::Temporary),
    {
        self.status.is_retryable()
    }

    /// Whether the error is permanent.
    pub fn is_permanent(&self) -> (res: bool)
        ensures
            res == (self@.status == ErrorStatus::Permanent),
    {
        self.status.is_permanent()
    }

    /// Sets the operation label.
    #[must_use]
    pub fn with_operation(self, operation: &'static str) -> (res: Self)
        ensures
            res@ == (ErrorView { operation: Some(operation@), ..self@ }),
            res.cause_of() == self.cause_of(),
    {
        let mut next = self;
        next.operation = Some(operation);
        next
    }

    /// Sets the underlying error, shared with every copy of this error.
    #[must_use]
    pub fn with_cause(self, cause: Arc<Error>) -> (res: Self)
        ensures
            res@ == self@,
            res.cause_of() == Some(*cause),
    {
        let mut next = self;
        next.cause = Some(cause);
        next
    }

    /// What adding the pair of `key` and `value` makes of this error and of
    /// the arena: `res` says what this error says; its context is the
    /// commit of the pairs that this error yields through the arena as it
    /// was, with the new pair behind them; and where every key and value
    /// fits its length prefix, `res` yields exactly those pairs through the
    /// arena as it is afterwards.
    pub open spec fn context_added(
        &self,
        res: Error,
        key: Seq<char>,
        value: Seq<char>,
        before: ContextArena,
        after: ContextArena,
    ) -> bool {
        let pairs = self.context_pairs(before).push((key, value));
        &&& res@ == (ErrorView { context: res@.context, ..self@ })
        &&& res.cause_of() == self.cause_of()
        &&& res@.context.is_commit_of(pairs, before, after)
        &&& all_fit(pairs) ==> res.context_pairs(after) == pairs
    }

    /// Adds a key/value pair to the context: the pairs read through
    /// `arena` so far and the new pair behind them are committed anew, a
    /// single pair to the heap and more to the arena.
    ///
    /// Where every key and value fits its length prefix, the new error
    /// read through the same arena yields the old pairs and the new one
    /// behind them.
    #[must_use]
    pub fn with_context(self, arena: &mut ContextArena, key: &str, value: &str) -> (res: Self)
        ensures
            self.context_added(res, key@, value@, *old(arena), *final(arena)),
    {
        let mut pairs = self.context.resolve(arena);
        let ghost before = pairs_view(pairs@);
        pairs.push((key.to_owned(), value.to_owned()));
        assert(pairs_view(pairs@) =~= before.push((key@, value@)));
        self.with_pairs(arena, pairs)
    }

    /// Replaces the context by the commit of `pairs`.
    pub(crate) fn with_pairs(self, arena: &mut ContextArena, pairs: Vec<(String, String)>) -> (res:
        Self)
        ensures
            res@ == (ErrorView { context: res@.context, ..self@ }),
            res.cause_of() == self.cause_of(),
            res@.context.is_commit_of(pairs_view(pairs@), *old(arena), *final(arena)),
            all_fit(pairs_view(pairs@)) ==> res.context_pairs(*final(arena)) == pairs_view(pairs@),
    {
        let context = ContextHandle::commit(arena, pairs);
        let mut next = self;
        next.context = context;
        next
    }

    /// Adds a key/value pair whose value is the text that `value`
    /// displays as.
    #[must_use]
    pub fn with_context_value<T: core::fmt::Display>(
        self,
        arena: &mut ContextArena,
        key: &str,
        value: T,
    ) -> (res: Self)
        ensures
            exists|text: String| #[trigger]
                to_string_from_display_ensures::<T>(&value, text) && self.context_added(
                    res,
                    key@,
                    text@,
                    *old(arena),
                    *final(arena),
                ),
    {
        let text = value.to_string();
        self.with_context(arena, key, text.as_str())
    }

    /// A builder for an error with the given kind, status and message.
    pub fn builder(kind: ErrorKind, status: ErrorStatus, message: &str) -> (res: ErrorBuilder)
        ensures
            res.is_fresh(kind, status, message@),
    {
        ErrorBuilder::new(kind, status, message)
    }
}

/// Collects what an error is to say, and commits the context once when
/// the error is built.
#[derive(Debug)]
pub struct ErrorBuilder {
    kind: ErrorKind,
    status: ErrorStatus,
    message: Cow<'static, str>,
    operation: Option<&'static str>,
    pairs: Vec<(String, String)>,
}

impl ErrorBuilder {
    /// The kind that the error will have.
    pub closed spec fn kind_of(&self) -> ErrorKind {
        self.kind
    }

    /// The status that the error will have.
    pub closed spec fn status_of(&self) -> ErrorStatus {
        self.status
    }

    /// The message that the error will have.
    pub closed spec fn message_of(&self) -> Seq<char> {
        self.message@
    }

    /// The operation label that the error will have.
    pub closed spec fn operation_of(&self) -> Option<Seq<char>> {
        match self.operation {
            Some(op) => Some(op@),
            None => None,
        }
    }

    /// The context pairs collected so far, in order.
    pub closed spec fn pairs_of(&self) -> Seq<(Seq<char>, Seq<char>)> {
        pairs_view(self.pairs@)
    }

    /// A new builder holds what it was given, no operation label and no
    /// context.
    pub open spec fn is_fresh(&self, kind: ErrorKind, status: ErrorStatus, message: Seq<char>) -> bool {
        &&& self.kind_of() == kind
        &&& self.status_of() == status
        &&& self.message_of() == message
        &&& self.operation_of() is None
        &&& self.pairs_of().len() == 0
    }

    /// Whether `next` is this builder but for the context pairs.
    pub open spec fn same_but_pairs(&self, next: ErrorBuilder) -> bool {
        &&& next.kind_of() == self.kind_of()
        &&& next.status_of() == self.status_of()
        &&& next.message_of() == self.message_of()
        &&& next.operation_of() == self.operation_of()
    }

    /// A builder for an error with the given kind, status and message.
    pub fn new(kind: ErrorKind, status: ErrorStatus, message: &str) -> (res: Self)
        ensures
            res.is_fresh(kind, status, message@),
    {
        let res = ErrorBuilder {
            kind,
            status,
            message: Cow::Owned(message.to_owned()),
            operation: None,
            pairs: Vec::new(),
        };
        res
    }

    /// Sets the operation label.
    #[must_use]
    pub fn with_operation(self, operation: &'static str) -> (res: Self)
        ensures
            res.kind_of() == self.kind_of(),
            res.status_of() == self.status_of(),
            res.message_of() == self.message_of(),
            res.operation_of() == Some(operation@),
            res.pairs_of() == self.pairs_of(),
    {
        let mut next = self;
        next.operation = Some(operation);
        next
    }

    /// Adds a context pair behind those collected so far.
    #[must_use]
    pub fn with_context(self, key: &str, value: &str) -> (res: Self)
        ensures
            self.same_but_pairs(res),
            res.pairs_of() == self.pairs_of().push((key@, value@)),
    {
        let mut next = self;
        next.pairs.push((key.to_owned(), value.to_owned()));
        next
    }

    /// Adds a context pair whose value is the text that `value` displays
    /// as.
    #[must_use]
    pub fn with_context_value<T: core::fmt::Display>(self, key: &str, value: T) -> (res: Self)
        ensures
            self.same_but_pairs(res),
            exists|text: String| #[trigger]
                to_string_from_display_ensures::<T>(&value, text) && res.pairs_of()
                    == self.pairs_of().push((key@, text@)),
    {
        let text = value.to_string();
        self.with_context(key, text.as_str())
    }

    /// Adds the given context pairs, in order, behind those collected so
    /// far.
    #[must_use]
    pub fn with_context_iter(self, pairs: &[(&str, &str)]) -> (res: Self)
        ensures
            self.same_but_pairs(res),
            res.pairs_of() == self.pairs_of() + borrowed_pairs_view(pairs@),
    {
        let ghost added = borrowed_pairs_view(pairs@);
        let mut next = self;
        let mut i: usize = 0;
        while i < pairs.len()
            invariant
                i <= pairs@.len(),
                added == borrowed_pairs_view(pairs@),
                self.same_but_pairs(next),
                next.pairs_of() == self.pairs_of() + added.take(i as int),
            decreases pairs@.len() - i,
        {
            let pair = &pairs[i];
            next = next.with_context(pair.0, pair.1);
            i += 1;
        }
        next
    }

    /// The human-readable line of the error that would be built.
    pub fn to_string(&self) -> (res: String)
        ensures
            res@ == crate::render::display_text(
                self.message_of(),
                self.operation_of(),
                self.pairs_of(),
            ),
    {
        let message = match &self.message {
            Cow::Borrowed(s) => *s,
            Cow::Owned(s) => s.as_str(),
        };
        crate::render::render_display(message, self.operation, &self.pairs)
    }

    /// Builds the error and commits its context: no pair gives the empty
    /// handle, a single pair is kept on the heap, more go to the arena.
    /// Where every key and value fits its length prefix, the error yields
    /// the collected pairs through the same arena.
    pub fn build(self, arena: &mut ContextArena) -> (res: Error)
        ensures
            res@.kind == self.kind_of(),
            res@.status == self.status_of(),
            res@.message == self.message_of(),
            res@.operation == self.operation_of(),
            res.cause_of() is None,
            res@.context.is_commit_of(self.pairs_of(), *old(arena), *final(arena)),
            all_fit(self.pairs_of()) ==> res.context_pairs(*final(arena)) == self.pairs_of(),
    {
        let context = ContextHandle::commit(arena, self.pairs);
        Error {
            kind: self.kind,
            status: self.status,
            message: self.message,
            operation: self.operation,
            context,
            cause: None,
        }
    }
}

} // verus!
