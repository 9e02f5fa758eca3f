//! Adding context to an error, or to the error of a result, on its way
//! out.

use vstd::prelude::*;
use vstd::string::to_string_from_display_ensures;
use crate::arena::{all_fit, borrowed_pairs_view, pairs_view, ContextArena};
use crate::error::{Error, ErrorView};

verus! {

/// Adding one key/value pair of context.
pub trait AddContext<T> {
    /// Adds a key/value pair to the context of the error.
    #[must_use]
    fn with_context(self, arena: &mut ContextArena, key: &str, value: &str) -> T;

    /// Adds a key/value pair whose value is the text that `value`
    /// displays as.
    #[must_use]
    fn with_context_value<V: core::fmt::Display>(
        self,
        arena: &mut ContextArena,
        key: &str,
        value: V,
    ) -> T;
}

impl<T> AddContext<Result<T, Error>> for Result<T, Error> {
    /// A success passes through and leaves the arena as it is; a failure
    /// gets the pair added to its error.
    fn with_context(self, arena: &mut ContextArena, key: &str, value: &str) -> (res: Result<
        T,
        Error,
    >)
        ensures
            match self {
                Ok(v) => res == Ok::<T, Error>(v) && *final(arena) == *old(arena),
                Err(e) => res matches Err(next) && e.context_added(
                    next,
                    key@,
                    value@,
                    *old(arena),
                    *final(arena),
                ),
            },
    {
        match self {
            Ok(v) => Ok(v),
            Err(e) => Err(e.with_context(arena, key, value)),
        }
    }

    /// A success passes through and leaves the arena as it is; a failure
    /// gets the pair added to its error, the value as it displays.
    fn with_context_value<V: core::fmt::Display>(
        self,
        arena: &mut ContextArena,
        key: &str,
        value: V,
    ) -> (res: Result<T, Error>)
        ensures
            match self {
                Ok(v) => res == Ok::<T, Error>(v) && *final(arena) == *old(arena),
                Err(e) => res matches Err(next) && exists|text: String| #[trigger]
                    to_string_from_display_ensures::<V>(&value, text) && e.context_added(
                        next,
                        key@,
                        text@,
                        *old(arena),
                        *final(arena),
                    ),
            },
    {
        match self {
            Ok(v) => Ok(v),
            Err(e) => Err(e.with_context_value(arena, key, value)),
        }
    }
}

impl AddContext<Error> for Error {
    /// Adds the pair as [`Error::with_context`] does.
    fn with_context(self, arena: &mut ContextArena, key: &str, value: &str) -> (res: Error)
        ensures
            self.context_added(res, key@, value@, *old(arena), *final(arena)),
    {
        Error::with_context(self, arena, key, value)
    }

    /// Adds the pair as [`Error::with_context_value`] does.
    fn with_context_value<V: core::fmt::Display>(
        self,
        arena: &mut ContextArena,
        key: &str,
        value: V,
    ) -> (res: Error)
        ensures
            exists|text: String| #[trigger]
                to_string_from_display_ensures::<V>(&value, text) && self.context_added(
                    res,
                    key@,
                    text@,
                    *old(arena),
                    *final(arena),
                ),
    {
        Error::with_context_value(self, arena, key, value)
    }
}

/// Adding several key/value pairs of context at once.
pub trait AddContextIter: Sized {
    /// Adds the pairs, in order, to the context of the error.
    #[must_use]
    fn with_context_iter(self, arena: &mut ContextArena, pairs: &[(&str, &str)]) -> Self;
}

impl Error {
    /// What adding `added` at once makes of this error and of the arena:
    /// without pairs to add nothing changes; else `res` says what this
    /// error says, its context is the commit of the pairs that this error
    /// yields through the arena as it was, with the added pairs behind
    /// them, and where every key and value fits its length prefix, `res`
    /// yields exactly those pairs through the arena as it is afterwards.
    pub open spec fn context_extended(
        &self,
        res: Error,
        added: Seq<(Seq<char>, Seq<char>)>,
        before: ContextArena,
        after: ContextArena,
    ) -> bool {
        if added.len() == 0 {
            res == *self && after == before
        } else {
            let pairs = self.context_pairs(before) + added;
            &&& res@ == (ErrorView { context: res@.context, ..self@ })
            &&& res.cause_of() == self.cause_of()
            &&& res@.context.is_commit_of(pairs, before, after)
            &&& all_fit(pairs) ==> res.context_pairs(after) == pairs
        }
    }
}

impl AddContextIter for Error {
    /// Adds the pairs behind those that the error yields through `arena`,
    /// and commits all of them once.
    fn with_context_iter(self, arena: &mut ContextArena, pairs: &[(&str, &str)]) -> (res: Error)
        ensures
            self.context_extended(res, borrowed_pairs_view(pairs@), *old(arena), *final(arena)),
    {
        if pairs.len() == 0 {
            return self;
        }
        let ghost added = borrowed_pairs_view(pairs@);
        let mut all = self.context(arena);
        let ghost start = pairs_view(all@);
        let mut i: usize = 0;
        while i < pairs.len()
            invariant
                i <= pairs@.len(),
                added == borrowed_pairs_view(pairs@),
                pairs_view(all@) == start + added.take(i as int),
            decreases pairs@.len() - i,
        {
            let pair = &pairs[i];
            all.push((pair.0.to_owned(), pair.1.to_owned()));
            assert(start + added.take(i as int + 1) =~= (start + added.take(i as int)).push(
                added[i as int],
            ));
            i += 1;
        }
        assert(added.take(i as int) =~= added);
        self.with_pairs(arena, all)
    }
}

impl<T> AddContextIter for Result<T, Error> {
    /// A success passes through and leaves the arena as it is; a failure
    /// gets the pairs added to its error.
    fn with_context_iter(self, arena: &mut ContextArena, pairs: &[(&str, &str)]) -> (res: Result<
        T,
        Error,
    >)
        ensures
            match self {
                Ok(v) => res == Ok::<T, Error>(v) && *final(arena) == *old(arena),
                Err(e) => res matches Err(next) && e.context_extended(
                    next,
                    borrowed_pairs_view(pairs@),
                    *old(arena),
                    *final(arena),
                ),
            },
    {
        match self {
            Ok(v) => Ok(v),
            Err(e) => Err(e.with_context_iter(arena, pairs)),
        }
    }
}

} // verus!
