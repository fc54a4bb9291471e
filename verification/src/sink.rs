//! The candidate sink: the one mutable value of a request.
//!
//! The engine only ever selects; what it selected is recorded here as opaque
//! [`Candidate`] values, in emission order.  Ranking and rendering happen
//! elsewhere.  The sink also carries the request's cooperative cancellation
//! state: a signal that arrives at a boundary check aborts the request, and a
//! cancelled request delivers no candidates at all.

use vstd::prelude::*;

use crate::model::ScopeEntry;

verus! {

/// One selected candidate, in the shape the sink records it.
///
/// `CrateRoots` and `Keywords` stand for whole families the engine delegates
/// wholesale: all crate-root names, and the colon-aware keyword suggestions.
#[derive(Clone, Copy, Debug, PartialEq, Eq, Structural)]
pub enum Candidate {
    /// A named resolution from some scope.
    Resolution { name: u32, entry: ScopeEntry },
    /// An associated type alias.
    TypeAlias { id: u64 },
    /// An associated type alias surfaced with a trailing `=`, for positions
    /// that expect an associated-type binding.
    TypeAliasWithEq { id: u64 },
    /// An associated constant, legal only as a const generic argument.
    Constant { id: u64 },
    /// All crate-root names, delegated as one.
    CrateRoots,
    /// The colon-aware keyword suggestions, delegated as one.
    Keywords,
    /// The single best-effort inferred-type suggestion; `text` is the opaque
    /// handle of the type rendered as source text.
    InferredType { text: u32 },
}

/// The sink of one request: the candidates emitted so far, and the request's
/// cancellation state.
///
/// `cancel_in` models the cooperative cancellation signal: `Some(k)` means the
/// signal arrives at the `k`-th upcoming boundary check (counting from zero),
/// `None` that no signal arrives during this request.
#[derive(Debug)]
pub struct Completions {
    pub items: Vec<Candidate>,
    pub cancel_in: Option<u64>,
    pub cancelled: bool,
}

impl Completions {
    /// A fresh sink for one request.
    pub fn new(cancel_in: Option<u64>) -> (r: Completions)
        ensures
            r.items@ == Seq::<Candidate>::empty(),
            r.cancel_in == cancel_in,
            !r.cancelled,
    {
        let r = Completions { items: Vec::new(), cancel_in, cancelled: false };
        proof {
            assert(r.items@ =~= Seq::<Candidate>::empty());
        }
        r
    }

    /// One boundary check: observes whether the cancellation signal has
    /// arrived, and remembers the verdict.
    pub fn check_cancelled(&mut self) -> (c: bool)
        ensures
            final(self).items == old(self).items,
            final(self).cancelled == (old(self).cancelled || old(self).cancel_in == Some(0u64)),
            c == final(self).cancelled,
            final(self).cancel_in == (match old(self).cancel_in {
                Option::<u64>::None => Option::<u64>::None,
                Option::<u64>::Some(k) => if k == 0 { Option::<u64>::Some(0u64) } else { Option::<u64>::Some((k - 1) as u64) },
            }),
    {
        match self.cancel_in {
            Option::None => {},
            Option::Some(k) => {
                if k == 0 {
                    self.cancelled = true;
                } else {
                    self.cancel_in = Option::Some(k - 1);
                }
            },
        }
        self.cancelled
    }

    /// Add a named resolution candidate.
    pub fn add_resolution(&mut self, name: u32, entry: ScopeEntry)
        ensures
            final(self).items@ == old(self).items@.push(Candidate::Resolution { name, entry }),
            final(self).cancel_in == old(self).cancel_in,
            final(self).cancelled == old(self).cancelled,
    {
        self.items.push(Candidate::Resolution { name, entry });
    }

    /// Add a type-alias candidate.
    pub fn add_type_alias(&mut self, id: u64)
        ensures
            final(self).items@ == old(self).items@.push(Candidate::TypeAlias { id }),
            final(self).cancel_in == old(self).cancel_in,
            final(self).cancelled == old(self).cancelled,
    {
        self.items.push(Candidate::TypeAlias { id });
    }

    /// Add a type-alias candidate that needs a trailing `=`.
    pub fn add_type_alias_with_eq(&mut self, id: u64)
        ensures
            final(self).items@ == old(self).items@.push(Candidate::TypeAliasWithEq { id }),
            final(self).cancel_in == old(self).cancel_in,
            final(self).cancelled == old(self).cancelled,
    {
        self.items.push(Candidate::TypeAliasWithEq { id });
    }

    /// Add an associated-constant candidate.
    pub fn add_const(&mut self, id: u64)
        ensures
            final(self).items@ == old(self).items@.push(Candidate::Constant { id }),
            final(self).cancel_in == old(self).cancel_in,
            final(self).cancelled == old(self).cancelled,
    {
        self.items.push(Candidate::Constant { id });
    }

    /// Add every crate-root name, delegated as one candidate family.
    pub fn add_crate_roots(&mut self)
        ensures
            final(self).items@ == old(self).items@.push(Candidate::CrateRoots),
            final(self).cancel_in == old(self).cancel_in,
            final(self).cancelled == old(self).cancelled,
    {
        self.items.push(Candidate::CrateRoots);
    }

    /// Add the colon-aware keyword suggestions, delegated as one family.
    pub fn add_keywords_with_colon(&mut self)
        ensures
            final(self).items@ == old(self).items@.push(Candidate::Keywords),
            final(self).cancel_in == old(self).cancel_in,
            final(self).cancelled == old(self).cancelled,
    {
        self.items.push(Candidate::Keywords);
    }

    /// Add the single inferred-type suggestion.
    pub fn add_inferred(&mut self, text: u32)
        ensures
            final(self).items@ == old(self).items@.push(Candidate::InferredType { text }),
            final(self).cancel_in == old(self).cancel_in,
            final(self).cancelled == old(self).cancelled,
    {
        self.items.push(Candidate::InferredType { text });
    }
}

} // verus!
