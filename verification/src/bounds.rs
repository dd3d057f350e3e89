//! Externally supplied bounds for dynamically sized types.
//!
//! A variable-length string needs a maximum character count and a growable
//! list needs a maximum element count before either can be given a byte
//! size. The provider answers such queries from a pre-loaded table keyed by
//! the owning struct, the field and the kind of bound, with an optional
//! default for queries the table does not answer. A query that neither the
//! table nor the default answers fails only the field being resolved.

use vstd::prelude::*;

use crate::decl::str_eq;

verus! {

/// What a bound query asks for: the maximum character count of a
/// variable-length string, or the maximum element count of a growable list.
#[derive(Clone, Copy, PartialEq, Eq, Structural, Debug)]
pub enum BoundKind {
    MaxLen,
    MaxItems,
}

/// One pre-loaded answer: the bound `value` applies to queries of `kind`
/// raised while resolving the field named `field` of the struct named
/// `owner`.
pub struct BoundEntry {
    pub owner: String,
    pub field: String,
    pub kind: BoundKind,
    pub value: u64,
}

/// The bound provider: a table of pre-loaded answers and an optional
/// default, consulted in that order.
pub struct BoundProvider {
    pub entries: Vec<BoundEntry>,
    pub default_bound: Option<u64>,
}

/// True when `e` answers the query `(owner, field, kind)`.
pub open spec fn spec_entry_matches(
    e: BoundEntry,
    owner: Seq<char>,
    field: Seq<char>,
    kind: BoundKind,
) -> bool {
    e.owner@ == owner && e.field@ == field && e.kind == kind
}

/// The first entry of the table answering the query, if any.
pub open spec fn spec_bound_in(
    entries: Seq<BoundEntry>,
    owner: Seq<char>,
    field: Seq<char>,
    kind: BoundKind,
) -> Option<u64>
    decreases entries.len(),
{
    if entries.len() == 0 {
        None
    } else if spec_entry_matches(entries[0], owner, field, kind) {
        Some(entries[0].value)
    } else {
        spec_bound_in(entries.drop_first(), owner, field, kind)
    }
}

/// The provider's answer to a query: the first matching table entry, else
/// the default, else nothing.
pub open spec fn spec_get_bound(
    b: BoundProvider,
    owner: Seq<char>,
    field: Seq<char>,
    kind: BoundKind,
) -> Option<u64> {
    match spec_bound_in(b.entries@, owner, field, kind) {
        Some(v) => Some(v),
        None => b.default_bound,
    }
}

impl BoundProvider {
    /// A provider with an empty table and no default: every query fails.
    pub fn new() -> (r: BoundProvider)
        ensures
            r.entries@ =~= Seq::<BoundEntry>::empty(),
            r.default_bound is None,
    {
        BoundProvider { entries: Vec::new(), default_bound: None }
    }

    /// A provider that answers every query the table misses with `value`.
    pub fn with_default(value: u64) -> (r: BoundProvider)
        ensures
            r.entries@ =~= Seq::<BoundEntry>::empty(),
            r.default_bound == Some(value),
    {
        BoundProvider { entries: Vec::new(), default_bound: Some(value) }
    }

    /// Appends an answer to the table. Earlier answers take precedence.
    pub fn add(&mut self, entry: BoundEntry)
        ensures
            final(self).entries@ == old(self).entries@.push(entry),
            final(self).default_bound == old(self).default_bound,
    {
        self.entries.push(entry);
    }

    /// Answers the query `(owner, field, kind)`.
    pub fn get_bound(&self, owner: &str, field: &str, kind: BoundKind) -> (r: Option<u64>)
        ensures
            r == spec_get_bound(*self, owner@, field@, kind),
    {
        let mut i: usize = 0;
        proof {
            assert(self.entries@.skip(0) =~= self.entries@);
        }
        while i < self.entries.len()
            invariant
                0 <= i <= self.entries.len(),
                spec_bound_in(self.entries@, owner@, field@, kind) == spec_bound_in(
                    self.entries@.skip(i as int),
                    owner@,
                    field@,
                    kind,
                ),
            decreases self.entries.len() - i,
        {
            proof {
                assert(self.entries@.skip(i as int)[0] == self.entries@[i as int]);
                assert(self.entries@.skip(i as int).drop_first() =~= self.entries@.skip(
                    i as int + 1,
                ));
            }
            let e = &self.entries[i];
            if e.kind == kind && str_eq(e.owner.as_str(), owner) && str_eq(e.field.as_str(), field) {
                return Some(e.value);
            }
            i = i + 1;
        }
        proof {
            assert(self.entries@.skip(self.entries@.len() as int) =~= Seq::<BoundEntry>::empty());
        }
        self.default_bound
    }
}

} // verus!
