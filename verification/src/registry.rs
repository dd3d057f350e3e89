//! The registry of struct declarations of one source unit.
//!
//! Lookups scan from the newest declaration backwards, so a later
//! declaration of the same identifier shadows an earlier one
//! (last-write-wins).

use vstd::prelude::*;

use crate::decl::StructDecl;
use crate::decl::str_eq;

verus! {

/// All struct declarations of one source unit, in declaration order. Built
/// once, read-only during resolution.
pub struct Registry {
    pub decls: Vec<StructDecl>,
}

impl View for Registry {
    type V = Seq<StructDecl>;

    open spec fn view(&self) -> Seq<StructDecl> {
        self.decls@
    }
}

/// The declaration that `name` denotes among `decls`: the last declaration
/// with that identifier, or nothing.
pub open spec fn spec_lookup(decls: Seq<StructDecl>, name: Seq<char>) -> Option<StructDecl>
    decreases decls.len(),
{
    if decls.len() == 0 {
        None
    } else if decls.last().name@ == name {
        Some(decls.last())
    } else {
        spec_lookup(decls.drop_last(), name)
    }
}

/// The set of identifiers declared in `decls`.
pub open spec fn spec_names(decls: Seq<StructDecl>) -> Set<Seq<char>> {
    decls.map_values(|d: StructDecl| d.name@).to_set()
}

/// An identifier that a lookup finds is among the declared names.
pub proof fn lemma_lookup_in_names(decls: Seq<StructDecl>, name: Seq<char>)
    requires
        spec_lookup(decls, name) is Some,
    ensures
        spec_names(decls).contains(name),
    decreases decls.len(),
{
    let mapped = decls.map_values(|d: StructDecl| d.name@);
    if decls.len() == 0 {
    } else if decls.last().name@ == name {
        assert(mapped[decls.len() - 1] == name);
        assert(mapped.contains(name));
    } else {
        lemma_lookup_in_names(decls.drop_last(), name);
        let sub = decls.drop_last().map_values(|d: StructDecl| d.name@);
        let i = choose|i: int| 0 <= i < sub.len() && sub[i] == name;
        assert(mapped[i] == name);
        assert(mapped.contains(name));
    }
}

impl Registry {
    /// Finds the declaration that `name` denotes, if any.
    pub fn lookup(&self, name: &str) -> (r: Option<&StructDecl>)
        ensures
            match r {
                Some(d) => spec_lookup(self@, name@) == Some(*d),
                None => spec_lookup(self@, name@) is None,
            },
    {
        let mut i: usize = self.decls.len();
        proof {
            assert(self@.take(i as int) =~= self@);
        }
        while i > 0
            invariant
                0 <= i <= self.decls.len(),
                spec_lookup(self@, name@) == spec_lookup(self@.take(i as int), name@),
            decreases i,
        {
            proof {
                assert(self@.take(i as int).last() == self@[i - 1]);
                assert(self@.take(i as int).drop_last() =~= self@.take(i - 1));
            }
            if str_eq(self.decls[i - 1].name.as_str(), name) {
                return Some(&self.decls[i - 1]);
            }
            i = i - 1;
        }
        proof {
            assert(self@.take(0) =~= Seq::<StructDecl>::empty());
        }
        None
    }
}

/// Builds the registry of a parsed source unit: every top-level declaration,
/// in order; a repeated identifier denotes its latest declaration.
pub fn collect_all_structs(unit: Vec<StructDecl>) -> (r: Registry)
    ensures
        r@ == unit@,
{
    Registry { decls: unit }
}

} // verus!
