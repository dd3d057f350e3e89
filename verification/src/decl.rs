//! Plain data forms of parsed struct declarations.
//!
//! The parsing front end (outside this library) reduces each source-level
//! struct to a [`StructDecl`]: its identifier, its marker attributes and its
//! ordered fields, every field's type given as a [`TypeExpr`].

use vstd::prelude::*;

verus! {

/// A field's type as it appears in a declaration: a named type with at most
/// one generic argument (enough to express `Option<T>`, `Vec<T>`, `String`
/// and plain identifiers), or an unsupported shape (a tuple, reference or
/// array), which always resolves to size zero.
pub enum TypeExpr {
    Named { name: String, arg: Option<Box<TypeExpr>> },
    Unsupported,
}

/// One named field of a struct declaration.
pub struct FieldDecl {
    pub name: String,
    pub ty: TypeExpr,
}

/// A struct declaration: identifier, marker attributes, ordered fields.
pub struct StructDecl {
    pub name: String,
    pub attrs: Vec<String>,
    pub fields: Vec<FieldDecl>,
}

/// True when the declaration carries `marker` among its attributes.
pub open spec fn spec_has_marker(s: StructDecl, marker: Seq<char>) -> bool {
    exists|i: int| 0 <= i < s.attrs@.len() && s.attrs@[i]@ == marker
}

/// The subsequence of `unit` whose declarations carry `marker`, in source
/// declaration order.
pub open spec fn spec_marked_structs(unit: Seq<StructDecl>, marker: Seq<char>) -> Seq<StructDecl>
    decreases unit.len(),
{
    if unit.len() == 0 {
        Seq::empty()
    } else {
        let rest = spec_marked_structs(unit.drop_first(), marker);
        if spec_has_marker(unit[0], marker) {
            seq![unit[0]] + rest
        } else {
            rest
        }
    }
}

/// Compares two string slices by their character sequences.
pub fn str_eq(a: &str, b: &str) -> (r: bool)
    ensures
        r == (a@ == b@),
{
    let owned_a: String = a.to_owned();
    let owned_b: String = b.to_owned();
    owned_a == owned_b
}

/// True when `s` carries the attribute `marker`.
pub fn has_marker(s: &StructDecl, marker: &str) -> (r: bool)
    ensures
        r == spec_has_marker(*s, marker@),
{
    let mut i: usize = 0;
    while i < s.attrs.len()
        invariant
            0 <= i <= s.attrs.len(),
            forall|j: int| 0 <= j < i ==> s.attrs@[j]@ != marker@,
        decreases s.attrs.len() - i,
    {
        if str_eq(s.attrs[i].as_str(), marker) {
            return true;
        }
        i = i + 1;
    }
    false
}

/// Returns, in source declaration order, the declarations of `unit` that
/// carry `marker`.
pub fn find_marked_structs(unit: Vec<StructDecl>, marker: &str) -> (r: Vec<StructDecl>)
    ensures
        r@ == spec_marked_structs(unit@, marker@),
{
    let ghost all = unit@;
    let mut rest = unit;
    let mut out: Vec<StructDecl> = Vec::new();
    while rest.len() > 0
        invariant
            spec_marked_structs(all, marker@) == out@ + spec_marked_structs(rest@, marker@),
        decreases rest.len(),
    {
        let ghost before = rest@;
        let head = rest.remove(0);
        proof {
            assert(rest@ =~= before.drop_first());
            assert(head == before[0]);
        }
        if has_marker(&head, marker) {
            let ghost out_before = out@;
            out.push(head);
            proof {
                assert(out@ =~= out_before + seq![head]);
                assert(out_before + (seq![head] + spec_marked_structs(rest@, marker@)) =~= out@
                    + spec_marked_structs(rest@, marker@));
            }
        }
    }
    proof {
        assert(spec_marked_structs(all, marker@) =~= out@);
    }
    out
}

/// Returns the declarations marked as persisted records (the `account`
/// marker), the entry points of size computation.
pub fn find_account_structs(unit: Vec<StructDecl>) -> (r: Vec<StructDecl>)
    ensures
        r@ == spec_marked_structs(unit@, "account"@),
{
    find_marked_structs(unit, "account")
}

/// The ordered fields of a declaration.
pub fn extract_fields(s: &StructDecl) -> (r: &Vec<FieldDecl>)
    ensures
        r@ == s.fields@,
{
    &s.fields
}

} // verus!
