//! The type-size resolution engine.
//!
//! A type expression resolves, against a registry of struct declarations and
//! a bound provider, to a byte size: primitives by the fixed table, nested
//! structs by recursive summation over their fields, variable-length strings
//! and growable lists against externally supplied bounds, optionals as one
//! presence byte plus the inner size, and every unrecognized form to zero.
//! A struct reference already on the resolution path is a cycle and fails;
//! a dynamic type whose bound no provider answers fails; a size that would
//! not fit the size type fails. Each failure is scoped to the field being
//! resolved.

use vstd::prelude::*;

use crate::bounds::BoundKind;
use crate::bounds::BoundProvider;
use crate::bounds::spec_get_bound;
use crate::decl::FieldDecl;
use crate::decl::StructDecl;
use crate::decl::TypeExpr;
use crate::decl::str_eq;
use crate::registry::Registry;
use crate::registry::lemma_lookup_in_names;
use crate::registry::spec_lookup;
use crate::registry::spec_names;
use crate::size::primitive_size;
use crate::size::spec_primitive_size;

verus! {

/// The outcome of resolving one type expression: a byte size, a cyclic
/// struct reference (carrying the identifier found on the path twice), a
/// bound query that no provider answered, or a size beyond the size type.
pub enum Resolution {
    Size(int),
    Cyclic(Seq<char>),
    NoBound { owner: Seq<char>, field: Seq<char>, kind: BoundKind },
    TooLarge,
}

/// Why a field could not be sized.
#[derive(Debug, PartialEq, Eq)]
pub enum ResolveError {
    /// A struct reference re-entered a struct already being resolved.
    CyclicType { name: String },
    /// Neither the table nor the default answered a bound query.
    MissingBound { owner: String, field: String, kind: BoundKind },
    /// The size does not fit the size type.
    SizeOverflow,
}

/// How an executable outcome renders an abstract one.
pub open spec fn outcome_matches(r: Result<u64, ResolveError>, m: Resolution) -> bool {
    match m {
        Resolution::Size(s) => r matches Ok(v) && v == s,
        Resolution::Cyclic(n) => r matches Err(ResolveError::CyclicType { name }) && name@ == n,
        Resolution::NoBound { owner, field, kind } => r matches Err(ResolveError::MissingBound {
            owner: o,
            field: f,
            kind: k,
        }) && o@ == owner && f@ == field && k == kind,
        Resolution::TooLarge => r matches Err(ResolveError::SizeOverflow),
    }
}

/// The nesting depth of a type expression through its generic arguments.
pub open spec fn type_height(ty: TypeExpr) -> nat
    decreases ty,
{
    match ty {
        TypeExpr::Named { name, arg } => match arg {
            Some(inner) => 1 + type_height(*inner),
            None => 0,
        },
        TypeExpr::Unsupported => 0,
    }
}

/// The combined nesting depth of a field list, dominating each field's own.
pub open spec fn fields_height(fields: Seq<FieldDecl>) -> nat
    decreases fields.len(),
{
    if fields.len() == 0 {
        0
    } else {
        1 + type_height(fields[0].ty) + fields_height(fields.drop_first())
    }
}

/// Every field's type sits strictly below the list's combined depth.
pub proof fn lemma_fields_height_at(fields: Seq<FieldDecl>, i: int)
    requires
        0 <= i < fields.len(),
    ensures
        type_height(fields[i].ty) < fields_height(fields),
    decreases i,
{
    if i > 0 {
        lemma_fields_height_at(fields.drop_first(), i - 1);
        assert(fields.drop_first()[i - 1] == fields[i]);
    }
}

/// The identifiers of the structs being resolved on the current path, as a
/// set of character sequences.
pub open spec fn spec_name_set(names: Seq<String>) -> Set<Seq<char>> {
    names.map_values(|s: String| s@).to_set()
}

/// Resolves `ty` to a byte size, in priority order: the primitive table, a
/// registry struct (the sum of its fields, guarded against cycles by
/// `visited`), a dynamically sized family sized against the bound provider
/// under the query key `(owner, field)`, and zero for everything else.
pub open spec fn spec_resolve(
    ty: TypeExpr,
    reg: Seq<StructDecl>,
    bounds: BoundProvider,
    owner: Seq<char>,
    field: Seq<char>,
    visited: Set<Seq<char>>,
) -> Resolution
    decreases spec_names(reg).difference(visited).len(), type_height(ty),
{
    match ty {
        TypeExpr::Unsupported => Resolution::Size(0),
        TypeExpr::Named { name, arg } => match spec_primitive_size(name@) {
            Some(w) => Resolution::Size(w as int),
            None => match spec_lookup(reg, name@) {
                Some(d) => {
                    if visited.contains(name@) {
                        Resolution::Cyclic(name@)
                    } else {
                        proof {
                            broadcast use vstd::seq_lib::seq_to_set_is_finite;

                            lemma_lookup_in_names(reg, name@);
                            spec_names(reg).lemma_set_insert_diff_decreases(visited, name@);
                        }
                        spec_sum_fields(d.fields@, reg, bounds, name@, visited.insert(name@), 0)
                    }
                },
                None => {
                    if name@ == "String"@ {
                        match spec_get_bound(bounds, owner, field, BoundKind::MaxLen) {
                            Some(l) => if 4 + l <= u64::MAX {
                                Resolution::Size(4 + l)
                            } else {
                                Resolution::TooLarge
                            },
                            None => Resolution::NoBound { owner, field, kind: BoundKind::MaxLen },
                        }
                    } else if name@ == "Vec"@ {
                        match arg {
                            Some(inner) => match spec_get_bound(
                                bounds,
                                owner,
                                field,
                                BoundKind::MaxItems,
                            ) {
                                Some(n) => match spec_resolve(
                                    *inner,
                                    reg,
                                    bounds,
                                    owner,
                                    field,
                                    visited,
                                ) {
                                    Resolution::Size(s) => if 4 + n * s <= u64::MAX {
                                        Resolution::Size(4 + n * s)
                                    } else {
                                        Resolution::TooLarge
                                    },
                                    e => e,
                                },
                                None => Resolution::NoBound {
                                    owner,
                                    field,
                                    kind: BoundKind::MaxItems,
                                },
                            },
                            None => Resolution::Size(0),
                        }
                    } else if name@ == "Option"@ {
                        match arg {
                            Some(inner) => match spec_resolve(
                                *inner,
                                reg,
                                bounds,
                                owner,
                                field,
                                visited,
                            ) {
                                Resolution::Size(s) => if 1 + s <= u64::MAX {
                                    Resolution::Size(1 + s)
                                } else {
                                    Resolution::TooLarge
                                },
                                e => e,
                            },
                            None => Resolution::Size(0),
                        }
                    } else {
                        Resolution::Size(0)
                    }
                },
            },
        },
    }
}

/// Resolves the fields in order, accumulating `acc` plus their sizes; the
/// first failure, cyclic reference or overflow ends the summation.
pub open spec fn spec_sum_fields(
    fields: Seq<FieldDecl>,
    reg: Seq<StructDecl>,
    bounds: BoundProvider,
    owner: Seq<char>,
    visited: Set<Seq<char>>,
    acc: int,
) -> Resolution
    decreases spec_names(reg).difference(visited).len(), fields_height(fields),
{
    if fields.len() == 0 {
        Resolution::Size(acc)
    } else {
        match spec_resolve(fields[0].ty, reg, bounds, owner, fields[0].name@, visited) {
            Resolution::Size(s) => if acc + s <= u64::MAX {
                spec_sum_fields(fields.drop_first(), reg, bounds, owner, visited, acc + s)
            } else {
                Resolution::TooLarge
            },
            e => e,
        }
    }
}

/// Resolving a bare field type starts with nothing on the path.
pub open spec fn spec_resolve_field(
    ty: TypeExpr,
    reg: Seq<StructDecl>,
    bounds: BoundProvider,
    owner: Seq<char>,
    field: Seq<char>,
) -> Resolution {
    spec_resolve(ty, reg, bounds, owner, field, Set::empty())
}

/// The summed size of a declaration's fields, the declaration itself on the
/// path from the start.
pub open spec fn spec_struct_size(
    decl: StructDecl,
    reg: Seq<StructDecl>,
    bounds: BoundProvider,
) -> Resolution {
    spec_sum_fields(decl.fields@, reg, bounds, decl.name@, Set::empty().insert(decl.name@), 0)
}

/// The size of a persisted record: an eight-byte discriminator prefix plus
/// the summed size of the fields.
pub open spec fn spec_account_size(
    decl: StructDecl,
    reg: Seq<StructDecl>,
    bounds: BoundProvider,
) -> Resolution {
    spec_sum_fields(decl.fields@, reg, bounds, decl.name@, Set::empty().insert(decl.name@), 8)
}

/// Appending a name to the path inserts its character sequence in the set.
proof fn lemma_name_set_push(names: Seq<String>, x: String)
    ensures
        spec_name_set(names.push(x)) =~= spec_name_set(names).insert(x@),
{
    let f = |s: String| s@;
    assert(names.push(x).map_values(f) =~= names.map_values(f) + seq![x@]);
    vstd::seq_lib::seq_to_set_distributes_over_add(names.map_values(f), seq![x@]);
    assert forall|a: Seq<char>| seq![x@].to_set().contains(a) <==> Set::empty().insert(
        x@,
    ).contains(a) by {
        if a == x@ {
            assert(seq![x@][0] == a);
            assert(seq![x@].contains(a));
        }
        if seq![x@].contains(a) {
            let i = choose|i: int| 0 <= i < seq![x@].len() && seq![x@][i] == a;
            assert(i == 0);
        }
    }
    assert(seq![x@].to_set() =~= Set::empty().insert(x@));
    assert(names.map_values(f).to_set().union(Set::empty().insert(x@)) =~= spec_name_set(
        names,
    ).insert(x@));
}

/// True when the path already carries `name`.
fn contains_name(visited: &Vec<String>, name: &String) -> (r: bool)
    ensures
        r == spec_name_set(visited@).contains(name@),
{
    let ghost mapped = visited@.map_values(|s: String| s@);
    let mut i: usize = 0;
    while i < visited.len()
        invariant
            0 <= i <= visited.len(),
            mapped == visited@.map_values(|s: String| s@),
            forall|j: int| 0 <= j < i ==> visited@[j]@ != name@,
        decreases visited.len() - i,
    {
        if str_eq(visited[i].as_str(), name.as_str()) {
            proof {
                assert(mapped[i as int] == name@);
                assert(mapped.contains(name@));
            }
            return true;
        }
        i = i + 1;
    }
    proof {
        assert forall|j: int| 0 <= j < mapped.len() implies mapped[j] != name@ by {
            assert(mapped[j] == visited@[j]@);
        }
        assert(!mapped.contains(name@));
    }
    false
}

/// Resolves one type expression on the path `visited`, which it leaves as it
/// found it.
fn resolve_rec(
    ty: &TypeExpr,
    reg: &Registry,
    bounds: &BoundProvider,
    owner: &String,
    field: &String,
    visited: &mut Vec<String>,
) -> (r: Result<u64, ResolveError>)
    ensures
        final(visited)@ == old(visited)@,
        outcome_matches(
            r,
            spec_resolve(*ty, reg@, *bounds, owner@, field@, spec_name_set(old(visited)@)),
        ),
    decreases spec_names(reg@).difference(spec_name_set(old(visited)@)).len(), type_height(*ty),
{
    match ty {
        TypeExpr::Unsupported => Ok(0),
        TypeExpr::Named { name, arg } => {
            if let Some(w) = primitive_size(name.as_str()) {
                return Ok(w);
            }
            match reg.lookup(name.as_str()) {
                Some(d) => {
                    if contains_name(visited, name) {
                        Err(ResolveError::CyclicType { name: name.clone() })
                    } else {
                        proof {
                            broadcast use vstd::seq_lib::seq_to_set_is_finite;

                            lemma_lookup_in_names(reg@, name@);
                            lemma_name_set_push(visited@, *name);
                            spec_names(reg@).lemma_set_insert_diff_decreases(
                                spec_name_set(visited@),
                                name@,
                            );
                        }
                        let ghost before = visited@;
                        visited.push(name.clone());
                        proof {
                            assert(spec_name_set(visited@) =~= spec_name_set(before).insert(
                                name@,
                            ));
                        }
                        let res = sum_fields_rec(&d.fields, reg, bounds, name, visited, 0);
                        let _ = visited.pop();
                        proof {
                            assert(visited@ =~= before);
                        }
                        res
                    }
                },
                None => {
                    if str_eq(name.as_str(), "String") {
                        match bounds.get_bound(owner.as_str(), field.as_str(), BoundKind::MaxLen) {
                            Some(l) => {
                                if l <= u64::MAX - 4 {
                                    Ok(4 + l)
                                } else {
                                    Err(ResolveError::SizeOverflow)
                                }
                            },
                            None => Err(
                                ResolveError::MissingBound {
                                    owner: owner.clone(),
                                    field: field.clone(),
                                    kind: BoundKind::MaxLen,
                                },
                            ),
                        }
                    } else if str_eq(name.as_str(), "Vec") {
                        match arg {
                            Some(inner) => {
                                match bounds.get_bound(
                                    owner.as_str(),
                                    field.as_str(),
                                    BoundKind::MaxItems,
                                ) {
                                    Some(n) => {
                                        match resolve_rec(inner, reg, bounds, owner, field, visited) {
                                            Ok(s) => match n.checked_mul(s) {
                                                Some(p) => {
                                                    if p <= u64::MAX - 4 {
                                                        Ok(4 + p)
                                                    } else {
                                                        Err(ResolveError::SizeOverflow)
                                                    }
                                                },
                                                None => Err(ResolveError::SizeOverflow),
                                            },
                                            Err(e) => Err(e),
                                        }
                                    },
                                    None => Err(
                                        ResolveError::MissingBound {
                                            owner: owner.clone(),
                                            field: field.clone(),
                                            kind: BoundKind::MaxItems,
                                        },
                                    ),
                                }
                            },
                            None => Ok(0),
                        }
                    } else if str_eq(name.as_str(), "Option") {
                        match arg {
                            Some(inner) => {
                                match resolve_rec(inner, reg, bounds, owner, field, visited) {
                                    Ok(s) => {
                                        if s <= u64::MAX - 1 {
                                            Ok(1 + s)
                                        } else {
                                            Err(ResolveError::SizeOverflow)
                                        }
                                    },
                                    Err(e) => Err(e),
                                }
                            },
                            None => Ok(0),
                        }
                    } else {
                        Ok(0)
                    }
                },
            }
        },
    }
}

/// Sums `start` plus the resolved sizes of `fields`, in order, on the path
/// `visited`, which it leaves as it found it.
fn sum_fields_rec(
    fields: &Vec<FieldDecl>,
    reg: &Registry,
    bounds: &BoundProvider,
    owner: &String,
    visited: &mut Vec<String>,
    start: u64,
) -> (r: Result<u64, ResolveError>)
    ensures
        final(visited)@ == old(visited)@,
        outcome_matches(
            r,
            spec_sum_fields(
                fields@,
                reg@,
                *bounds,
                owner@,
                spec_name_set(old(visited)@),
                start as int,
            ),
        ),
    decreases spec_names(reg@).difference(spec_name_set(old(visited)@)).len(), fields_height(
        fields@,
    ),
{
    let mut acc: u64 = start;
    let mut i: usize = 0;
    proof {
        assert(fields@.skip(0) =~= fields@);
    }
    while i < fields.len()
        invariant
            0 <= i <= fields.len(),
            visited@ == old(visited)@,
            spec_sum_fields(
                fields@,
                reg@,
                *bounds,
                owner@,
                spec_name_set(old(visited)@),
                start as int,
            ) == spec_sum_fields(
                fields@.skip(i as int),
                reg@,
                *bounds,
                owner@,
                spec_name_set(old(visited)@),
                acc as int,
            ),
        decreases fields.len() - i,
    {
        proof {
            assert(fields@.skip(i as int)[0] == fields@[i as int]);
            assert(fields@.skip(i as int).drop_first() =~= fields@.skip(i as int + 1));
            lemma_fields_height_at(fields@, i as int);
        }
        match resolve_rec(&fields[i].ty, reg, bounds, owner, &fields[i].name, visited) {
            Ok(s) => match acc.checked_add(s) {
                Some(a2) => {
                    acc = a2;
                },
                None => {
                    return Err(ResolveError::SizeOverflow);
                },
            },
            Err(e) => {
                return Err(e);
            },
        }
        i = i + 1;
    }
    proof {
        assert(fields@.skip(fields@.len() as int) =~= Seq::<FieldDecl>::empty());
    }
    Ok(acc)
}

/// Resolves one type expression to its byte size; `owner` and `field` name
/// the resolution context under which bound queries are answered.
pub fn resolve(
    ty: &TypeExpr,
    reg: &Registry,
    bounds: &BoundProvider,
    owner: &str,
    field: &str,
) -> (r: Result<u64, ResolveError>)
    ensures
        outcome_matches(r, spec_resolve_field(*ty, reg@, *bounds, owner@, field@)),
{
    let owner_s: String = owner.to_owned();
    let field_s: String = field.to_owned();
    let mut visited: Vec<String> = Vec::new();
    proof {
        assert(spec_name_set(visited@) =~= Set::<Seq<char>>::empty());
    }
    resolve_rec(ty, reg, bounds, &owner_s, &field_s, &mut visited)
}

/// The summed size of a declaration's fields, without the record prefix.
pub fn size_of_struct(decl: &StructDecl, reg: &Registry, bounds: &BoundProvider) -> (r: Result<
    u64,
    ResolveError,
>)
    ensures
        outcome_matches(r, spec_struct_size(*decl, reg@, *bounds)),
{
    let mut visited: Vec<String> = Vec::new();
    let ghost empty = visited@;
    visited.push(decl.name.clone());
    proof {
        lemma_name_set_push(empty, decl.name);
        assert(spec_name_set(empty) =~= Set::<Seq<char>>::empty());
    }
    sum_fields_rec(&decl.fields, reg, bounds, &decl.name, &mut visited, 0)
}

/// The size of a persisted record: an eight-byte discriminator prefix plus
/// the summed size of the declaration's fields.
pub fn account_size(decl: &StructDecl, reg: &Registry, bounds: &BoundProvider) -> (r: Result<
    u64,
    ResolveError,
>)
    ensures
        outcome_matches(r, spec_account_size(*decl, reg@, *bounds)),
{
    let mut visited: Vec<String> = Vec::new();
    let ghost empty = visited@;
    visited.push(decl.name.clone());
    proof {
        lemma_name_set_push(empty, decl.name);
        assert(spec_name_set(empty) =~= Set::<Seq<char>>::empty());
    }
    sum_fields_rec(&decl.fields, reg, bounds, &decl.name, &mut visited, 8)
}

} // verus!
