//! Laws of the resolution engine, stated and proved once for all inputs.

use vstd::prelude::*;

use crate::bounds::BoundKind;
use crate::bounds::BoundProvider;
use crate::bounds::spec_get_bound;
use crate::decl::FieldDecl;
use crate::decl::StructDecl;
use crate::decl::TypeExpr;
use crate::registry::lemma_lookup_in_names;
use crate::registry::spec_lookup;
use crate::registry::spec_names;
use crate::resolve::Resolution;
use crate::resolve::ResolveError;
use crate::resolve::fields_height;
use crate::resolve::lemma_fields_height_at;
use crate::resolve::outcome_matches;
use crate::resolve::spec_account_size;
use crate::resolve::spec_resolve;
use crate::resolve::spec_sum_fields;
use crate::resolve::type_height;
use crate::size::spec_primitive_size;

verus! {

/// The names of the dynamically sized families are not primitive names.
proof fn lemma_family_names_not_primitive()
    ensures
        spec_primitive_size("String"@) is None,
        spec_primitive_size("Vec"@) is None,
        spec_primitive_size("Option"@) is None,
        "String"@ != "Vec"@,
        "String"@ != "Option"@,
        "Vec"@ != "Option"@,
{
    reveal_strlit("String");
    reveal_strlit("Vec");
    reveal_strlit("Option");
    reveal_strlit("u8");
    reveal_strlit("i8");
    reveal_strlit("bool");
    reveal_strlit("u16");
    reveal_strlit("i16");
    reveal_strlit("u32");
    reveal_strlit("i32");
    reveal_strlit("u64");
    reveal_strlit("i64");
    reveal_strlit("Pubkey");
    assert("String"@[0] == 'S');
    assert("Vec"@[0] == 'V');
    assert("Option"@[0] == 'O');
    assert("Pubkey"@[0] == 'P');
    assert("u16"@[0] == 'u');
    assert("i16"@[0] == 'i');
    assert("u32"@[0] == 'u');
    assert("i32"@[0] == 'i');
    assert("u64"@[0] == 'u');
    assert("i64"@[0] == 'i');
}

/// A primitive type name resolves to exactly its table width, whatever the
/// registry, the bounds, the context and the path.
pub proof fn lemma_primitive_width(
    name: String,
    arg: Option<Box<TypeExpr>>,
    reg: Seq<StructDecl>,
    bounds: BoundProvider,
    owner: Seq<char>,
    field: Seq<char>,
    visited: Set<Seq<char>>,
)
    requires
        spec_primitive_size(name@) is Some,
    ensures
        spec_resolve(TypeExpr::Named { name, arg }, reg, bounds, owner, field, visited)
            == Resolution::Size(spec_primitive_size(name@)->0 as int),
{
}

/// An optional type is one presence byte plus its inner type: whenever the
/// inner type resolves to a size that leaves room for that byte, and no
/// registry struct shadows the family name, the optional resolves to one
/// more.
pub proof fn lemma_option_size(
    name: String,
    inner: Box<TypeExpr>,
    sz: int,
    reg: Seq<StructDecl>,
    bounds: BoundProvider,
    owner: Seq<char>,
    field: Seq<char>,
    visited: Set<Seq<char>>,
)
    requires
        name@ == "Option"@,
        spec_lookup(reg, name@) is None,
        spec_resolve(*inner, reg, bounds, owner, field, visited) == Resolution::Size(sz),
        1 + sz <= u64::MAX,
    ensures
        spec_resolve(
            TypeExpr::Named { name, arg: Some(inner) },
            reg,
            bounds,
            owner,
            field,
            visited,
        ) == Resolution::Size(1 + sz),
{
    lemma_family_names_not_primitive();
}

/// A growable list is a four-byte length prefix plus its bounded element
/// count times the element size, whenever the bound is answered, the element
/// type resolves, the total fits, and no registry struct shadows the family
/// name.
pub proof fn lemma_vec_size(
    name: String,
    inner: Box<TypeExpr>,
    items: u64,
    sz: int,
    reg: Seq<StructDecl>,
    bounds: BoundProvider,
    owner: Seq<char>,
    field: Seq<char>,
    visited: Set<Seq<char>>,
)
    requires
        name@ == "Vec"@,
        spec_lookup(reg, name@) is None,
        spec_get_bound(bounds, owner, field, BoundKind::MaxItems) == Some(items),
        spec_resolve(*inner, reg, bounds, owner, field, visited) == Resolution::Size(sz),
        4 + items * sz <= u64::MAX,
    ensures
        spec_resolve(
            TypeExpr::Named { name, arg: Some(inner) },
            reg,
            bounds,
            owner,
            field,
            visited,
        ) == Resolution::Size(4 + items * sz),
{
    lemma_family_names_not_primitive();
}

/// A variable-length string is a four-byte length prefix plus its bounded
/// character count, whenever the bound is answered, the total fits, and no
/// registry struct shadows the family name.
pub proof fn lemma_string_size(
    name: String,
    arg: Option<Box<TypeExpr>>,
    len: u64,
    reg: Seq<StructDecl>,
    bounds: BoundProvider,
    owner: Seq<char>,
    field: Seq<char>,
    visited: Set<Seq<char>>,
)
    requires
        name@ == "String"@,
        spec_lookup(reg, name@) is None,
        spec_get_bound(bounds, owner, field, BoundKind::MaxLen) == Some(len),
        4 + len <= u64::MAX,
    ensures
        spec_resolve(TypeExpr::Named { name, arg }, reg, bounds, owner, field, visited)
            == Resolution::Size(4 + len),
{
    lemma_family_names_not_primitive();
}

/// An unknown identifier, a recognized family without its argument, and an
/// unsupported shape all resolve to size zero, never to a failure.
pub proof fn lemma_unknown_resolves_to_zero(
    ty: TypeExpr,
    reg: Seq<StructDecl>,
    bounds: BoundProvider,
    owner: Seq<char>,
    field: Seq<char>,
    visited: Set<Seq<char>>,
)
    requires
        match ty {
            TypeExpr::Unsupported => true,
            TypeExpr::Named { name, arg } => spec_primitive_size(name@) is None && spec_lookup(
                reg,
                name@,
            ) is None && name@ != "String"@ && ((name@ == "Vec"@ || name@ == "Option"@)
                ==> arg is None),
        },
    ensures
        spec_resolve(ty, reg, bounds, owner, field, visited) == Resolution::Size(0),
{
}

/// A resolved size never leaves the size type's range.
pub open spec fn spec_size_within(m: Resolution, lo: int) -> bool {
    match m {
        Resolution::Size(s) => lo <= s <= u64::MAX,
        _ => true,
    }
}

/// Whatever resolves to a size resolves to one between zero and the size
/// type's maximum.
pub proof fn lemma_resolve_size_bounds(
    ty: TypeExpr,
    reg: Seq<StructDecl>,
    bounds: BoundProvider,
    owner: Seq<char>,
    field: Seq<char>,
    visited: Set<Seq<char>>,
)
    ensures
        spec_size_within(spec_resolve(ty, reg, bounds, owner, field, visited), 0),
    decreases spec_names(reg).difference(visited).len(), type_height(ty),
{
    match ty {
        TypeExpr::Unsupported => {
        },
        TypeExpr::Named { name, arg } => {
            if spec_primitive_size(name@) is Some {
            } else {
                match spec_lookup(reg, name@) {
                    Some(d) => {
                        if !visited.contains(name@) {
                            broadcast use vstd::seq_lib::seq_to_set_is_finite;

                            lemma_lookup_in_names(reg, name@);
                            spec_names(reg).lemma_set_insert_diff_decreases(visited, name@);
                            lemma_sum_size_bounds(
                                d.fields@,
                                reg,
                                bounds,
                                name@,
                                visited.insert(name@),
                                0,
                            );
                        }
                    },
                    None => {
                        if name@ == "Vec"@ {
                            match arg {
                                Some(inner) => {
                                    match spec_get_bound(bounds, owner, field, BoundKind::MaxItems) {
                                        Some(n) => {
                                            lemma_resolve_size_bounds(
                                                *inner,
                                                reg,
                                                bounds,
                                                owner,
                                                field,
                                                visited,
                                            );
                                            match spec_resolve(
                                                *inner,
                                                reg,
                                                bounds,
                                                owner,
                                                field,
                                                visited,
                                            ) {
                                                Resolution::Size(s) => {
                                                    assert(n * s >= 0) by (nonlinear_arith)
                                                        requires
                                                            n >= 0,
                                                            s >= 0,
                                                    ;
                                                },
                                                _ => {
                                                },
                                            }
                                        },
                                        None => {
                                        },
                                    }
                                },
                                None => {
                                },
                            }
                        } else if name@ == "Option"@ {
                            match arg {
                                Some(inner) => {
                                    lemma_resolve_size_bounds(
                                        *inner,
                                        reg,
                                        bounds,
                                        owner,
                                        field,
                                        visited,
                                    );
                                },
                                None => {
                                },
                            }
                        }
                    },
                }
            }
        },
    }
}

/// A field summation that yields a size yields one at least its starting
/// accumulator and at most the size type's maximum.
pub proof fn lemma_sum_size_bounds(
    fields: Seq<FieldDecl>,
    reg: Seq<StructDecl>,
    bounds: BoundProvider,
    owner: Seq<char>,
    visited: Set<Seq<char>>,
    acc: int,
)
    requires
        0 <= acc <= u64::MAX,
    ensures
        spec_size_within(spec_sum_fields(fields, reg, bounds, owner, visited, acc), acc),
    decreases spec_names(reg).difference(visited).len(), fields_height(fields),
{
    if fields.len() > 0 {
        lemma_fields_height_at(fields, 0);
        lemma_resolve_size_bounds(fields[0].ty, reg, bounds, owner, fields[0].name@, visited);
        match spec_resolve(fields[0].ty, reg, bounds, owner, fields[0].name@, visited) {
            Resolution::Size(s) => {
                if acc + s <= u64::MAX {
                    lemma_sum_size_bounds(
                        fields.drop_first(),
                        reg,
                        bounds,
                        owner,
                        visited,
                        acc + s,
                    );
                }
            },
            _ => {
            },
        }
    }
}

/// True when the resolution yielded a size.
pub open spec fn spec_is_size(m: Resolution) -> bool {
    m matches Resolution::Size(_)
}

/// True when every field of the list resolves to a size on the given path.
pub open spec fn spec_all_fields_sized(
    fields: Seq<FieldDecl>,
    reg: Seq<StructDecl>,
    bounds: BoundProvider,
    owner: Seq<char>,
    visited: Set<Seq<char>>,
) -> bool {
    forall|i: int|
        0 <= i < fields.len() ==> spec_is_size(
            #[trigger] spec_resolve(fields[i].ty, reg, bounds, owner, fields[i].name@, visited),
        )
}

/// The plain sum of the fields' resolved sizes, counting zero for a field
/// that does not resolve to a size.
pub open spec fn spec_total_fields_size(
    fields: Seq<FieldDecl>,
    reg: Seq<StructDecl>,
    bounds: BoundProvider,
    owner: Seq<char>,
    visited: Set<Seq<char>>,
) -> int
    decreases fields.len(),
{
    if fields.len() == 0 {
        0
    } else {
        (match spec_resolve(fields[0].ty, reg, bounds, owner, fields[0].name@, visited) {
            Resolution::Size(s) => s,
            _ => 0,
        }) + spec_total_fields_size(fields.drop_first(), reg, bounds, owner, visited)
    }
}

/// The plain sum of resolved field sizes is never negative.
pub proof fn lemma_total_fields_nonneg(
    fields: Seq<FieldDecl>,
    reg: Seq<StructDecl>,
    bounds: BoundProvider,
    owner: Seq<char>,
    visited: Set<Seq<char>>,
)
    ensures
        spec_total_fields_size(fields, reg, bounds, owner, visited) >= 0,
    decreases fields.len(),
{
    if fields.len() > 0 {
        lemma_resolve_size_bounds(fields[0].ty, reg, bounds, owner, fields[0].name@, visited);
        lemma_total_fields_nonneg(fields.drop_first(), reg, bounds, owner, visited);
    }
}

/// The plain sum of resolved field sizes splits over concatenation.
pub proof fn lemma_total_fields_concat(
    a: Seq<FieldDecl>,
    b: Seq<FieldDecl>,
    reg: Seq<StructDecl>,
    bounds: BoundProvider,
    owner: Seq<char>,
    visited: Set<Seq<char>>,
)
    ensures
        spec_total_fields_size(a + b, reg, bounds, owner, visited) == spec_total_fields_size(
            a,
            reg,
            bounds,
            owner,
            visited,
        ) + spec_total_fields_size(b, reg, bounds, owner, visited),
    decreases a.len(),
{
    if a.len() == 0 {
        assert(a + b =~= b);
    } else {
        assert((a + b)[0] == a[0]);
        assert((a + b).drop_first() =~= a.drop_first() + b);
        lemma_total_fields_concat(a.drop_first(), b, reg, bounds, owner, visited);
    }
}

/// The plain sum of resolved field sizes does not depend on the order of the
/// blocks summed: the total is order-independent, while the summation itself
/// still walks fields in declaration order.
pub proof fn lemma_total_fields_order_independent(
    a: Seq<FieldDecl>,
    b: Seq<FieldDecl>,
    reg: Seq<StructDecl>,
    bounds: BoundProvider,
    owner: Seq<char>,
    visited: Set<Seq<char>>,
)
    ensures
        spec_total_fields_size(a + b, reg, bounds, owner, visited) == spec_total_fields_size(
            b + a,
            reg,
            bounds,
            owner,
            visited,
        ),
{
    lemma_total_fields_concat(a, b, reg, bounds, owner, visited);
    lemma_total_fields_concat(b, a, reg, bounds, owner, visited);
}

/// Field summation is additive: when every field resolves to a size and the
/// whole sum fits, the summation yields the accumulator plus the plain sum
/// of the field sizes.
pub proof fn lemma_sum_fields_additive(
    fields: Seq<FieldDecl>,
    reg: Seq<StructDecl>,
    bounds: BoundProvider,
    owner: Seq<char>,
    visited: Set<Seq<char>>,
    acc: int,
)
    requires
        spec_all_fields_sized(fields, reg, bounds, owner, visited),
        0 <= acc,
        acc + spec_total_fields_size(fields, reg, bounds, owner, visited) <= u64::MAX,
    ensures
        spec_sum_fields(fields, reg, bounds, owner, visited, acc) == Resolution::Size(
            acc + spec_total_fields_size(fields, reg, bounds, owner, visited),
        ),
    decreases fields.len(),
{
    if fields.len() > 0 {
        assert(spec_is_size(spec_resolve(fields[0].ty, reg, bounds, owner, fields[0].name@, visited)));
        lemma_resolve_size_bounds(fields[0].ty, reg, bounds, owner, fields[0].name@, visited);
        lemma_total_fields_nonneg(fields.drop_first(), reg, bounds, owner, visited);
        match spec_resolve(fields[0].ty, reg, bounds, owner, fields[0].name@, visited) {
            Resolution::Size(s) => {
                assert forall|i: int| 0 <= i < fields.drop_first().len() implies spec_is_size(
                    #[trigger] spec_resolve(
                        fields.drop_first()[i].ty,
                        reg,
                        bounds,
                        owner,
                        fields.drop_first()[i].name@,
                        visited,
                    ),
                ) by {
                    assert(fields.drop_first()[i] == fields[i + 1]);
                }
                lemma_sum_fields_additive(
                    fields.drop_first(),
                    reg,
                    bounds,
                    owner,
                    visited,
                    acc + s,
                );
            },
            _ => {
            },
        }
    }
}

/// A record's size is additive over its fields: the eight-byte prefix plus
/// the plain sum of the fields' resolved sizes, whenever every field
/// resolves to a size and the whole fits the size type.
pub proof fn lemma_account_size_additive(
    decl: StructDecl,
    reg: Seq<StructDecl>,
    bounds: BoundProvider,
)
    requires
        spec_all_fields_sized(
            decl.fields@,
            reg,
            bounds,
            decl.name@,
            Set::empty().insert(decl.name@),
        ),
        8 + spec_total_fields_size(
            decl.fields@,
            reg,
            bounds,
            decl.name@,
            Set::empty().insert(decl.name@),
        ) <= u64::MAX,
    ensures
        spec_account_size(decl, reg, bounds) == Resolution::Size(
            8 + spec_total_fields_size(
                decl.fields@,
                reg,
                bounds,
                decl.name@,
                Set::empty().insert(decl.name@),
            ),
        ),
{
    lemma_sum_fields_additive(
        decl.fields@,
        reg,
        bounds,
        decl.name@,
        Set::empty().insert(decl.name@),
        8,
    );
}

/// True when resolving `ty` must walk into the registry struct named
/// `target`: the walk passes only through optional layers and through list
/// layers whose element-count bound is answered, never through a primitive,
/// another registry struct, or an unanswered bound.
pub open spec fn spec_chains_to(
    ty: TypeExpr,
    reg: Seq<StructDecl>,
    bounds: BoundProvider,
    owner: Seq<char>,
    field: Seq<char>,
    target: Seq<char>,
) -> bool
    decreases ty,
{
    match ty {
        TypeExpr::Named { name, arg } => {
            if spec_primitive_size(name@) is Some {
                false
            } else if name@ == target {
                spec_lookup(reg, target) is Some
            } else if spec_lookup(reg, name@) is Some {
                false
            } else if name@ == "Option"@ {
                match arg {
                    Some(inner) => spec_chains_to(*inner, reg, bounds, owner, field, target),
                    None => false,
                }
            } else if name@ == "Vec"@ {
                match arg {
                    Some(inner) => spec_get_bound(bounds, owner, field, BoundKind::MaxItems)
                        is Some && spec_chains_to(*inner, reg, bounds, owner, field, target),
                    None => false,
                }
            } else {
                false
            }
        },
        TypeExpr::Unsupported => false,
    }
}

/// A type that walks into a struct already on the path resolves to exactly
/// a cyclic-reference failure carrying that struct's identifier — never to a
/// size and never to unbounded recursion.
pub proof fn lemma_cycle_detected(
    ty: TypeExpr,
    reg: Seq<StructDecl>,
    bounds: BoundProvider,
    owner: Seq<char>,
    field: Seq<char>,
    visited: Set<Seq<char>>,
    target: Seq<char>,
)
    requires
        spec_chains_to(ty, reg, bounds, owner, field, target),
        visited.contains(target),
    ensures
        spec_resolve(ty, reg, bounds, owner, field, visited) == Resolution::Cyclic(target),
    decreases type_height(ty),
{
    lemma_family_names_not_primitive();
    match ty {
        TypeExpr::Named { name, arg } => {
            if name@ == target {
            } else {
                match arg {
                    Some(inner) => {
                        lemma_cycle_detected(*inner, reg, bounds, owner, field, visited, target);
                    },
                    None => {
                    },
                }
            }
        },
        TypeExpr::Unsupported => {
        },
    }
}

/// A summation over fields of which one does not resolve to a size never
/// yields a size.
pub proof fn lemma_sum_fields_error(
    fields: Seq<FieldDecl>,
    reg: Seq<StructDecl>,
    bounds: BoundProvider,
    owner: Seq<char>,
    visited: Set<Seq<char>>,
    acc: int,
    i: int,
)
    requires
        0 <= i < fields.len(),
        !(spec_resolve(fields[i].ty, reg, bounds, owner, fields[i].name@, visited)
            matches Resolution::Size(_)),
    ensures
        !(spec_sum_fields(fields, reg, bounds, owner, visited, acc) matches Resolution::Size(_)),
    decreases i,
{
    if i > 0 {
        match spec_resolve(fields[0].ty, reg, bounds, owner, fields[0].name@, visited) {
            Resolution::Size(s) => {
                if acc + s <= u64::MAX {
                    assert(fields.drop_first()[i - 1] == fields[i]);
                    lemma_sum_fields_error(
                        fields.drop_first(),
                        reg,
                        bounds,
                        owner,
                        visited,
                        acc + s,
                        i - 1,
                    );
                }
            },
            _ => {
            },
        }
    }
}

/// A self-referential record — one of whose fields walks back into the
/// record's own declaration — never sizes to a number: its resolution fails
/// cleanly.
pub proof fn lemma_self_referential_fails(
    decl: StructDecl,
    reg: Seq<StructDecl>,
    bounds: BoundProvider,
    i: int,
)
    requires
        0 <= i < decl.fields@.len(),
        spec_chains_to(
            decl.fields@[i].ty,
            reg,
            bounds,
            decl.name@,
            decl.fields@[i].name@,
            decl.name@,
        ),
    ensures
        !(spec_account_size(decl, reg, bounds) matches Resolution::Size(_)),
{
    let visited = Set::empty().insert(decl.name@);
    lemma_cycle_detected(
        decl.fields@[i].ty,
        reg,
        bounds,
        decl.name@,
        decl.fields@[i].name@,
        visited,
        decl.name@,
    );
    lemma_sum_fields_error(decl.fields@, reg, bounds, decl.name@, visited, 8, i);
}

/// Resolution is deterministic: two outcomes rendering the same abstract
/// resolution agree — equal sizes, or failures of the same kind carrying the
/// same names.
pub proof fn lemma_resolution_deterministic(
    r1: Result<u64, ResolveError>,
    r2: Result<u64, ResolveError>,
    m: Resolution,
)
    requires
        outcome_matches(r1, m),
        outcome_matches(r2, m),
    ensures
        r1 is Ok <==> r2 is Ok,
        r1 is Ok ==> r1 == r2,
{
}

} // verus!
