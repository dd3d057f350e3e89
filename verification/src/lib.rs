//! Byte-size analysis for persisted record declarations.
//!
//! Given a set of struct declarations (already parsed into plain data), the
//! library resolves every field's type to a concrete byte size: primitives by
//! a fixed table, nested structs by recursive summation with cycle detection,
//! and dynamically sized types (strings, lists, optionals) against
//! externally supplied bounds.

use vstd::prelude::*;

pub mod bounds;
pub mod decl;
pub mod laws;
pub mod registry;
pub mod resolve;
pub mod size;

pub use laws::lemma_account_size_additive;
pub use laws::lemma_cycle_detected;
pub use laws::lemma_option_size;
pub use laws::lemma_primitive_width;
pub use laws::lemma_resolution_deterministic;
pub use laws::lemma_self_referential_fails;
pub use laws::lemma_string_size;
pub use laws::lemma_total_fields_concat;
pub use laws::lemma_total_fields_order_independent;
pub use laws::lemma_unknown_resolves_to_zero;
pub use laws::lemma_vec_size;

pub use resolve::Resolution;
pub use resolve::ResolveError;
pub use resolve::account_size;
pub use resolve::outcome_matches;
pub use resolve::resolve;
pub use resolve::size_of_struct;
pub use resolve::spec_account_size;
pub use resolve::spec_resolve;
pub use resolve::spec_resolve_field;
pub use resolve::spec_struct_size;
pub use resolve::spec_sum_fields;

pub use bounds::BoundEntry;
pub use bounds::BoundKind;
pub use bounds::BoundProvider;

pub use decl::FieldDecl;
pub use decl::StructDecl;
pub use decl::TypeExpr;
pub use decl::extract_fields;
pub use decl::find_account_structs;
pub use decl::find_marked_structs;
pub use registry::Registry;
pub use registry::collect_all_structs;
pub use size::size_of_type;
pub use size::spec_primitive_size;

verus! {

/// Round `n` up to the next multiple of eight, the allocation granularity of
/// the target storage unit.
pub open spec fn spec_round_up_to_eight(n: int) -> int {
    ((n + 7) / 8) * 8
}

/// Rounds a byte count up to the next multiple of eight.
pub fn round_up_to_eight(n: u64) -> (r: Option<u64>)
    ensures
        r is Some <==> spec_round_up_to_eight(n as int) <= u64::MAX,
        r is Some ==> r->0 == spec_round_up_to_eight(n as int),
{
    let wide: u128 = ((n as u128) + 7) / 8 * 8;
    if wide <= u64::MAX as u128 {
        Some(wide as u64)
    } else {
        None
    }
}

/// The recommended allocation for an exact record size: fifteen percent of
/// headroom, rounded up to a whole byte and then up to the next multiple of
/// eight.
pub open spec fn spec_recommended_size(exact: int) -> int {
    spec_round_up_to_eight((exact * 115 + 99) / 100)
}

/// The recommended allocation for a record of `exact` bytes, or nothing when
/// even that allocation would not fit the size type.
pub fn recommended_size(exact: u64) -> (r: Option<u64>)
    ensures
        r is Some <==> spec_recommended_size(exact as int) <= u64::MAX,
        r is Some ==> r->0 == spec_recommended_size(exact as int),
{
    let scaled: u128 = ((exact as u128) * 115 + 99) / 100;
    let rounded: u128 = (scaled + 7) / 8 * 8;
    if rounded <= u64::MAX as u128 {
        Some(rounded as u64)
    } else {
        None
    }
}

} // verus!
