use anchor_size_core::BoundEntry;
use anchor_size_core::BoundKind;
use anchor_size_core::BoundProvider;
use anchor_size_core::FieldDecl;
use anchor_size_core::Registry;
use anchor_size_core::ResolveError;
use anchor_size_core::StructDecl;
use anchor_size_core::TypeExpr;
use anchor_size_core::account_size;
use anchor_size_core::collect_all_structs;
use anchor_size_core::recommended_size;
use anchor_size_core::resolve;
use anchor_size_core::size_of_struct;

fn named(name: &str) -> TypeExpr {
    TypeExpr::Named { name: name.to_string(), arg: None }
}

fn generic(name: &str, inner: TypeExpr) -> TypeExpr {
    TypeExpr::Named { name: name.to_string(), arg: Some(Box::new(inner)) }
}

fn field(name: &str, ty: TypeExpr) -> FieldDecl {
    FieldDecl { name: name.to_string(), ty }
}

fn decl(name: &str, attrs: &[&str], fields: Vec<FieldDecl>) -> StructDecl {
    StructDecl {
        name: name.to_string(),
        attrs: attrs.iter().map(|a| a.to_string()).collect(),
        fields,
    }
}

fn empty_registry() -> Registry {
    collect_all_structs(Vec::new())
}

fn bound(owner: &str, field: &str, kind: BoundKind, value: u64) -> BoundEntry {
    BoundEntry { owner: owner.to_string(), field: field.to_string(), kind, value }
}

#[test]
fn primitive_widths() {
    let reg = empty_registry();
    let b = BoundProvider::new();
    let cases: Vec<(&str, u64)> = vec![
        ("bool", 1),
        ("u8", 1),
        ("i8", 1),
        ("u16", 2),
        ("i16", 2),
        ("u32", 4),
        ("i32", 4),
        ("u64", 8),
        ("i64", 8),
        ("Pubkey", 32),
    ];
    for (name, width) in cases {
        assert_eq!(resolve(&named(name), &reg, &b, "S", "f"), Ok(width));
    }
}

#[test]
fn primitive_widths_ignore_registry() {
    // A registry declaration cannot shadow a primitive name.
    let reg = collect_all_structs(vec![decl("u64", &[], vec![field("x", named("u8"))])]);
    let b = BoundProvider::new();
    assert_eq!(resolve(&named("u64"), &reg, &b, "S", "f"), Ok(8));
}

#[test]
fn option_adds_one_presence_byte() {
    let reg = empty_registry();
    let b = BoundProvider::new();
    assert_eq!(resolve(&generic("Option", named("u64")), &reg, &b, "S", "f"), Ok(9));
    assert_eq!(resolve(&generic("Option", named("Pubkey")), &reg, &b, "S", "f"), Ok(33));
}

#[test]
fn option_of_nested_dynamic_type() {
    let reg = empty_registry();
    let mut b = BoundProvider::new();
    b.add(bound("S", "f", BoundKind::MaxItems, 10));
    // Option<Vec<u8>>: 1 + (4 + 10 * 1)
    assert_eq!(
        resolve(&generic("Option", generic("Vec", named("u8"))), &reg, &b, "S", "f"),
        Ok(15)
    );
}

#[test]
fn vec_is_prefix_plus_items_times_inner() {
    let reg = empty_registry();
    let mut b = BoundProvider::new();
    b.add(bound("S", "f", BoundKind::MaxItems, 5));
    assert_eq!(resolve(&generic("Vec", named("u8")), &reg, &b, "S", "f"), Ok(9));
    assert_eq!(resolve(&generic("Vec", named("u64")), &reg, &b, "S", "f"), Ok(44));
}

#[test]
fn string_is_prefix_plus_max_length() {
    let reg = empty_registry();
    let mut b = BoundProvider::new();
    b.add(bound("S", "f", BoundKind::MaxLen, 32));
    assert_eq!(resolve(&named("String"), &reg, &b, "S", "f"), Ok(36));
}

#[test]
fn vec_of_string_uses_both_bounds() {
    let reg = empty_registry();
    let mut b = BoundProvider::new();
    b.add(bound("S", "f", BoundKind::MaxItems, 3));
    b.add(bound("S", "f", BoundKind::MaxLen, 8));
    // 4 + 3 * (4 + 8)
    assert_eq!(resolve(&generic("Vec", named("String")), &reg, &b, "S", "f"), Ok(40));
}

#[test]
fn earlier_bound_entries_take_precedence() {
    let reg = empty_registry();
    let mut b = BoundProvider::new();
    b.add(bound("S", "f", BoundKind::MaxLen, 10));
    b.add(bound("S", "f", BoundKind::MaxLen, 99));
    assert_eq!(resolve(&named("String"), &reg, &b, "S", "f"), Ok(14));
}

#[test]
fn table_entry_beats_the_default() {
    let reg = empty_registry();
    let mut b = BoundProvider::with_default(100);
    b.add(bound("S", "f", BoundKind::MaxLen, 10));
    assert_eq!(resolve(&named("String"), &reg, &b, "S", "f"), Ok(14));
    // Another field still falls back to the default.
    assert_eq!(resolve(&named("String"), &reg, &b, "S", "g"), Ok(104));
}

#[test]
fn default_bound_answers_missing_entries() {
    let reg = empty_registry();
    let b = BoundProvider::with_default(16);
    assert_eq!(resolve(&named("String"), &reg, &b, "S", "f"), Ok(20));
}

#[test]
fn missing_bound_fails_the_field() {
    let reg = empty_registry();
    let b = BoundProvider::new();
    assert_eq!(
        resolve(&named("String"), &reg, &b, "User", "name"),
        Err(ResolveError::MissingBound {
            owner: "User".to_string(),
            field: "name".to_string(),
            kind: BoundKind::MaxLen,
        })
    );
    assert_eq!(
        resolve(&generic("Vec", named("u8")), &reg, &b, "User", "tags"),
        Err(ResolveError::MissingBound {
            owner: "User".to_string(),
            field: "tags".to_string(),
            kind: BoundKind::MaxItems,
        })
    );
}

#[test]
fn oversized_type_fails_the_field() {
    let reg = empty_registry();
    let mut b = BoundProvider::new();
    b.add(bound("S", "f", BoundKind::MaxItems, u64::MAX));
    assert_eq!(
        resolve(&generic("Vec", named("u64")), &reg, &b, "S", "f"),
        Err(ResolveError::SizeOverflow)
    );
    let big = BoundProvider::with_default(u64::MAX - 1);
    assert_eq!(
        resolve(&named("String"), &reg, &big, "S", "f"),
        Err(ResolveError::SizeOverflow)
    );
}

#[test]
fn unknown_types_resolve_to_zero() {
    let reg = empty_registry();
    let b = BoundProvider::new();
    assert_eq!(resolve(&TypeExpr::Unsupported, &reg, &b, "S", "f"), Ok(0));
    assert_eq!(resolve(&named("Missing"), &reg, &b, "S", "f"), Ok(0));
    assert_eq!(resolve(&generic("HashMap", named("u8")), &reg, &b, "S", "f"), Ok(0));
    // A recognized family without its argument is also unresolved.
    assert_eq!(resolve(&named("Vec"), &reg, &b, "S", "f"), Ok(0));
    assert_eq!(resolve(&named("Option"), &reg, &b, "S", "f"), Ok(0));
}

#[test]
fn nested_struct_sums_its_fields() {
    let reg = collect_all_structs(vec![decl(
        "UserStats",
        &[],
        vec![field("level", named("u8")), field("xp", named("u64"))],
    )]);
    let b = BoundProvider::new();
    assert_eq!(resolve(&named("UserStats"), &reg, &b, "S", "f"), Ok(9));
    // 4 + 3 * 9
    let mut with_items = BoundProvider::new();
    with_items.add(bound("S", "f", BoundKind::MaxItems, 3));
    assert_eq!(
        resolve(&generic("Vec", named("UserStats")), &reg, &with_items, "S", "f"),
        Ok(31)
    );
}

#[test]
fn registry_struct_shadows_dynamic_family() {
    // A declared struct named String takes priority over the built-in
    // dynamic handling.
    let reg = collect_all_structs(vec![decl("String", &[], vec![field("x", named("u8"))])]);
    let b = BoundProvider::new();
    assert_eq!(resolve(&named("String"), &reg, &b, "S", "f"), Ok(1));
}

#[test]
fn duplicate_declaration_last_wins() {
    let reg = collect_all_structs(vec![
        decl("Point", &[], vec![field("x", named("u8"))]),
        decl("Point", &[], vec![field("x", named("u64")), field("y", named("u64"))]),
    ]);
    let b = BoundProvider::new();
    assert_eq!(resolve(&named("Point"), &reg, &b, "S", "f"), Ok(16));
}

#[test]
fn user_profile_scenario() {
    let reg = collect_all_structs(vec![
        decl(
            "UserProfile",
            &["account"],
            vec![
                field("authority", named("Pubkey")),
                field("stats", named("UserStats")),
                field("name", named("String")),
            ],
        ),
        decl(
            "UserStats",
            &[],
            vec![field("level", named("u8")), field("xp", named("u64"))],
        ),
    ]);
    let mut b = BoundProvider::new();
    b.add(bound("UserProfile", "name", BoundKind::MaxLen, 32));
    let profile = decl(
        "UserProfile",
        &["account"],
        vec![
            field("authority", named("Pubkey")),
            field("stats", named("UserStats")),
            field("name", named("String")),
        ],
    );
    // 8 + 32 + (1 + 8) + (4 + 32)
    let exact = account_size(&profile, &reg, &b);
    assert_eq!(exact, Ok(85));
    assert_eq!(recommended_size(85), Some(104));
    // The field sum alone omits the eight-byte prefix.
    assert_eq!(size_of_struct(&profile, &reg, &b), Ok(77));
}

#[test]
fn self_referential_struct_fails_cleanly() {
    let node = decl("Node", &["account"], vec![field("next", generic("Option", named("Node")))]);
    let reg = collect_all_structs(vec![decl(
        "Node",
        &["account"],
        vec![field("next", generic("Option", named("Node")))],
    )]);
    let b = BoundProvider::new();
    assert_eq!(
        account_size(&node, &reg, &b),
        Err(ResolveError::CyclicType { name: "Node".to_string() })
    );
}

#[test]
fn mutually_recursive_structs_fail_cleanly() {
    let reg = collect_all_structs(vec![
        decl("Left", &[], vec![field("right", named("Right"))]),
        decl("Right", &[], vec![field("left", named("Left"))]),
    ]);
    let b = BoundProvider::new();
    let r = resolve(&named("Left"), &reg, &b, "S", "f");
    assert_eq!(r, Err(ResolveError::CyclicType { name: "Left".to_string() }));
}

#[test]
fn sibling_fields_may_share_a_struct() {
    // Two fields of the same nested struct are no cycle.
    let reg = collect_all_structs(vec![decl(
        "Pair",
        &[],
        vec![field("a", named("Inner")), field("b", named("Inner"))],
    ), decl("Inner", &[], vec![field("x", named("u32"))])]);
    let b = BoundProvider::new();
    assert_eq!(resolve(&named("Pair"), &reg, &b, "S", "f"), Ok(8));
}

#[test]
fn resolution_is_repeatable() {
    let reg = collect_all_structs(vec![decl(
        "UserStats",
        &[],
        vec![field("level", named("u8")), field("xp", named("u64"))],
    )]);
    let mut b = BoundProvider::new();
    b.add(bound("S", "f", BoundKind::MaxItems, 7));
    let first = resolve(&generic("Vec", named("UserStats")), &reg, &b, "S", "f");
    let second = resolve(&generic("Vec", named("UserStats")), &reg, &b, "S", "f");
    assert_eq!(first, second);
    assert_eq!(first, Ok(67));
}

#[test]
fn recommended_size_examples() {
    assert_eq!(recommended_size(0), Some(0));
    assert_eq!(recommended_size(85), Some(104));
    // 100 * 1.15 = 115, rounded up to 120.
    assert_eq!(recommended_size(100), Some(120));
    // 8 * 1.15 = 9.2, ceiling 10, rounded up to 16.
    assert_eq!(recommended_size(8), Some(16));
    assert_eq!(recommended_size(u64::MAX), None);
}
