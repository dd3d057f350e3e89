use anchor_size_core::FieldDecl;
use anchor_size_core::StructDecl;
use anchor_size_core::TypeExpr;
use anchor_size_core::extract_fields;
use anchor_size_core::find_account_structs;
use anchor_size_core::find_marked_structs;
use anchor_size_core::round_up_to_eight;
use anchor_size_core::size_of_type;

fn named(name: &str) -> TypeExpr {
    TypeExpr::Named { name: name.to_string(), arg: None }
}

fn field(name: &str, ty: TypeExpr) -> FieldDecl {
    FieldDecl { name: name.to_string(), ty }
}

fn decl(name: &str, attrs: &[&str], fields: Vec<FieldDecl>) -> StructDecl {
    StructDecl {
        name: name.to_string(),
        attrs: attrs.iter().map(|a| a.to_string()).collect(),
        fields,
    }
}

#[test]
fn account_structs_keep_declaration_order() {
    let unit = vec![
        decl("A", &["account"], vec![]),
        decl("B", &[], vec![]),
        decl("C", &["derive", "account"], vec![]),
        decl("D", &["derive"], vec![]),
    ];
    let marked = find_account_structs(unit);
    let names: Vec<&str> = marked.iter().map(|d| d.name.as_str()).collect();
    assert_eq!(names, vec!["A", "C"]);
}

#[test]
fn marker_is_selectable() {
    let unit = vec![
        decl("A", &["account"], vec![]),
        decl("B", &["state"], vec![]),
    ];
    let marked = find_marked_structs(unit, "state");
    assert_eq!(marked.len(), 1);
    assert_eq!(marked[0].name, "B");
}

#[test]
fn no_marker_no_accounts() {
    let unit = vec![decl("A", &[], vec![]), decl("B", &["derive"], vec![])];
    assert_eq!(find_account_structs(unit).len(), 0);
}

#[test]
fn fields_come_back_in_order() {
    let d = decl(
        "S",
        &[],
        vec![field("first", named("u8")), field("second", named("u64"))],
    );
    let fields = extract_fields(&d);
    assert_eq!(fields.len(), 2);
    assert_eq!(fields[0].name, "first");
    assert_eq!(fields[1].name, "second");
}

#[test]
fn primitive_table_is_closed() {
    assert_eq!(size_of_type(&named("bool")), Some(1));
    assert_eq!(size_of_type(&named("u8")), Some(1));
    assert_eq!(size_of_type(&named("i8")), Some(1));
    assert_eq!(size_of_type(&named("u16")), Some(2));
    assert_eq!(size_of_type(&named("i16")), Some(2));
    assert_eq!(size_of_type(&named("u32")), Some(4));
    assert_eq!(size_of_type(&named("i32")), Some(4));
    assert_eq!(size_of_type(&named("u64")), Some(8));
    assert_eq!(size_of_type(&named("i64")), Some(8));
    assert_eq!(size_of_type(&named("Pubkey")), Some(32));
    // The dynamic families are absent, not zero-sized.
    assert_eq!(size_of_type(&named("String")), None);
    assert_eq!(size_of_type(&named("Vec")), None);
    assert_eq!(size_of_type(&named("Option")), None);
    assert_eq!(size_of_type(&named("Missing")), None);
    assert_eq!(size_of_type(&TypeExpr::Unsupported), None);
}

#[test]
fn rounding_to_the_allocation_unit() {
    assert_eq!(round_up_to_eight(0), Some(0));
    assert_eq!(round_up_to_eight(1), Some(8));
    assert_eq!(round_up_to_eight(8), Some(8));
    assert_eq!(round_up_to_eight(98), Some(104));
    assert_eq!(round_up_to_eight(u64::MAX), None);
}
