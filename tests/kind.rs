use acm::kind::Kind;

struct Lol {}

impl Kind for Lol {
    fn kind(&self) -> String {
        "Lol".to_string()
    }
}

#[allow(dead_code)]
enum AnEnum {
    Unit,
    Variant,
    UnaryUnnamed(i32),
    BinaryUnnamed(i32, i32),
    UnaryNamed { a: i32 },
    BinaryNamed { a: i32, b: i32 },
    VariantUnary(i32),
    VariantBinary(i32, i32),
    VariantNamed { a: i32 },
    VariantNamedTwo { a: i32, b: i32 },
}

impl Kind for AnEnum {
    fn kind(&self) -> String {
        match self {
            AnEnum::Unit => "AnEnum::Unit",
            AnEnum::Variant
            | AnEnum::VariantUnary(_)
            | AnEnum::VariantBinary(_, _)
            | AnEnum::VariantNamed { .. }
            | AnEnum::VariantNamedTwo { .. } => "AnEnum::Variant",
            AnEnum::UnaryUnnamed(_) => "AnEnum::UnaryUnnamed",
            AnEnum::BinaryUnnamed(_, _) => "AnEnum::BinaryUnnamed",
            AnEnum::UnaryNamed { .. } => "AnEnum::UnaryNamed",
            AnEnum::BinaryNamed { .. } => "AnEnum::BinaryNamed",
        }
        .to_string()
    }
}

#[test]
fn simple_struct() {
    assert_eq!(Lol {}.kind(), "Lol")
}

#[test]
fn unit() {
    assert_eq!(AnEnum::Variant.kind(), "AnEnum::Variant")
}

#[test]
fn unary_unnamed() {
    assert_eq!(AnEnum::VariantUnary(1).kind(), "AnEnum::Variant")
}

#[test]
fn binary_unnamed() {
    assert_eq!(AnEnum::VariantBinary(1, 2).kind(), "AnEnum::Variant")
}

#[test]
fn unary_named() {
    assert_eq!(AnEnum::VariantNamed { a: 1 }.kind(), "AnEnum::Variant")
}

#[test]
fn binary_named() {
    assert_eq!(AnEnum::VariantNamedTwo { a: 1, b: 2 }.kind(), "AnEnum::Variant")
}

#[test]
fn mixed_enum() {
    assert_eq!(AnEnum::Unit.kind(), "AnEnum::Unit");
    assert_eq!(AnEnum::UnaryUnnamed(1).kind(), "AnEnum::UnaryUnnamed");
    assert_eq!(AnEnum::BinaryUnnamed(1, 2).kind(), "AnEnum::BinaryUnnamed");
    assert_eq!(AnEnum::UnaryNamed { a: 1 }.kind(), "AnEnum::UnaryNamed");
    assert_eq!(
        AnEnum::BinaryNamed { a: 1, b: 2 }.kind(),
        "AnEnum::BinaryNamed"
    );
}

#[test]
fn list_kind_names_first_item() {
    let empty: Vec<String> = vec![];
    assert_eq!(empty.kind(), "List[]");
    assert_eq!(vec!["a".to_string()].kind(), "List[String]");
    assert_eq!(vec![3u64, 4u64].kind(), "List[u64]");
}
