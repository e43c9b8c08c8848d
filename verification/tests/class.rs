use jvmti::class::{Class, ClassId, JavaType};

#[test]
fn parse_single_character_codes() {
    assert_eq!(JavaType::parse("B"), Some(JavaType::Byte));
    assert_eq!(JavaType::parse("C"), Some(JavaType::Char));
    assert_eq!(JavaType::parse("D"), Some(JavaType::Double));
    assert_eq!(JavaType::parse("F"), Some(JavaType::Float));
    assert_eq!(JavaType::parse("I"), Some(JavaType::Int));
    assert_eq!(JavaType::parse("L"), Some(JavaType::Long));
    assert_eq!(JavaType::parse("S"), Some(JavaType::Short));
    assert_eq!(JavaType::parse("V"), Some(JavaType::Void));
    assert_eq!(JavaType::parse("Z"), Some(JavaType::Boolean));
}

#[test]
fn parse_empty_is_absent() {
    assert_eq!(JavaType::parse(""), None);
}

#[test]
fn parse_array_signatures() {
    assert_eq!(JavaType::parse("[I"), Some(JavaType::Array(Box::new(JavaType::Int))));
    assert_eq!(
        JavaType::parse("[[I"),
        Some(JavaType::Array(Box::new(JavaType::Array(Box::new(JavaType::Int)))))
    );
}

#[test]
fn parse_class_keeps_the_slice() {
    assert_eq!(
        JavaType::parse("Ljava/lang/String;"),
        Some(JavaType::Class("Ljava/lang/String;"))
    );
}

#[test]
fn parse_multi_character_class_is_not_validated() {
    assert_eq!(JavaType::parse("LX"), Some(JavaType::Class("LX")));
}

#[test]
fn parse_rejects_malformed_input() {
    assert_eq!(JavaType::parse("X"), None);
    assert_eq!(JavaType::parse("ZZ"), None);
    assert_eq!(JavaType::parse("["), None);
    assert_eq!(JavaType::parse("[["), None);
    assert_eq!(JavaType::parse("[X"), None);
}

#[test]
fn format_primitives() {
    assert_eq!(JavaType::to_string(&JavaType::Byte), "byte");
    assert_eq!(JavaType::to_string(&JavaType::Char), "char");
    assert_eq!(JavaType::to_string(&JavaType::Double), "double");
    assert_eq!(JavaType::to_string(&JavaType::Float), "float");
    assert_eq!(JavaType::to_string(&JavaType::Int), "int");
    assert_eq!(JavaType::to_string(&JavaType::Long), "long");
    assert_eq!(JavaType::to_string(&JavaType::Short), "short");
    assert_eq!(JavaType::to_string(&JavaType::Void), "void");
    assert_eq!(JavaType::to_string(&JavaType::Boolean), "boolean");
}

#[test]
fn format_nested_array() {
    let t = JavaType::Array(Box::new(JavaType::Array(Box::new(JavaType::Int))));
    assert_eq!(JavaType::to_string(&t), "int[][]");
}

#[test]
fn format_class_name() {
    let t = JavaType::Class("Ljava/lang/String;");
    assert_eq!(JavaType::to_string(&t), "java.lang.String");
}

#[test]
fn format_class_name_without_markers() {
    assert_eq!(JavaType::to_string(&JavaType::Class("java/lang/String")), "java.lang.String");
    assert_eq!(JavaType::to_string(&JavaType::Class("LX")), "X");
    assert_eq!(JavaType::to_string(&JavaType::Class("L")), "");
    assert_eq!(JavaType::to_string(&JavaType::Class(";")), "");
    assert_eq!(JavaType::to_string(&JavaType::Class("")), "");
}

#[test]
fn round_trip_primitive_arrays_to_depth_ten() {
    let codes = [
        ("B", "byte"),
        ("C", "char"),
        ("D", "double"),
        ("F", "float"),
        ("I", "int"),
        ("L", "long"),
        ("S", "short"),
        ("V", "void"),
        ("Z", "boolean"),
    ];
    for (code, name) in codes.iter() {
        for depth in 0..=10 {
            let mut signature = String::new();
            let mut expected = String::from(*name);
            for _ in 0..depth {
                signature.push('[');
                expected.push_str("[]");
            }
            signature.push_str(code);
            let parsed = JavaType::parse(&signature)
                .unwrap_or_else(|| panic!("{} should parse", signature));
            assert_eq!(JavaType::to_string(&parsed), expected);
        }
    }
}

#[test]
fn format_is_deterministic() {
    let a = JavaType::parse("[[Ljava/util/List;").unwrap();
    let b = JavaType::parse("[[Ljava/util/List;").unwrap();
    assert_eq!(a, b);
    assert_eq!(JavaType::to_string(&a), JavaType::to_string(&b));
    assert_eq!(JavaType::to_string(&a), JavaType::to_string(&a));
}

#[test]
fn class_new_keeps_its_parts() {
    let parsed = JavaType::parse("Ljava/lang/Object;").unwrap();
    let class = Class::new(ClassId { native_id: 42 }, parsed);
    assert_eq!(class.id.native_id, 42);
    assert_eq!(class.signature, JavaType::Class("Ljava/lang/Object;"));
}
