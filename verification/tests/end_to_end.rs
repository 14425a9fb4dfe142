use hydra_rs::{
    generate, Abi, Attribute, Field, FnDecl, Item, ItemKind, Param, Pattern, TypeExpr, Visibility,
};

const EMPTY_OUTPUT: &str = "// Auto generated by hydra-rs\n\nclass RustWrapper {\n}";

fn attribute(name: &str) -> Attribute {
    Attribute { name: name.to_string(), children: None }
}

fn repr_c() -> Attribute {
    Attribute { name: "repr".to_string(), children: Some(vec![attribute("C")]) }
}

fn type_path(name: &str) -> TypeExpr {
    TypeExpr::Path(vec![name.to_string()])
}

fn c_char_pointer() -> TypeExpr {
    TypeExpr::Pointer(Box::new(type_path("c_char")))
}

fn int_params(names: &[&str]) -> Vec<Param> {
    names
        .iter()
        .map(|n| Param { pattern: Pattern::Ident(n.to_string()), type_expr: type_path("i32") })
        .collect()
}

fn source_fn(
    name: &str,
    abi: Abi,
    visibility: Visibility,
    attributes: Vec<Attribute>,
    parameters: Vec<Param>,
    return_expr: Option<TypeExpr>,
) -> Item {
    Item {
        kind: ItemKind::Function { abi, decl: FnDecl { parameters, return_expr } },
        name: name.to_string(),
        visibility,
        attributes,
    }
}

/// `#[no_mangle] pub extern fn <name>(<params>: i32, ..) -> *const c_char`
fn export(name: &str, params: &[&str]) -> Item {
    source_fn(
        name,
        Abi::C,
        Visibility::Public,
        vec![attribute("no_mangle")],
        int_params(params),
        Some(c_char_pointer()),
    )
}

fn view_model() -> Item {
    Item {
        kind: ItemKind::Struct {
            fields: vec![
                Field { name: "new_item_content".to_string(), type_expr: type_path("String") },
                Field { name: "items".to_string(), type_expr: type_path("Vec") },
            ],
        },
        name: "ViewModel".to_string(),
        visibility: Visibility::Public,
        attributes: vec![repr_c()],
    }
}

fn other_item(name: &str) -> Item {
    Item {
        kind: ItemKind::Other,
        name: name.to_string(),
        visibility: Visibility::NonPublic,
        attributes: vec![],
    }
}

#[test]
fn single_pointer_returning_export() {
    let text = generate(&vec![export("test_fn", &["a", "b"])]).expect("i32 is in the table");
    assert!(text.contains(
        "[DllImport(\"rlib_test1.dll\")]\nprivate static extern IntPtr test_fn(Int32 a, Int32 b);\n"
    ));
    assert_eq!(
        text,
        "// Auto generated by hydra-rs\n\nclass RustWrapper {\n\
         [DllImport(\"rlib_test1.dll\")]\n\
         private static extern IntPtr test_fn(Int32 a, Int32 b);\n}"
    );
}

#[test]
fn two_exports_preserve_order() {
    let items = vec![export("test_fn", &["a", "b"]), export("test_fn3", &["a"])];
    let text = generate(&items).expect("i32 is in the table");
    assert_eq!(
        text,
        "// Auto generated by hydra-rs\n\nclass RustWrapper {\n\
         [DllImport(\"rlib_test1.dll\")]\n\
         private static extern IntPtr test_fn(Int32 a, Int32 b);\n\
         [DllImport(\"rlib_test1.dll\")]\n\
         private static extern IntPtr test_fn3(Int32 a);\n}"
    );
    let first = text.find("test_fn(").expect("the first declaration is there");
    let second = text.find("test_fn3(").expect("the second declaration is there");
    assert!(first < second);
    assert_eq!(text.matches("[DllImport(\"rlib_test1.dll\")]\n").count(), 2);
}

#[test]
fn two_exports_in_the_other_order() {
    let items = vec![export("test_fn3", &["a"]), export("test_fn", &["a", "b"])];
    let text = generate(&items).expect("i32 is in the table");
    assert_eq!(
        text,
        "// Auto generated by hydra-rs\n\nclass RustWrapper {\n\
         [DllImport(\"rlib_test1.dll\")]\n\
         private static extern IntPtr test_fn3(Int32 a);\n\
         [DllImport(\"rlib_test1.dll\")]\n\
         private static extern IntPtr test_fn(Int32 a, Int32 b);\n}"
    );
}

#[test]
fn non_public_function_dropped() {
    let item = source_fn(
        "test_fn",
        Abi::C,
        Visibility::NonPublic,
        vec![attribute("no_mangle")],
        int_params(&["a", "b"]),
        Some(c_char_pointer()),
    );
    assert_eq!(generate(&vec![item]).expect("nothing is rendered"), EMPTY_OUTPUT);
}

#[test]
fn missing_no_mangle_dropped() {
    let item = source_fn(
        "test_fn",
        Abi::C,
        Visibility::Public,
        vec![],
        int_params(&["a", "b"]),
        Some(c_char_pointer()),
    );
    assert_eq!(generate(&vec![item]).expect("nothing is rendered"), EMPTY_OUTPUT);
}

#[test]
fn non_c_abi_dropped() {
    let item = source_fn(
        "test_fn",
        Abi::Other,
        Visibility::Public,
        vec![attribute("no_mangle")],
        int_params(&["a", "b"]),
        Some(c_char_pointer()),
    );
    assert_eq!(generate(&vec![item]).expect("nothing is rendered"), EMPTY_OUTPUT);
}

#[test]
fn unknown_parameter_primitive_is_fatal() {
    let item = source_fn(
        "test_fn",
        Abi::C,
        Visibility::Public,
        vec![attribute("no_mangle")],
        vec![Param { pattern: Pattern::Ident("n".to_string()), type_expr: type_path("u64") }],
        Some(c_char_pointer()),
    );
    let err = generate(&vec![export("fine", &["a"]), item]).expect_err("u64 is not in the table");
    assert_eq!(err.token, "u64");
    assert_eq!(err.message(), "unknown primitive type: u64");
}

#[test]
fn unknown_primitive_of_a_dropped_function_is_not_looked_up() {
    let unit_return = source_fn(
        "add_new_item",
        Abi::C,
        Visibility::Public,
        vec![attribute("no_mangle")],
        vec![Param { pattern: Pattern::Ident("n".to_string()), type_expr: type_path("u64") }],
        None,
    );
    let not_public = source_fn(
        "hidden",
        Abi::C,
        Visibility::NonPublic,
        vec![attribute("no_mangle")],
        vec![Param { pattern: Pattern::Ident("n".to_string()), type_expr: type_path("u64") }],
        Some(c_char_pointer()),
    );
    let text = generate(&vec![unit_return, not_public]).expect("nothing is rendered");
    assert_eq!(text, EMPTY_OUTPUT);
}

#[test]
fn pointer_parameter_of_an_export_is_fatal() {
    let item = source_fn(
        "deinit_vm",
        Abi::C,
        Visibility::Public,
        vec![attribute("no_mangle")],
        vec![Param {
            pattern: Pattern::Ident("ptr".to_string()),
            type_expr: TypeExpr::Pointer(Box::new(type_path("ViewModel"))),
        }],
        Some(c_char_pointer()),
    );
    let err = generate(&vec![item]).expect_err("a pointer has the empty token");
    assert_eq!(err.token, "");
}

#[test]
fn empty_source_gives_header_and_empty_class() {
    assert_eq!(generate(&vec![]).expect("nothing is rendered"), EMPTY_OUTPUT);
}

#[test]
fn source_without_accepted_functions_is_like_the_empty_source() {
    let items = vec![
        view_model(),
        other_item("Status"),
        source_fn("main", Abi::Other, Visibility::NonPublic, vec![], vec![], None),
        source_fn(
            "init_vm",
            Abi::C,
            Visibility::Public,
            vec![attribute("no_mangle")],
            vec![],
            Some(type_path("Box")),
        ),
    ];
    let empty = generate(&vec![]).expect("nothing is rendered");
    assert_eq!(generate(&items).expect("nothing is rendered"), empty);
}

#[test]
fn function_with_zero_parameters_renders_empty_brackets() {
    let text = generate(&vec![export("init", &[])]).expect("there is no parameter");
    assert!(text.contains("private static extern IntPtr init();\n"));
}

#[test]
fn output_begins_with_header_and_ends_with_one_brace() {
    let sources = vec![
        vec![],
        vec![view_model()],
        vec![export("a", &[])],
        vec![export("a", &["x"]), other_item("use"), export("b", &["x", "y"])],
    ];
    for items in sources {
        let text = generate(&items).expect("i32 is in the table");
        assert!(text.starts_with("// Auto generated by hydra-rs\n"));
        assert!(text.ends_with('}'));
        assert!(!text.ends_with("}}"));
        assert!(!text.ends_with("}\n"));
    }
}

#[test]
fn declarations_stand_for_the_accepted_functions_only() {
    let items = vec![
        source_fn(
            "private_one",
            Abi::C,
            Visibility::NonPublic,
            vec![attribute("no_mangle")],
            vec![],
            Some(c_char_pointer()),
        ),
        export("accepted_one", &["a"]),
        source_fn(
            "mangled_one",
            Abi::C,
            Visibility::Public,
            vec![],
            vec![],
            Some(c_char_pointer()),
        ),
        source_fn(
            "rust_abi_one",
            Abi::Other,
            Visibility::Public,
            vec![attribute("no_mangle")],
            vec![],
            Some(c_char_pointer()),
        ),
        export("accepted_two", &[]),
    ];
    let text = generate(&items).expect("i32 is in the table");
    assert_eq!(text.matches("private static extern").count(), 2);
    assert!(text.contains("accepted_one("));
    assert!(text.contains("accepted_two("));
    assert!(!text.contains("private_one"));
    assert!(!text.contains("mangled_one"));
    assert!(!text.contains("rust_abi_one"));
    assert!(text.find("accepted_one(").unwrap() < text.find("accepted_two(").unwrap());
}

#[test]
fn running_twice_gives_identical_output() {
    let items = vec![view_model(), export("test_fn", &["a", "b"]), export("test_fn3", &["a"])];
    let first = generate(&items).expect("i32 is in the table");
    let second = generate(&items).expect("i32 is in the table");
    assert_eq!(first, second);
    assert_eq!(first.as_bytes(), second.as_bytes());
}

#[test]
fn deleting_non_exportable_items_does_not_change_the_output() {
    let full = vec![
        view_model(),
        export("test_fn", &["a", "b"]),
        other_item("Status"),
        source_fn("main", Abi::Other, Visibility::NonPublic, vec![], vec![], None),
        export("test_fn3", &["a"]),
        source_fn(
            "add_new_item",
            Abi::C,
            Visibility::Public,
            vec![attribute("no_mangle")],
            vec![],
            None,
        ),
    ];
    let reduced = vec![export("test_fn", &["a", "b"]), export("test_fn3", &["a"])];
    assert_eq!(
        generate(&full).expect("i32 is in the table"),
        generate(&reduced).expect("i32 is in the table")
    );
}

#[test]
fn parameter_types_are_mapped_by_the_table() {
    let text = generate(&vec![export("f", &["first", "second", "third"])])
        .expect("i32 is in the table");
    assert!(text.contains("f(Int32 first, Int32 second, Int32 third);\n"));
    assert!(!text.contains("i32"));
}

#[test]
fn sample_source_of_the_tool() {
    let items = vec![
        other_item("syntax"),
        other_item("Status"),
        Item {
            kind: ItemKind::Struct { fields: vec![] },
            name: "TodoItem".to_string(),
            visibility: Visibility::NonPublic,
            attributes: vec![repr_c()],
        },
        view_model(),
        export("test_fn", &["a", "b"]),
        export("test_fn3", &["a"]),
        source_fn("main", Abi::Other, Visibility::NonPublic, vec![], vec![], None),
    ];
    let text = generate(&items).expect("i32 is in the table");
    assert_eq!(
        text,
        "// Auto generated by hydra-rs\n\nclass RustWrapper {\n\
         [DllImport(\"rlib_test1.dll\")]\n\
         private static extern IntPtr test_fn(Int32 a, Int32 b);\n\
         [DllImport(\"rlib_test1.dll\")]\n\
         private static extern IntPtr test_fn3(Int32 a);\n}"
    );
}
