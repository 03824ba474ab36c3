use derive_builder::{
    do_expand, expand_parsed, Data, Definition, DeriveError, ExpandError, Field, Fields,
};

fn refused(ident: &str) -> DeriveError {
    DeriveError::Unsupported(ExpandError::UnsupportedShape { item: ident.to_string() })
}

#[test]
fn command_source_yields_command_builder() {
    let text = derive_builder::derive::derive(
        "pub struct Command {
            executable: String,
            args: Vec<String>,
            env: Vec<String>,
            current_dir: String,
        }",
    )
    .unwrap();
    assert_eq!(
        text,
        "pub struct CommandBuilder { \
         executable: std::option::Option<String>, \
         args: std::option::Option<Vec < String >>, \
         env: std::option::Option<Vec < String >>, \
         current_dir: std::option::Option<String> \
         } impl Command { pub fn builder() -> CommandBuilder { CommandBuilder { \
         executable: std::option::Option::None, \
         args: std::option::Option::None, \
         env: std::option::Option::None, \
         current_dir: std::option::Option::None \
         } } }"
    );
}

#[test]
fn source_with_one_field() {
    assert_eq!(
        derive_builder::derive::derive("struct Point { pub x: i32 }").unwrap(),
        "pub struct PointBuilder { x: std::option::Option<i32> } impl Point { \
         pub fn builder() -> PointBuilder { PointBuilder { x: std::option::Option::None } } }"
    );
}

#[test]
fn source_without_fields_is_refused() {
    assert_eq!(derive_builder::derive::derive("struct Empty {}"), Err(refused("Empty")));
    assert_eq!(
        expand_parsed(Ok(Definition {
            ident: "Empty".to_string(),
            data: Data::Struct(Fields::Named(Vec::new())),
        })),
        Err(refused("Empty"))
    );
}

#[test]
fn tuple_struct_source_is_refused() {
    assert_eq!(derive_builder::derive::derive("struct Pair(u8, u8);"), Err(refused("Pair")));
}

#[test]
fn unit_struct_source_is_refused() {
    assert_eq!(derive_builder::derive::derive("struct Marker;"), Err(refused("Marker")));
}

#[test]
fn enum_source_is_refused() {
    assert_eq!(derive_builder::derive::derive("enum Colour { Red, Green { shade: u8 } }"), Err(refused("Colour")));
}

#[test]
fn union_source_is_refused() {
    assert_eq!(derive_builder::derive::derive("union Bits { a: u8, b: i8 }"), Err(refused("Bits")));
}

#[test]
fn text_that_is_no_definition_is_a_syntax_error() {
    assert!(matches!(derive_builder::derive::derive("fn f() {}"), Err(DeriveError::Syntax { .. })));
    assert!(matches!(derive_builder::derive::derive(""), Err(DeriveError::Syntax { .. })));
    assert!(matches!(derive_builder::derive::derive("struct Open {"), Err(DeriveError::Syntax { .. })));
    assert!(matches!(derive_builder::derive::derive("struct A { a: u8 } struct B { b: u8 }"), Err(DeriveError::Syntax { .. })));
}

#[test]
fn syntax_error_carries_the_parsers_message() {
    match derive_builder::derive::derive("fn f() {}") {
        Err(DeriveError::Syntax { message }) => {
            assert!(!message.is_empty());
            assert_ne!(message, "fn f() {}");
        }
        other => panic!("{:?}", other),
    }
}

#[test]
fn same_source_same_output() {
    let source = "struct Job { id: u64, tags: Vec<String> }";
    assert_eq!(derive_builder::derive::derive(source), derive_builder::derive::derive(source));
    assert_eq!(derive_builder::derive::derive("enum E { A }"), derive_builder::derive::derive("enum E { A }"));
}

#[test]
fn parsed_source_agrees_with_the_description() {
    let described = Definition {
        ident: "Job".to_string(),
        data: Data::Struct(Fields::Named(vec![
            Field { ident: "id".to_string(), ty: "u64".to_string() },
            Field { ident: "name".to_string(), ty: "String".to_string() },
        ])),
    };
    assert_eq!(
        derive_builder::derive::derive("struct Job { id: u64, name: String }").unwrap(),
        do_expand(&described).unwrap()
    );
}

#[test]
fn outcome_of_parsing_decides() {
    let st = Definition {
        ident: "P".to_string(),
        data: Data::Struct(Fields::Named(vec![Field {
            ident: "x".to_string(),
            ty: "u8".to_string(),
        }])),
    };
    assert_eq!(
        expand_parsed(Ok(st)),
        Ok("pub struct PBuilder { x: std::option::Option<u8> } impl P { \
            pub fn builder() -> PBuilder { PBuilder { x: std::option::Option::None } } }"
            .to_string())
    );
    assert_eq!(
        expand_parsed(Ok(Definition { ident: "E".to_string(), data: Data::Enum })),
        Err(refused("E"))
    );
    assert_eq!(
        expand_parsed(Err("unexpected token".to_string())),
        Err(DeriveError::Syntax { message: "unexpected token".to_string() })
    );
}
