use proc_macro2::TokenStream;
use servify::path::to_super;
use servify::path::QualifiedPath;

fn normalized(text: &str) -> String {
    text.parse::<TokenStream>().unwrap().to_string()
}

#[test]
fn relative_path() {
    let path = QualifiedPath::parse("tests::expanded_1::SomeStruct").unwrap();
    assert_eq!(
        normalized(&to_super(path).to_text()),
        normalized("super::tests::expanded_1::SomeStruct"),
    );
}

#[test]
fn absolute_path() {
    let path = QualifiedPath::parse("::tests::expanded_1::SomeStruct").unwrap();
    assert_eq!(
        normalized(&to_super(path).to_text()),
        normalized("::tests::expanded_1::SomeStruct"),
    );
}

#[test]
fn crate_absolute_path() {
    let path = QualifiedPath::parse("crate::tests::expanded_1::SomeStruct").unwrap();
    assert_eq!(
        normalized(&to_super(path).to_text()),
        normalized("crate::tests::expanded_1::SomeStruct"),
    );
}

#[test]
fn ident() {
    let path = QualifiedPath::parse("SomeStruct").unwrap();
    assert_eq!(normalized(&to_super(path).to_text()), normalized("super::SomeStruct"));
}

#[test]
fn with_trail_ident() {
    let path = QualifiedPath::parse("std::collections::HashMap").unwrap();
    assert_eq!(
        normalized(&path.with_trail_ident("Entry").to_text()),
        normalized("std::collections::HashMap::Entry"),
    );
}

#[test]
fn with_inserted_ident() {
    let path = QualifiedPath::parse("std::collections::HashMap").unwrap();
    assert_eq!(
        normalized(&path.with_inserted_ident("Entry", 1).to_text()),
        normalized("std::Entry::collections::HashMap"),
    );
}

#[test]
fn qualified_self_paths_print_as_written() {
    let path = QualifiedPath::parse("<T as a::Tr>::X").unwrap();
    assert_eq!(normalized(&path.to_text()), normalized("<T as a::Tr> ::X"));
    let path = QualifiedPath::parse("<T>::X").unwrap();
    assert_eq!(normalized(&path.to_text()), normalized("<T> ::X"));
    let path = QualifiedPath::parse("a::B<u8>::C").unwrap();
    assert_eq!(normalized(&to_super(path).to_text()), normalized("super::a::B<u8> ::C"));
}
