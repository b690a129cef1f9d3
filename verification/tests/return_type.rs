use proc_macro2::TokenStream;
use servify::export::{read_item, ItemReading};

fn normalized(text: &str) -> String {
    text.parse::<TokenStream>().unwrap().to_string()
}

fn return_type_of(function: &str) -> String {
    match read_item(function).reading {
        ItemReading::Method(m) => m.method.output.to_type(),
        _ => panic!("not a method"),
    }
}

#[test]
fn test_default_type() {
    let return_type = return_type_of("fn some_function() {}");
    assert_eq!(normalized(&return_type), normalized("()"));
}

#[test]
fn test_ident_type() {
    let return_type = return_type_of("fn some_function() -> i32 {}");
    assert_eq!(normalized(&return_type), normalized("i32"));
}

#[test]
fn test_path_type() {
    let return_type = return_type_of("fn some_function() -> std::string::String {}");
    assert_eq!(normalized(&return_type), normalized("std::string::String"));
}
