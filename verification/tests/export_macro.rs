use proc_macro2::TokenStream;
use servify::export::{impl_export, read_block, ItemRead, ItemReading};
use servify::syntax::{read_ident, read_token_trees};
use servify::path::QualifiedPath;
use servify::export_macro::{export, export_source, ServifyExport, ServifyExportArgs};
use servify::refusal::Refusal;

fn tokens(text: &str) -> TokenStream {
    text.parse().unwrap()
}

#[test]
fn test_snapshot_export_all_written() {
    let attr = "super::counter";
    let input = "get";

    let args = ServifyExportArgs::parse(attr).unwrap();
    let export = ServifyExport::parse(input).unwrap();

    let generated = export.to_tokens(args).unwrap();

    assert_eq!(tokens(&generated).to_string(), tokens("mod counter_get { }").to_string());
}

#[test]
fn export_generates_every_method_of_the_block() {
    let block = "impl Counter {
        fn increment_and_get(&mut self, count: u32) -> u32 {
            self.count += count;
            self.count
        }
        fn get_value(&self) -> u32 {
            self.count
        }
    }";
    let out = export(tokens(""), tokens(block)).to_string();
    assert_eq!(out, impl_export(tokens(""), tokens(block)).to_string());
    let first = out.find("pub struct Counter_increment_and_get ()").unwrap();
    let second = out.find("pub struct Counter_get_value ()").unwrap();
    assert!(first < second);
    assert!(out.contains("impl Counter :: Client { pub async fn get_value (& self ,) -> __get_value_response"));
}

#[test]
fn export_of_one_method_defines_what_the_service_needs() {
    let out = export_source("", "impl SimpleCounter { fn get(&self) -> u32 { self.counter } }").unwrap();
    let out = tokens(&out).to_string();
    assert!(out.contains("pub type __get_response = u32 ;"));
    assert!(out.contains("pub struct __get_request { }"));
    assert!(out.contains("impl SimpleCounter :: Server { pub async fn get (& mut self , req : __get_request)"));
    assert!(out.contains("impl :: servify :: ServifyExport for SimpleCounter_get"));
}

#[test]
fn export_uses_service_path_of_the_block() {
    let out = export_source("", "impl super :: counter :: Counter { fn reset (& mut self) { } }").unwrap();
    let out = tokens(&out).to_string();
    assert!(out.contains("impl super :: counter :: Counter :: Server"));
    assert!(out.contains("pub struct Counter_reset ()"));
}

#[test]
fn export_refuses_empty_block() {
    assert_eq!(
        export_source("", "impl A { }"),
        Err(Refusal {
            message: "Within the servify::export macro, one function must be exported in one impl block".to_string(),
            at: String::new(),
        })
    );
}

#[test]
fn export_refuses_other_items() {
    let refused = export_source("", "impl A { type T = u32 ; }").err().unwrap();
    assert_eq!(
        refused.message,
        "Supported items within the servify::export macro are only exporting function, associated function, associated constants, and Request struct"
    );
    assert_eq!(tokens(&refused.at).to_string(), tokens("type T = u32 ;").to_string());
    let refused = export_source("", "impl A { fn a (& self) { } type T = u32 ; }").err().unwrap();
    assert_eq!(tokens(&refused.at).to_string(), tokens("type T = u32 ;").to_string());
}

#[test]
fn export_arguments_name_the_service() {
    assert!(ServifyExportArgs::parse("").is_ok());
    assert!(ServifyExportArgs::parse("super :: counter").is_ok());
    let refused = ServifyExportArgs::parse("1").err().unwrap();
    assert_eq!(refused, Refusal { message: "unexpected token".to_string(), at: "1".to_string() });
    // The arguments do not change what a block exports.
    let block = "impl A { fn a(&self) {} }";
    assert_eq!(
        export(tokens("super::counter"), tokens(block)).to_string(),
        export(tokens(""), tokens(block)).to_string()
    );
}

#[test]
fn export_of_a_name_needs_the_service() {
    assert_eq!(
        export_source("", "get"),
        Err(Refusal {
            message: "expected `impl`".to_string(),
            at: "get".to_string(),
        })
    );
    assert_eq!(export_source("Counter", "get"), Ok("mod Counter_get { }".to_string()));
}

#[test]
fn export_requires_an_impl_block() {
    assert_eq!(export_source("", "fn a () { }").err().unwrap().message, "expected `impl`");
    assert_eq!(export_source("", "impl A ;").err().unwrap().message, "expected curly braces");
    assert_eq!(
        export_source("", "impl A").err().unwrap().message,
        "unexpected end of input, expected curly braces"
    );
    assert_eq!(export_source("", "impl A { fn a (& self) { } } x").err().unwrap().message, "unexpected token");
}

#[test]
fn export_block_judged_from_its_readings() {
    let path = QualifiedPath::parse("A").unwrap();
    let items = vec![
        ItemRead { text: "x".to_string(), reading: ItemReading::Other },
        ItemRead { text: "y".to_string(), reading: ItemReading::Unreadable("bad".to_string()) },
    ];
    let refused = ServifyExport::from_block(path, items).err().unwrap();
    assert_eq!(refused.at, "x");
    let path = QualifiedPath::parse("A").unwrap();
    let items = vec![ItemRead { text: "y".to_string(), reading: ItemReading::Unreadable("bad".to_string()) }];
    assert_eq!(
        ServifyExport::from_block(path, items).err(),
        Some(Refusal { message: "bad".to_string(), at: "y".to_string() })
    );
    let path = QualifiedPath::parse("A").unwrap();
    assert_eq!(ServifyExport::from_block(path, vec![]).err().unwrap().at, "");
}

#[test]
fn export_item_judged_from_its_readings() {
    // One identifier that reads as a name is a method named alone, with the token's text.
    let named = ServifyExport::from_readings(read_token_trees("get"), Some(read_ident("get")), None).unwrap();
    assert_eq!(named.to_tokens(ServifyExportArgs::parse("a :: S").unwrap()), Ok("mod S_get { }".to_string()));
    // One that does not read as a name is refused with the error, about the identifier.
    let refused = ServifyExport::from_readings(read_token_trees("fn"), Some(read_ident("fn")), None).err().unwrap();
    assert_eq!(refused.at, "fn");
    // Anything else is judged as a block.
    let text = "impl [u8] { }";
    assert_eq!(
        ServifyExport::from_readings(read_token_trees(text), None, Some(read_block(text))).err(),
        Some(Refusal {
            message: "servify_macro::export can only be used on impl blocks with a TypePath.".to_string(),
            at: "[u8]".to_string(),
        })
    );
    // Text that does not lex is refused, about the text.
    assert_eq!(ServifyExport::from_readings(read_token_trees("\""), None, None).err().unwrap().at, "\"");
}
