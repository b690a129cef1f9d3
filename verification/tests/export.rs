use proc_macro2::TokenStream;
use servify::export::impl_export;
use servify::export::{export_block, item_read, read_args, read_block, ItemReading};
use servify::syntax::read_impl_item;
use servify::refusal::{hand_on, Refusal};

fn tokens(text: &str) -> TokenStream {
    text.parse().unwrap()
}

#[test]
fn fail_if_contains_const() {
    assert_eq!(
        impl_export(
            tokens(""),
            tokens("impl A { const A: usize = 0; fn a(&self) {} }"),
        )
        .to_string(),
        r#":: core :: compile_error ! { "servify_macro::export cannot handle implementations other than functions." }"#,
    );
}

#[test]
fn fail_if_impl_to_fn() {
    assert_eq!(
        impl_export(tokens(""), tokens("fn a() {}")).to_string(),
        r#":: core :: compile_error ! { "expected `impl`" }"#
    );
}

#[test]
fn test_export() {
    assert_eq!(
        impl_export(
            tokens(""),
            tokens(
                "impl SomeStruct {
                    fn increment(&mut self, count: u32) -> u32 {
                        self.count += count;
                        self.count
                    }
                }"
            ),
        )
        .to_string(),
        tokens(
            "#[allow(non_camel_case_types)]
            pub type __increment_response = u32;

            #[allow(non_camel_case_types)]
            #[derive(Clone)]
            pub struct __increment_request {
                count: u32
            }

            impl SomeStruct::Server {
                pub async fn increment(&mut self, req: __increment_request) -> __increment_response {
                    self.__internal_increment(req.count).await
                }
                async fn __internal_increment(&mut self, count: u32) -> __increment_response {
                    self.count += count;
                    self.count
                }
            }

            impl SomeStruct::Client {
                pub async fn increment(&self, count: u32) -> __increment_response {
                    SomeStruct::__internal_increment(self, __increment_request { count }).await
                }
            }

            #[allow(non_camel_case_types)]
            pub struct SomeStruct_increment ();
            impl ::servify::ServifyExport for SomeStruct_increment {
                type Request = __increment_request;
                type Response = __increment_response;
            }"
        )
        .to_string()
    );
}

#[test]
fn export_refuses_non_path_self_type() {
    assert_eq!(
        servify::export::export_source("impl (A , B) { fn a (& self) { } }").err(),
        Some(Refusal {
            message: "servify_macro::export can only be used on impl blocks with a TypePath.".to_string(),
            at: "(A , B)".to_string(),
        })
    );
}

#[test]
fn export_of_two_methods_keeps_their_order() {
    let out = impl_export(
        tokens(""),
        tokens("impl S { fn a(&self) {} fn b(&self, x: u8, (y, z): (u8, u8)) -> u8 { x } }"),
    )
    .to_string();
    let a = out.find("pub struct S_a ()").unwrap();
    let b = out.find("pub struct S_b ()").unwrap();
    assert!(a < b);
    // Only inputs with a plain identifier become fields; every typed input stays an argument
    // of the client's method.
    assert!(out.contains("pub struct __b_request { x : u8 }"));
    assert!(out.contains("pub async fn b (& self , x : u8 , (y , z) : (u8 , u8)) -> __b_response"));
    // No return type means `()`.
    assert!(out.contains("pub type __a_response = () ;"));
}

#[test]
fn export_request_names_are_snake_case() {
    let out = servify::export::export_source("impl S { fn getValue (& self) { } }").unwrap();
    assert!(out.contains("pub struct __get_value_request"));
    assert!(out.contains("pub type __get_value_response"));
    assert!(out.contains("async fn __internal_getValue"));
}

#[test]
fn export_refuses_the_first_item_that_is_not_a_method() {
    let refused = servify::export::export_source("impl A { fn a (& self) { } const B : u8 = 0 ; type T = u8 ; }").err().unwrap();
    assert_eq!(refused.message, "servify_macro::export cannot handle implementations other than functions.");
    assert_eq!(tokens(&refused.at).to_string(), tokens("const B : u8 = 0 ;").to_string());
}

#[test]
fn export_of_empty_block_is_empty() {
    assert_eq!(servify::export::export_source("impl A { }"), Ok(String::new()));
}

#[test]
fn item_read_from_what_parsing_gave() {
    let text = "fn a (& self , x : u8) { }";
    let item = read_impl_item(text);
    let inputs = match item.value() {
        Ok(Some(m)) => m.inputs.clone(),
        _ => panic!("not a method"),
    };
    assert_eq!(inputs.len(), 2);
    let read = item_read(text, item, read_args(&inputs));
    assert_eq!(read.text, text);
    assert!(matches!(read.reading, ItemReading::Method(m) if m.method.name == "a" && m.args.len() == 2));
    let text = "type T = u8 ;";
    let read = item_read(text, read_impl_item(text), vec![]);
    assert!(matches!(read.reading, ItemReading::Other));
    let text = "= ;";
    let read = item_read(text, read_impl_item(text), vec![]);
    assert!(matches!(read.reading, ItemReading::Unreadable(_)));
    // An input that cannot be read makes the method unreadable, with that input's error.
    let text = "fn a (& self) { }";
    let read = item_read(text, read_impl_item(text), read_args(&vec!["=".to_string()]));
    assert!(matches!(read.reading, ItemReading::Unreadable(_)));
}

#[test]
fn export_of_a_block_read() {
    let read = read_block("impl [u8] { fn a (& self) { } }");
    assert_eq!(read.items.len(), 1);
    assert!(read.path.is_none());
    assert_eq!(
        export_block(&read).err(),
        Some(Refusal {
            message: "servify_macro::export can only be used on impl blocks with a TypePath.".to_string(),
            at: "[u8]".to_string(),
        })
    );
    let read = read_block("impl S { fn a (& self) { } }");
    assert!(export_block(&read).unwrap().contains("pub struct S_a ()"));
    assert_eq!(export_block(&read_block("fn a () { }")).err().unwrap().at, "fn a () { }");
}

#[test]
fn macro_hands_on_code_or_message() {
    assert_eq!(hand_on(Ok("x".to_string())), Ok("x".to_string()));
    assert_eq!(
        hand_on(Err(Refusal { message: "m".to_string(), at: "a".to_string() })),
        Err("m".to_string())
    );
}
