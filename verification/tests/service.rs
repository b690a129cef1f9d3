use proc_macro2::TokenStream;
use servify::item::StructItem;
use servify::syntax::read_ident;
use servify::tokens::{GroupDelimiter, Token};
use servify::service::{impl_service, service_source, ServiceParentAttrs};

fn tokens(text: &str) -> TokenStream {
    text.parse().unwrap()
}

#[test]
fn single() {
    assert_eq!(
        impl_service(
            tokens("impls = [SomeStruct_increment],"),
            tokens("struct SomeStruct { pub count: u32, }"),
        )
        .to_string(),
        tokens(
            "#[allow(non_snake_case)]
            mod SomeStruct {
                pub enum Message {
                    Increment(
                        <super::SomeStruct_increment as ::servify::ServifyExport> ::Request,
                        ::tokio::sync::oneshot::Sender<<super::SomeStruct_increment as ::servify::ServifyExport> ::Response> ,
                    ),
                }

                pub struct Server {
                    pub count: u32,
                }

                #[derive(Clone)]
                pub struct Client {
                    tx: ::tokio::sync::mpsc::Sender<Message> ,
                }

                impl Server {
                    pub async fn listen(&mut self, mut rx: ::tokio::sync::mpsc::Receiver<Message>) {
                        while let Some(msg) = rx.recv().await {
                            match msg {
                                Message::Increment(req, tx) => {
                                    let res = self.increment(req).await;
                                    tx.send(res).unwrap();
                                },
                            }
                        }
                    }
                }

                #[doc(hidden)]
                pub async fn __internal_increment(
                    client: &Client,
                    req: <super::SomeStruct_increment as ::servify::ServifyExport> ::Request,
                ) ->  <super::SomeStruct_increment as ::servify::ServifyExport> ::Response {
                    let (tx, rx) = ::tokio::sync::oneshot::channel();
                    client.tx.send(Message::Increment(req, tx)).await.unwrap();
                    rx.await.unwrap()
                }

                pub fn initiate_message_passing(buffer: usize) -> (::tokio::sync::mpsc::Receiver<Message> , Client) {
                    let (tx, rx) = ::tokio::sync::mpsc::channel(buffer);
                    let client = Client { tx };
                    (rx, client)
                }
            }"
        )
        .to_string(),
    );
}

#[test]
fn service_reads_repeated_impls_and_skips_foreign_names() {
    let attrs = servify::service::ServiceParentAttrs::parse("impls = [C_get_value] , impls = [other :: D_x , C_reset]").unwrap();
    let out = attrs.parse_item("struct C { pub n : u32 , }").unwrap();
    let lexed = tokens(&out).to_string();
    // `D_x` does not begin with the service's name, so it contributes nothing.
    assert!(!lexed.contains("D_x"));
    assert!(lexed.contains("GetValue (< super :: C_get_value as :: servify :: ServifyExport > :: Request"));
    assert!(lexed.contains("Message :: Reset (req , tx) => { let res = self . reset (req) . await ;"));
    assert!(lexed.contains("pub async fn __internal_get_value (client : & Client"));
    let get = lexed.find("__internal_get_value").unwrap();
    let reset = lexed.find("__internal_reset").unwrap();
    assert!(get < reset);
}

#[test]
fn service_keeps_rooted_marker_paths() {
    let out = service_source("impls = [crate :: m :: C_a , :: x :: C_b]", "struct C { }").unwrap();
    let lexed = tokens(&out).to_string();
    assert!(lexed.contains("< crate :: m :: C_a as"));
    assert!(lexed.contains("< :: x :: C_b as"));
}

fn refusal_of(attrs: &str, item: &str) -> (String, String) {
    let refused = service_source(attrs, item).err().unwrap();
    (refused.message, refused.at)
}

#[test]
fn service_argument_errors() {
    assert_eq!(refusal_of("impl = [C_a]", "struct C {}"), ("expected identifier, found keyword `impl`".to_string(), "impl".to_string()));
    assert_eq!(refusal_of("methods = [C_a]", "struct C {}"), ("Unknown property. expected `impls`".to_string(), "methods".to_string()));
    assert_eq!(refusal_of("impls [C_a]", "struct C {}"), ("expected `=`".to_string(), "[C_a]".to_string()));
    assert_eq!(refusal_of("impls", "struct C {}"), ("expected `=`".to_string(), String::new()));
    assert_eq!(refusal_of("impls = (C_a)", "struct C {}"), ("expected square brackets".to_string(), "(C_a)".to_string()));
    assert_eq!(
        refusal_of("impls =", "struct C {}"),
        ("unexpected end of input, expected square brackets".to_string(), String::new())
    );
    assert_eq!(refusal_of("1", "struct C {}"), ("expected identifier".to_string(), "1".to_string()));
    // A later error is reported even after good arguments: no partial result.
    assert_eq!(refusal_of("impls = [C_a] , foo = [C_b]", "struct C {}").1, "foo".to_string());
}

#[test]
fn service_refuses_listed_names_that_leave_no_method_name() {
    let (_, at) = refusal_of("impls = [Counter]", "struct Counter { }");
    assert_eq!(at, "Counter");
    let (_, at) = refusal_of("impls = [Counter_get , Counter_]", "struct Counter { }");
    assert_eq!(at, "Counter_");
    let (_, at) = refusal_of("impls = [Counter_1x]", "struct Counter { }");
    assert_eq!(at, "Counter_1x");
    // A name that does not begin with the service's name is still skipped.
    assert!(service_source("impls = [Other]", "struct Counter { }").is_ok());
}

#[test]
fn service_with_no_arguments_serves_nothing() {
    let out = service_source("", "struct C;").unwrap();
    let lexed = tokens(&out).to_string();
    assert!(lexed.contains("pub enum Message { }"));
    assert!(lexed.contains("match msg { }"));
}

#[test]
fn service_calls_what_export_defines() {
    let exported = servify::export::export_source("impl Counter { fn get_value (& self) -> u32 { self . count } }").unwrap();
    let exported = tokens(&exported).to_string();
    let served = service_source("impls = [Counter_get_value]", "struct Counter { pub count : u32 , }").unwrap();
    let served = tokens(&served).to_string();
    // The marker type that export defines is the one the service lists.
    assert!(exported.contains("pub struct Counter_get_value ()"));
    // The client calls the internal function that the service defines...
    assert!(exported.contains("Counter :: __internal_get_value (self"));
    assert!(served.contains("pub async fn __internal_get_value (client : & Client"));
    // ...and the server's loop calls the server method that export defines.
    assert!(served.contains("let res = self . get_value (req) . await"));
    assert!(exported.contains("impl Counter :: Server { pub async fn get_value (& mut self , req : __get_value_request)"));
}

#[test]
fn service_module_refuses_by_the_name_checks() {
    let server = StructItem { ident: "C".to_string(), fields: "{ }".to_string() };
    let attrs = ServiceParentAttrs::parse("impls = [D_x , C_a , C_b]").unwrap();
    let refused = attrs
        .service_module(&server, &vec![None, Some(read_ident("a")), Some(read_ident("1b"))])
        .err()
        .unwrap();
    assert_eq!(refused.at, "C_b".to_string());
    let attrs = ServiceParentAttrs::parse("impls = [C_a]").unwrap();
    let out = attrs.service_module(&server, &vec![]).unwrap();
    assert!(tokens(&out).to_string().contains("Message :: A (req , tx)"));
}

#[test]
fn service_arguments_from_lexed_tokens() {
    let tokens = vec![
        Token::Ident("impls".to_string()),
        Token::Punct { ch: '=', text: "=".to_string() },
        Token::Group { delimiter: GroupDelimiter::Bracket, stream: "C_a , C_b".to_string(), text: "[C_a , C_b]".to_string() },
    ];
    let attrs = ServiceParentAttrs::from_tokens(&tokens).unwrap();
    let out = attrs.parse_item("struct C { }").unwrap();
    let lexed = tokens_of(&out);
    assert!(lexed.contains("Message :: A (req , tx)"));
    assert!(lexed.contains("Message :: B (req , tx)"));
    let tokens = vec![
        Token::Ident("impls".to_string()),
        Token::Literal("1".to_string()),
    ];
    assert_eq!(
        ServiceParentAttrs::from_tokens(&tokens).err().map(|r| (r.message, r.at)),
        Some(("expected `=`".to_string(), "1".to_string()))
    );
}

fn tokens_of(text: &str) -> String {
    tokens(text).to_string()
}
