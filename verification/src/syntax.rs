//! The boundary to `proc_macro2` and `syn`: lexing and printing token streams, and parsing
//! Rust syntax into the plain models of this crate.
//!
//! `proc_macro2` lexes and prints with the compiler's own implementation inside a
//! procedural macro and with its fallback implementation elsewhere (and a program may switch
//! between them), and the two can disagree on what a text lexes to. So nothing is stated here
//! of what a text parses to: the logic that decides on the results takes them as arguments,
//! and is verified for every value of them.
use vstd::prelude::*;
use crate::item::{FnArg, ImplBlock, Method, ReturnType, StructItem};
use crate::path::{PathSegment, QSelf, QualifiedPath};
use crate::refusal::{hand_on, Refusal};
use crate::tokens::{GroupDelimiter, Token};
use crate::text::owned;
use quote::ToTokens;

verus! {

#[verifier::external_type_specification]
#[verifier::external_body]
pub struct ExTokenStream(proc_macro2::TokenStream);

/// Prints a token stream (`Display` of `proc_macro2::TokenStream`). Nothing is stated of the
/// text: it is printed by whichever implementation made the stream.
#[verifier::external_body]
pub(crate) fn token_text(tokens: &proc_macro2::TokenStream) -> (res: String) {
    tokens.to_string()
}

/// Lexes `text` (`FromStr` of `proc_macro2::TokenStream`), or gives the message of the lexing
/// error. Nothing is stated of the outcome, which depends on the implementation in use.
#[verifier::external_body]
pub(crate) fn lex(text: &str) -> (res: Result<proc_macro2::TokenStream, String>) {
    match text.parse::<proc_macro2::TokenStream>() {
        Ok(tokens) => Ok(tokens),
        Err(e) => Err(e.to_string()),
    }
}

/// The tokens that `syn::Error::into_compile_error` emits for an error with `message` at the
/// call site: an invocation of the compiler's error macro with the message. Nothing is stated
/// of the tokens.
#[verifier::external_body]
pub(crate) fn error_tokens(message: &str) -> (res: proc_macro2::TokenStream) {
    syn::Error::new(proc_macro2::Span::call_site(), message).into_compile_error()
}

/// Emits the result of a macro as tokens: what `hand_on` gives of it is lexed where it is code
/// (the lexing error reported where it does not lex), and reported at the call site where it
/// is the message of a refusal. Nothing is stated of the tokens.
pub fn emit(result: Result<String, Refusal>) -> proc_macro2::TokenStream {
    match hand_on(result) {
        Ok(code) => match lex(code.as_str()) {
            Ok(tokens) => tokens,
            Err(e) => error_tokens(e.as_str()),
        },
        Err(message) => error_tokens(message.as_str()),
    }
}

#[verifier::external_type_specification]
#[verifier::external_body]
pub struct ExDelimiter(proc_macro2::Delimiter);

/// The delimiter of a `proc_macro2::Group`, one variant for each variant.
#[verifier::external_body]
fn delimiter(d: proc_macro2::Delimiter) -> GroupDelimiter {
    match d {
        proc_macro2::Delimiter::Parenthesis => GroupDelimiter::Parenthesis,
        proc_macro2::Delimiter::Brace => GroupDelimiter::Brace,
        proc_macro2::Delimiter::Bracket => GroupDelimiter::Bracket,
        proc_macro2::Delimiter::None => GroupDelimiter::Invisible,
    }
}

/// Lexes `text` (`FromStr` of `proc_macro2::TokenStream`) and returns its top-level token
/// trees, each group with its delimiter, the printed tokens it encloses and its
/// own printed text; or the message of the lexing error. Nothing is stated of the outcome.
#[verifier::external_body]
fn lex_token_trees(text: &str) -> (res: Result<Vec<Token>, String>) {
    match text.parse::<proc_macro2::TokenStream>() {
        Ok(tokens) => Ok(tokens.into_iter().map(|tree| match tree {
            proc_macro2::TokenTree::Group(g) => Token::Group {
                delimiter: delimiter(g.delimiter()),
                stream: g.stream().to_string(),
                text: g.to_string(),
            },
            proc_macro2::TokenTree::Ident(i) => Token::Ident(i.to_string()),
            proc_macro2::TokenTree::Punct(p) => Token::Punct { ch: p.as_char(), text: p.to_string() },
            proc_macro2::TokenTree::Literal(l) => Token::Literal(l.to_string()),
        }).collect()),
        Err(e) => Err(e.to_string()),
    }
}

/// Parses `text` as a `syn::TypePath` (`syn::parse_str`): its qualified self type, leading
/// `::`, and segments, each with its printed generic arguments; or the message of the error.
/// Stated: a parsed path has at least one segment (`syn::Path` is parsed as one or more
/// segments). Whether the text parses is not stated.
#[verifier::external_body]
fn parse_type_path(text: &str) -> (res: Result<QualifiedPath, String>)
    ensures
        res matches Ok(p) ==> p.segments@.len() > 0,
{
    match syn::parse_str::<syn::TypePath>(text) {
        Ok(p) => Ok(QualifiedPath {
            qself: p.qself.as_ref().map(|q| QSelf { ty: q.ty.to_token_stream().to_string(), position: q.position }),
            leading_colon: p.path.leading_colon.is_some(),
            segments: p.path.segments.iter().map(|s| PathSegment {
                ident: s.ident.to_string(),
                arguments: s.arguments.to_token_stream().to_string(),
            }).collect(),
        }),
        Err(e) => Err(e.to_string()),
    }
}

/// Parses `text` as a `syn::ItemImpl` (`syn::parse_str`): its printed self type, whether that
/// type is a `syn::Type::Path`, and each printed item; or the message of the error. Nothing is
/// stated of the outcome.
#[verifier::external_body]
fn parse_impl_block(text: &str) -> (res: Result<ImplBlock, String>) {
    match syn::parse_str::<syn::ItemImpl>(text) {
        Ok(block) => Ok(ImplBlock {
            self_ty: block.self_ty.to_token_stream().to_string(),
            self_is_path: matches!(*block.self_ty, syn::Type::Path(_)),
            items: block.items.iter().map(|i| i.to_token_stream().to_string()).collect(),
        }),
        Err(e) => Err(e.to_string()),
    }
}

/// Parses `text` as a `syn::ImplItem` (`syn::parse_str`): for a `syn::ImplItem::Fn`, its
/// name, each printed input, the printed input list, its return type and its printed body;
/// nothing for any other item; or the message of the error. Nothing is stated of the outcome.
#[verifier::external_body]
fn parse_impl_item(text: &str) -> (res: Result<Option<Method>, String>) {
    match syn::parse_str::<syn::ImplItem>(text) {
        Ok(syn::ImplItem::Fn(f)) => Ok(Some(Method {
            name: f.sig.ident.to_string(),
            inputs: f.sig.inputs.iter().map(|a| a.to_token_stream().to_string()).collect(),
            inputs_text: f.sig.inputs.to_token_stream().to_string(),
            output: match f.sig.output {
                syn::ReturnType::Default => ReturnType::Default,
                syn::ReturnType::Type(_, t) => ReturnType::Type(t.to_token_stream().to_string()),
            },
            body: f.block.to_token_stream().to_string(),
        })),
        Ok(_) => Ok(None),
        Err(e) => Err(e.to_string()),
    }
}

/// Parses `text` as a `syn::FnArg` (`syn::parse_str`): a receiver, or a typed input with its
/// identifier when its pattern is a `syn::Pat::Ident`; or the message of the error. Nothing is
/// stated of the outcome.
#[verifier::external_body]
fn parse_fn_arg(text: &str) -> (res: Result<FnArg, String>) {
    match syn::parse_str::<syn::FnArg>(text) {
        Ok(syn::FnArg::Receiver(r)) => Ok(FnArg::Receiver { text: r.to_token_stream().to_string() }),
        Ok(syn::FnArg::Typed(t)) => Ok(FnArg::Typed {
            pat_ident: match &*t.pat {
                syn::Pat::Ident(p) => Some(p.ident.to_string()),
                _ => None,
            },
            ty: t.ty.to_token_stream().to_string(),
            text: t.to_token_stream().to_string(),
        }),
        Err(e) => Err(e.to_string()),
    }
}

/// Parses `text` as a `syn::ItemStruct` (`syn::parse_str`): its name and printed fields; or
/// the message of the error. Nothing is stated of the outcome.
#[verifier::external_body]
fn parse_item_struct(text: &str) -> (res: Result<StructItem, String>) {
    match syn::parse_str::<syn::ItemStruct>(text) {
        Ok(s) => Ok(StructItem { ident: s.ident.to_string(), fields: s.fields.to_token_stream().to_string() }),
        Err(e) => Err(e.to_string()),
    }
}

/// Parses `text` as a `syn::Ident` (`syn::parse_str`), which is not a keyword; or gives the
/// message of the error. Nothing is stated of the outcome.
#[verifier::external_body]
fn parse_ident(text: &str) -> (res: Result<String, String>) {
    match syn::parse_str::<syn::Ident>(text) {
        Ok(i) => Ok(i.to_string()),
        Err(e) => Err(e.to_string()),
    }
}

/// Parses `text` as `syn::TypePath`s separated by commas, a trailing comma allowed
/// (`syn::punctuated::Punctuated::parse_terminated`), and returns each printed path; or the
/// message of the error. Nothing is stated of the outcome.
#[verifier::external_body]
fn parse_path_list(text: &str) -> (res: Result<Vec<String>, String>) {
    let parser = syn::punctuated::Punctuated::<syn::TypePath, syn::token::Comma>::parse_terminated;
    match syn::parse::Parser::parse_str(parser, text) {
        Ok(paths) => Ok(paths.iter().map(|p| p.to_token_stream().to_string()).collect()),
        Err(e) => Err(e.to_string()),
    }
}

/// What reading a text gave: the text that was read, and the value read or the message of
/// the error. Only this module makes one, each from the text it hands to the reading.
pub struct Parsed<T> {
    source: String,
    value: Result<T, String>,
}

impl<T> Parsed<T> {
    /// The text that was read.
    pub closed spec fn source(self) -> Seq<char> {
        self.source@
    }

    /// What reading it gave.
    pub closed spec fn outcome(self) -> Result<T, String> {
        self.value
    }

    pub fn value(&self) -> (res: &Result<T, String>)
        ensures
            *res == self.outcome(),
    {
        &self.value
    }

    pub fn source_text(&self) -> (res: &String)
        ensures
            res@ == self.source(),
    {
        &self.source
    }

    pub fn into_value(self) -> (res: Result<T, String>)
        ensures
            res == self.outcome(),
    {
        self.value
    }
}

fn parsed<T>(text: &str, value: Result<T, String>) -> (res: Parsed<T>)
    ensures
        res.source() == text@,
        res.outcome() == value,
{
    Parsed { source: owned(text), value }
}

/// Lexes `text` into its top-level token trees (see `lex_token_trees`).
pub fn read_token_trees(text: &str) -> (res: Parsed<Vec<Token>>)
    ensures
        res.source() == text@,
{
    parsed(text, lex_token_trees(text))
}

/// Reads `text` as a type path (see `parse_type_path`); a path read has a segment.
pub fn read_type_path(text: &str) -> (res: Parsed<QualifiedPath>)
    ensures
        res.source() == text@,
        res.outcome() matches Ok(p) ==> p.segments@.len() > 0,
{
    parsed(text, parse_type_path(text))
}

/// Reads `text` as an impl block (see `parse_impl_block`).
pub fn read_impl_block(text: &str) -> (res: Parsed<ImplBlock>)
    ensures
        res.source() == text@,
{
    parsed(text, parse_impl_block(text))
}

/// Reads `text` as an item of an impl block (see `parse_impl_item`).
pub fn read_impl_item(text: &str) -> (res: Parsed<Option<Method>>)
    ensures
        res.source() == text@,
{
    parsed(text, parse_impl_item(text))
}

/// Reads `text` as an input of a method (see `parse_fn_arg`).
pub fn read_fn_arg(text: &str) -> (res: Parsed<FnArg>)
    ensures
        res.source() == text@,
{
    parsed(text, parse_fn_arg(text))
}

/// Reads `text` as a struct (see `parse_item_struct`).
pub fn read_item_struct(text: &str) -> (res: Parsed<StructItem>)
    ensures
        res.source() == text@,
{
    parsed(text, parse_item_struct(text))
}

/// Reads `text` as an identifier that is not a keyword (see `parse_ident`).
pub fn read_ident(text: &str) -> (res: Parsed<String>)
    ensures
        res.source() == text@,
{
    parsed(text, parse_ident(text))
}

/// Reads `text` as a list of type paths, each printed (see `parse_path_list`).
pub fn read_path_list(text: &str) -> (res: Parsed<Vec<String>>)
    ensures
        res.source() == text@,
{
    parsed(text, parse_path_list(text))
}

} // verus!
