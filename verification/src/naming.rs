//! The names that the macros derive from a service's name and a method's name. The
//! `export` side and the `service` side must agree on them.
use vstd::prelude::*;
use vstd::string::*;
use crate::casing::{camel_case, snake_case, to_camel, to_snake};
use crate::text::{owned, strip_prefix, strip_prefix_spec, trim_start_char, trim_start_matches};

verus! {

/// `Counter` and `increment` give `Counter_increment`: the name under which a method is
/// exported, and which the service lists.
pub open spec fn export_name(service: Seq<char>, method: Seq<char>) -> Seq<char> {
    service + "_"@ + method
}

/// The name of the struct that carries a method's arguments: `__{method in snake case}_request`.
pub open spec fn request_name(method: Seq<char>) -> Seq<char> {
    "__"@ + snake_case(method) + "_request"@
}

/// The name of the alias of a method's return type: `__{method in snake case}_response`.
pub open spec fn response_name(method: Seq<char>) -> Seq<char> {
    "__"@ + snake_case(method) + "_response"@
}

/// The name of the function that holds a method's work: `__internal_{method}`.
pub open spec fn internal_fn_name(method: Seq<char>) -> Seq<char> {
    "__internal_"@ + method
}

/// The message variant that carries calls of a method: the method's name in camel case.
pub open spec fn variant_name(method: Seq<char>) -> Seq<char> {
    camel_case(method)
}

/// The method that a listed export name stands for: what follows the service's name,
/// without the underscores that begin it; nothing when the export name does not begin
/// with the service's name.
pub open spec fn method_of_export(service: Seq<char>, export: Seq<char>) -> Option<Seq<char>> {
    match strip_prefix_spec(export, service) {
        Some(rest) => Some(trim_start_char(rest, '_')),
        None => None,
    }
}

pub fn make_export_name(service: &str, method: &str) -> (res: String)
    ensures
        res@ == export_name(service@, method@),
{
    let mut s = owned(service);
    s.append("_");
    s.append(method);
    s
}

pub fn make_request_name(method: &str) -> (res: String)
    ensures
        res@ == request_name(method@),
{
    let mut s = owned("__");
    let snake = to_snake(method);
    s.append(snake.as_str());
    s.append("_request");
    s
}

pub fn make_response_name(method: &str) -> (res: String)
    ensures
        res@ == response_name(method@),
{
    let mut s = owned("__");
    let snake = to_snake(method);
    s.append(snake.as_str());
    s.append("_response");
    s
}

pub fn make_internal_fn_name(method: &str) -> (res: String)
    ensures
        res@ == internal_fn_name(method@),
{
    let mut s = owned("__internal_");
    s.append(method);
    s
}

pub fn make_variant_name(method: &str) -> (res: String)
    ensures
        res@ == variant_name(method@),
{
    to_camel(method)
}

pub fn find_method_of_export(service: &str, export: &str) -> (res: Option<String>)
    ensures
        match res {
            Some(m) => method_of_export(service@, export@) == Some(m@),
            None => method_of_export(service@, export@) is None,
        },
{
    match strip_prefix(export, service) {
        Some(rest) => Some(trim_start_matches(rest.as_str(), '_')),
        None => None,
    }
}

} // verus!
