//! The export of an impl block on a service: each method becomes a request struct, a
//! response alias, a method of the service's `Server` that takes the request, a method of
//! its `Client` that sends it, and a marker type that names the pair.
use vstd::prelude::*;
use vstd::string::*;
use crate::item::{FnArg, FnArgView, ImplBlock, Method, MethodView};
use crate::naming::{
    export_name, internal_fn_name, make_export_name, make_internal_fn_name, make_request_name,
    make_response_name, request_name, response_name,
};
use crate::path::{path_text, plain_segment, QualifiedPath, QualifiedPathView};
use crate::refusal::{outcome, refusal, refused, Refusal, RefusalView};
use crate::syntax::{emit, read_fn_arg, read_impl_block, read_impl_item, read_type_path, token_text, Parsed};
use crate::text::{join, owned, push_joined, views};

verus! {

/// The fields of the request struct: the identifier and type of each typed input whose
/// pattern is a plain identifier, in order.
pub open spec fn request_fields(args: Seq<FnArgView>) -> Seq<(Seq<char>, Seq<char>)>
    decreases args.len(),
{
    if args.len() == 0 {
        Seq::empty()
    } else {
        request_fields(args.drop_last()) + match args.last() {
            FnArgView::Typed { pat_ident: Some(i), ty, .. } => seq![(i, ty)],
            _ => Seq::empty(),
        }
    }
}

/// The text of each typed input, in order: the client's method takes these.
pub open spec fn typed_inputs(args: Seq<FnArgView>) -> Seq<Seq<char>>
    decreases args.len(),
{
    if args.len() == 0 {
        Seq::empty()
    } else {
        typed_inputs(args.drop_last()) + match args.last() {
            FnArgView::Typed { text, .. } => seq![text],
            _ => Seq::empty(),
        }
    }
}

/// `name : Type`, the declaration of a field.
pub open spec fn decl_of(f: (Seq<char>, Seq<char>)) -> Seq<char> {
    f.0 + " : "@ + f.1
}

/// `req . name`, the read of a field of the request.
pub open spec fn read_of(f: (Seq<char>, Seq<char>)) -> Seq<char> {
    "req . "@ + f.0
}

pub open spec fn field_decls(fields: Seq<(Seq<char>, Seq<char>)>) -> Seq<char> {
    join(fields.map_values(|f: (Seq<char>, Seq<char>)| decl_of(f)), " , "@)
}

pub open spec fn field_reads(fields: Seq<(Seq<char>, Seq<char>)>) -> Seq<char> {
    join(fields.map_values(|f: (Seq<char>, Seq<char>)| read_of(f)), " , "@)
}

pub open spec fn field_names(fields: Seq<(Seq<char>, Seq<char>)>) -> Seq<char> {
    join(fields.map_values(|f: (Seq<char>, Seq<char>)| f.0), " , "@)
}

pub open spec fn allow_camel() -> Seq<char> {
    "# [allow (non_camel_case_types)] "@
}

/// `pub type __{m}_response = {return type};`
pub open spec fn response_alias_text(m: MethodView) -> Seq<char> {
    allow_camel() + "pub type "@ + response_name(m.name) + " = "@ + m.output.to_type() + " ; "@
}

/// `#[derive(Clone)] pub struct __{m}_request { fields }`
pub open spec fn request_struct_text(m: MethodView, args: Seq<FnArgView>) -> Seq<char> {
    allow_camel() + "# [derive (Clone)] pub struct "@ + request_name(m.name) + " { "@
        + field_decls(request_fields(args)) + " } "@
}

/// The server's method, which unpacks the request, and the internal function, which is
/// the method as written.
pub open spec fn server_impl_text(path: QualifiedPathView, m: MethodView, args: Seq<FnArgView>) -> Seq<char> {
    "impl "@ + path_text(path.push_segment(plain_segment("Server"@))) + " { pub async fn "@ + m.name
        + " (& mut self , req : "@ + request_name(m.name) + ") -> "@ + response_name(m.name)
        + " { self . "@ + internal_fn_name(m.name) + " ("@ + field_reads(request_fields(args))
        + ") . await } async fn "@ + internal_fn_name(m.name) + " ("@ + m.inputs_text + ") -> "@
        + response_name(m.name) + " "@ + m.body + " } "@
}

/// The client's method, which packs its arguments into the request and hands it to the
/// service module's internal function of the same name.
pub open spec fn client_impl_text(path: QualifiedPathView, m: MethodView, args: Seq<FnArgView>) -> Seq<char> {
    "impl "@ + path_text(path.push_segment(plain_segment("Client"@))) + " { pub async fn "@ + m.name
        + " (& self , "@ + join(typed_inputs(args), " , "@) + ") -> "@ + response_name(m.name)
        + " { "@ + path_text(path) + " :: "@ + internal_fn_name(m.name) + " (self , "@
        + request_name(m.name) + " { "@ + field_names(request_fields(args)) + " }) . await } } "@
}

/// The marker type `{Service}_{m}`, which names the request and response types.
pub open spec fn marker_text(path: QualifiedPathView, m: MethodView) -> Seq<char> {
    allow_camel() + "pub struct "@ + export_name(path.segments.last().ident, m.name)
        + " () ; impl :: servify :: ServifyExport for "@ + export_name(path.segments.last().ident, m.name)
        + " { type Request = "@ + request_name(m.name) + " ; type Response = "@ + response_name(m.name)
        + " ; } "@
}

/// Everything that the export of method `m`, whose inputs are `args`, of the service at
/// `path` consists of.
pub open spec fn method_export_text(path: QualifiedPathView, m: MethodView, args: Seq<FnArgView>) -> Seq<char> {
    response_alias_text(m) + request_struct_text(m, args) + server_impl_text(path, m, args)
        + client_impl_text(path, m, args) + marker_text(path, m)
}

/// The pieces of the request struct and of the two methods that pass it on: field
/// declarations, field reads, field names, and the typed inputs.
struct FieldLists {
    decls: Vec<String>,
    reads: Vec<String>,
    names: Vec<String>,
    typed: Vec<String>,
}

fn field_lists(args: &Vec<FnArg>) -> (res: FieldLists)
    ensures
        views(res.decls@) == request_fields(args@.map_values(|a: FnArg| a@)).map_values(
            |f: (Seq<char>, Seq<char>)| decl_of(f),
        ),
        views(res.reads@) == request_fields(args@.map_values(|a: FnArg| a@)).map_values(
            |f: (Seq<char>, Seq<char>)| read_of(f),
        ),
        views(res.names@) == request_fields(args@.map_values(|a: FnArg| a@)).map_values(
            |f: (Seq<char>, Seq<char>)| f.0,
        ),
        views(res.typed@) == typed_inputs(args@.map_values(|a: FnArg| a@)),
{
    let ghost av = args@.map_values(|a: FnArg| a@);
    let mut decls: Vec<String> = Vec::new();
    let mut reads: Vec<String> = Vec::new();
    let mut names: Vec<String> = Vec::new();
    let mut typed: Vec<String> = Vec::new();
    let n = args.len();
    let mut i: usize = 0;
    while i < n
        invariant
            n == args@.len(),
            av == args@.map_values(|a: FnArg| a@),
            i <= n,
            decls@.len() == request_fields(av.take(i as int)).len(),
            reads@.len() == request_fields(av.take(i as int)).len(),
            names@.len() == request_fields(av.take(i as int)).len(),
            typed@.len() == typed_inputs(av.take(i as int)).len(),
            forall|j: int| 0 <= j < decls@.len() ==> #[trigger] decls@[j]@ == decl_of(request_fields(av.take(i as int))[j]),
            forall|j: int| 0 <= j < reads@.len() ==> #[trigger] reads@[j]@ == read_of(request_fields(av.take(i as int))[j]),
            forall|j: int| 0 <= j < names@.len() ==> #[trigger] names@[j]@ == request_fields(av.take(i as int))[j].0,
            forall|j: int| 0 <= j < typed@.len() ==> #[trigger] typed@[j]@ == typed_inputs(av.take(i as int))[j],
        decreases n - i,
    {
        let ghost t = av.take(i as int + 1);
        let ghost fs = request_fields(av.take(i as int));
        let ghost ts = typed_inputs(av.take(i as int));
        proof {
            assert(t.drop_last() =~= av.take(i as int));
            assert(t.last() == args@[i as int]@);
        }
        match &args[i] {
            FnArg::Typed { pat_ident, ty, text } => {
                match pat_ident {
                    Some(ident) => {
                        let mut d = ident.clone();
                        d.append(" : ");
                        d.append(ty.as_str());
                        decls.push(d);
                        let mut r = owned("req . ");
                        r.append(ident.as_str());
                        reads.push(r);
                        names.push(ident.clone());
                        assert(request_fields(t) == fs.push((ident@, ty@)));
                    },
                    None => {
                        assert(request_fields(t) =~= fs);
                    },
                }
                typed.push(text.clone());
                assert(typed_inputs(t) == ts.push(text@));
            },
            FnArg::Receiver { .. } => {
                assert(request_fields(t) =~= fs);
                assert(typed_inputs(t) =~= ts);
            },
        }
        i = i + 1;
    }
    proof {
        assert(av.take(n as int) =~= av);
        assert(views(decls@) =~= request_fields(av).map_values(|f: (Seq<char>, Seq<char>)| decl_of(f)));
        assert(views(reads@) =~= request_fields(av).map_values(|f: (Seq<char>, Seq<char>)| read_of(f)));
        assert(views(names@) =~= request_fields(av).map_values(|f: (Seq<char>, Seq<char>)| f.0));
        assert(views(typed@) =~= typed_inputs(av));
    }
    FieldLists { decls, reads, names, typed }
}

fn response_alias(m: &Method, response: &String) -> (res: String)
    requires
        response@ == response_name(m@.name),
    ensures
        res@ == response_alias_text(m@),
{
    let ret = match &m.output {
        crate::item::ReturnType::Default => owned("()"),
        crate::item::ReturnType::Type(t) => t.clone(),
    };
    let mut out = owned("# [allow (non_camel_case_types)] ");
    out.append("pub type ");
    out.append(response.as_str());
    out.append(" = ");
    out.append(ret.as_str());
    out.append(" ; ");
    out
}

fn request_struct(m: &Method, args: &Vec<FnArg>, request: &String, lists: &FieldLists) -> (res: String)
    requires
        request@ == request_name(m@.name),
        views(lists.decls@) == request_fields(args@.map_values(|a: FnArg| a@)).map_values(
            |f: (Seq<char>, Seq<char>)| decl_of(f),
        ),
    ensures
        res@ == request_struct_text(m@, args@.map_values(|a: FnArg| a@)),
{
    let mut out = owned("# [allow (non_camel_case_types)] ");
    out.append("# [derive (Clone)] pub struct ");
    out.append(request.as_str());
    out.append(" { ");
    push_joined(&mut out, &lists.decls, " , ");
    out.append(" } ");
    out
}

fn server_impl(path: &QualifiedPath, m: &Method, args: &Vec<FnArg>, request: &String, response: &String, internal: &String, lists: &FieldLists) -> (res: String)
    requires
        request@ == request_name(m@.name),
        response@ == response_name(m@.name),
        internal@ == internal_fn_name(m@.name),
        views(lists.reads@) == request_fields(args@.map_values(|a: FnArg| a@)).map_values(
            |f: (Seq<char>, Seq<char>)| read_of(f),
        ),
    ensures
        res@ == server_impl_text(path@, m@, args@.map_values(|a: FnArg| a@)),
{
    let server = path.duplicate().with_trail_ident("Server").to_text();
    let mut out = owned("impl ");
    out.append(server.as_str());
    out.append(" { pub async fn ");
    out.append(m.name.as_str());
    out.append(" (& mut self , req : ");
    out.append(request.as_str());
    out.append(") -> ");
    out.append(response.as_str());
    out.append(" { self . ");
    out.append(internal.as_str());
    out.append(" (");
    push_joined(&mut out, &lists.reads, " , ");
    out.append(") . await } async fn ");
    out.append(internal.as_str());
    out.append(" (");
    out.append(m.inputs_text.as_str());
    out.append(") -> ");
    out.append(response.as_str());
    out.append(" ");
    out.append(m.body.as_str());
    out.append(" } ");
    out
}

fn client_impl(path: &QualifiedPath, m: &Method, args: &Vec<FnArg>, request: &String, response: &String, internal: &String, lists: &FieldLists) -> (res: String)
    requires
        request@ == request_name(m@.name),
        response@ == response_name(m@.name),
        internal@ == internal_fn_name(m@.name),
        views(lists.names@) == request_fields(args@.map_values(|a: FnArg| a@)).map_values(
            |f: (Seq<char>, Seq<char>)| f.0,
        ),
        views(lists.typed@) == typed_inputs(args@.map_values(|a: FnArg| a@)),
    ensures
        res@ == client_impl_text(path@, m@, args@.map_values(|a: FnArg| a@)),
{
    let client = path.duplicate().with_trail_ident("Client").to_text();
    let service = path.to_text();
    let mut out = owned("impl ");
    out.append(client.as_str());
    out.append(" { pub async fn ");
    out.append(m.name.as_str());
    out.append(" (& self , ");
    push_joined(&mut out, &lists.typed, " , ");
    out.append(") -> ");
    out.append(response.as_str());
    out.append(" { ");
    out.append(service.as_str());
    out.append(" :: ");
    out.append(internal.as_str());
    out.append(" (self , ");
    out.append(request.as_str());
    out.append(" { ");
    push_joined(&mut out, &lists.names, " , ");
    out.append(" }) . await } } ");
    out
}

fn marker(path: &QualifiedPath, m: &Method, request: &String, response: &String) -> (res: String)
    requires
        path.segments@.len() > 0,
        request@ == request_name(m@.name),
        response@ == response_name(m@.name),
    ensures
        res@ == marker_text(path@, m@),
{
    let export = make_export_name(path.last_ident().as_str(), m.name.as_str());
    let mut out = owned("# [allow (non_camel_case_types)] ");
    out.append("pub struct ");
    out.append(export.as_str());
    out.append(" () ; impl :: servify :: ServifyExport for ");
    out.append(export.as_str());
    out.append(" { type Request = ");
    out.append(request.as_str());
    out.append(" ; type Response = ");
    out.append(response.as_str());
    out.append(" ; } ");
    out
}

/// The export of method `m`, whose inputs are `args`, of the service at `path`.
pub fn export_method(path: &QualifiedPath, m: &Method, args: &Vec<FnArg>) -> (res: String)
    requires
        path.segments@.len() > 0,
    ensures
        res@ == method_export_text(path@, m@, args@.map_values(|a: FnArg| a@)),
{
    let lists = field_lists(args);
    let name = m.name.as_str();
    let request = make_request_name(name);
    let response = make_response_name(name);
    let internal = make_internal_fn_name(name);
    let mut out = response_alias(m, &response);
    let part = request_struct(m, args, &request, &lists);
    out.append(part.as_str());
    let part = server_impl(path, m, args, &request, &response, &internal, &lists);
    out.append(part.as_str());
    let part = client_impl(path, m, args, &request, &response, &internal, &lists);
    out.append(part.as_str());
    let part = marker(path, m, &request, &response);
    out.append(part.as_str());
    out
}

/// Refusal of an impl block whose self type is not a path.
pub const NOT_A_PATH: &'static str = "servify_macro::export can only be used on impl blocks with a TypePath.";

/// Refusal of an item of the impl block that is not a method.
pub const NOT_A_METHOD: &'static str = "servify_macro::export cannot handle implementations other than functions.";

/// A method of an impl block, with each of its inputs read.
pub struct ExportedMethod {
    pub method: Method,
    pub args: Vec<FnArg>,
}

pub struct ExportedMethodView {
    pub method: MethodView,
    pub args: Seq<FnArgView>,
}

impl View for ExportedMethod {
    type V = ExportedMethodView;

    open spec fn view(&self) -> ExportedMethodView {
        ExportedMethodView { method: self.method@, args: self.args@.map_values(|a: FnArg| a@) }
    }
}

/// What reading an item of an impl block gave: a method, an item of another kind, or the
/// message of the error that reading it met.
pub enum ItemReading {
    Method(ExportedMethod),
    Other,
    Unreadable(String),
}

pub enum ItemReadingView {
    Method(ExportedMethodView),
    Other,
    Unreadable(Seq<char>),
}

/// An item of an impl block: its text, and what reading it gave.
pub struct ItemRead {
    pub text: String,
    pub reading: ItemReading,
}

pub struct ItemReadView {
    pub text: Seq<char>,
    pub reading: ItemReadingView,
}

impl View for ItemReading {
    type V = ItemReadingView;

    open spec fn view(&self) -> ItemReadingView {
        match self {
            ItemReading::Method(m) => ItemReadingView::Method(m@),
            ItemReading::Other => ItemReadingView::Other,
            ItemReading::Unreadable(e) => ItemReadingView::Unreadable(e@),
        }
    }
}

impl View for ItemRead {
    type V = ItemReadView;

    open spec fn view(&self) -> ItemReadView {
        ItemReadView { text: self.text@, reading: self.reading@ }
    }
}

pub open spec fn item_views(items: Seq<ItemRead>) -> Seq<ItemReadView> {
    items.map_values(|i: ItemRead| i@)
}

/// The refusal of the first item that is not a method, if any: `other` is the message for
/// an item of another kind; an item that could not be read is refused with the message of
/// its error. Each refusal is about the item's text.
pub open spec fn first_refusal(items: Seq<ItemReadView>, other: Seq<char>) -> Option<RefusalView>
    decreases items.len(),
{
    if items.len() == 0 {
        None
    } else {
        match first_refusal(items.drop_last(), other) {
            Some(r) => Some(r),
            None => match items.last().reading {
                ItemReadingView::Method(_) => None,
                ItemReadingView::Other => Some(refused(other, items.last().text)),
                ItemReadingView::Unreadable(e) => Some(refused(e, items.last().text)),
            },
        }
    }
}

/// The methods among the items, in order.
pub open spec fn item_methods(items: Seq<ItemReadView>) -> Seq<ExportedMethodView>
    decreases items.len(),
{
    if items.len() == 0 {
        Seq::empty()
    } else {
        item_methods(items.drop_last()) + match items.last().reading {
            ItemReadingView::Method(m) => seq![m],
            _ => Seq::empty(),
        }
    }
}

/// The exports of the methods `ms` of the service at `path`, one after the other.
pub open spec fn methods_text(path: QualifiedPathView, ms: Seq<ExportedMethodView>) -> Seq<char>
    decreases ms.len(),
{
    if ms.len() == 0 {
        Seq::empty()
    } else {
        methods_text(path, ms.drop_last()) + method_export_text(path, ms.last().method, ms.last().args)
    }
}

/// What the export of the items of an impl block on the service at `path` gives: the exports
/// of its methods in order, or the refusal of the first item that is not a method.
pub open spec fn items_export(path: QualifiedPathView, items: Seq<ItemReadView>) -> Result<Seq<char>, RefusalView> {
    match first_refusal(items, NOT_A_METHOD@) {
        Some(r) => Err(r),
        None => Ok(methods_text(path, item_methods(items))),
    }
}

proof fn lemma_first_refusal_stays(items: Seq<ItemReadView>, other: Seq<char>, k: int)
    requires
        0 <= k <= items.len(),
        first_refusal(items.take(k), other) is Some,
    ensures
        first_refusal(items, other) == first_refusal(items.take(k), other),
    decreases items.len() - k,
{
    if k < items.len() {
        let t = items.take(k + 1);
        assert(t.drop_last() =~= items.take(k));
        lemma_first_refusal_stays(items, other, k + 1);
    } else {
        assert(items.take(k) =~= items);
    }
}

/// The refusal of the first of `items` that is not a method, if any; `other` is the message
/// for an item of another kind.
pub fn find_refusal(items: &Vec<ItemRead>, other: &str) -> (res: Option<Refusal>)
    ensures
        match res {
            Some(r) => first_refusal(item_views(items@), other@) == Some(r@),
            None => first_refusal(item_views(items@), other@) is None,
        },
{
    let ghost vs = item_views(items@);
    let n = items.len();
    let mut i: usize = 0;
    while i < n
        invariant
            n == items@.len(),
            vs == item_views(items@),
            i <= n,
            first_refusal(vs.take(i as int), other@) is None,
        decreases n - i,
    {
        let ghost t = vs.take(i as int + 1);
        proof {
            assert(t.drop_last() =~= vs.take(i as int));
            assert(t.last() == items@[i as int]@);
        }
        let item = &items[i];
        match &item.reading {
            ItemReading::Method(_) => {},
            ItemReading::Other => {
                let r = refusal(other, item.text.as_str());
                proof {
                    lemma_first_refusal_stays(vs, other@, i as int + 1);
                }
                return Some(r);
            },
            ItemReading::Unreadable(e) => {
                let r = refusal(e.as_str(), item.text.as_str());
                proof {
                    lemma_first_refusal_stays(vs, other@, i as int + 1);
                }
                return Some(r);
            },
        }
        i = i + 1;
    }
    assert(vs.take(n as int) =~= vs);
    None
}

/// The exports of the methods among `items`, in order, for the service at `path`.
pub fn export_methods(path: &QualifiedPath, items: &Vec<ItemRead>) -> (res: String)
    requires
        path.segments@.len() > 0,
    ensures
        res@ == methods_text(path@, item_methods(item_views(items@))),
{
    let ghost vs = item_views(items@);
    let mut out = String::new();
    let n = items.len();
    let mut i: usize = 0;
    while i < n
        invariant
            n == items@.len(),
            vs == item_views(items@),
            path.segments@.len() > 0,
            i <= n,
            out@ == methods_text(path@, item_methods(vs.take(i as int))),
        decreases n - i,
    {
        let ghost t = vs.take(i as int + 1);
        let ghost before = item_methods(vs.take(i as int));
        proof {
            assert(t.drop_last() =~= vs.take(i as int));
            assert(t.last() == items@[i as int]@);
        }
        match &items[i].reading {
            ItemReading::Method(m) => {
                let text = export_method(path, &m.method, &m.args);
                out.append(text.as_str());
                proof {
                    assert(item_methods(t) =~= before.push(m@));
                    assert(item_methods(t).drop_last() =~= before);
                }
            },
            _ => {
                proof {
                    assert(item_methods(t) =~= before);
                }
            },
        }
        i = i + 1;
    }
    assert(vs.take(n as int) =~= vs);
    out
}

/// The export of the items of the impl block on the service at `path`: the exports of its
/// methods in order, or the refusal of the first item that is not a method.
pub fn export_items(path: &QualifiedPath, items: &Vec<ItemRead>) -> (res: Result<String, Refusal>)
    requires
        path.segments@.len() > 0,
    ensures
        outcome(res) == items_export(path@, item_views(items@)),
{
    match find_refusal(items, NOT_A_METHOD) {
        Some(r) => Err(r),
        None => Ok(export_methods(path, items)),
    }
}

/// Reads each input of a method, written as `inputs`, as a `syn::FnArg`: one reading for each
/// input, in order.
pub fn read_args(inputs: &Vec<String>) -> (res: Vec<Parsed<FnArg>>)
    ensures
        res@.len() == inputs@.len(),
        forall|i: int| 0 <= i < inputs@.len() ==> #[trigger] res@[i].source() == inputs@[i]@,
{
    let mut args: Vec<Parsed<FnArg>> = Vec::new();
    let n = inputs.len();
    let mut i: usize = 0;
    while i < n
        invariant
            n == inputs@.len(),
            i <= n,
            args@.len() == i,
            forall|j: int| 0 <= j < i ==> #[trigger] args@[j].source() == inputs@[j]@,
        decreases n - i,
    {
        args.push(read_fn_arg(inputs[i].as_str()));
        i = i + 1;
    }
    args
}

/// The view of what reading an item as an impl item gave.
pub open spec fn item_parse_view(p: Parsed<Option<Method>>) -> Result<Option<MethodView>, Seq<char>> {
    match p.outcome() {
        Ok(Some(m)) => Ok(Some(m@)),
        Ok(None) => Ok(None),
        Err(e) => Err(e@),
    }
}

/// The view of what reading an input gave.
pub open spec fn arg_view(p: Parsed<FnArg>) -> Result<FnArgView, Seq<char>> {
    match p.outcome() {
        Ok(a) => Ok(a@),
        Err(e) => Err(e@),
    }
}

pub open spec fn arg_views(ps: Seq<Parsed<FnArg>>) -> Seq<Result<FnArgView, Seq<char>>> {
    ps.map_values(|p: Parsed<FnArg>| arg_view(p))
}

/// The inputs read, in order, or the error of the first that could not be read.
pub open spec fn args_result(rs: Seq<Result<FnArgView, Seq<char>>>) -> Result<Seq<FnArgView>, Seq<char>>
    decreases rs.len(),
{
    if rs.len() == 0 {
        Ok(Seq::empty())
    } else {
        match args_result(rs.drop_last()) {
            Err(e) => Err(e),
            Ok(prev) => match rs.last() {
                Err(e) => Err(e),
                Ok(a) => Ok(prev.push(a)),
            },
        }
    }
}

/// The readings `args` are those of the inputs of the method that `item` read, one for each,
/// in order; none where it read no method.
pub open spec fn args_fit(item: Parsed<Option<Method>>, args: Seq<Parsed<FnArg>>) -> bool {
    match item.outcome() {
        Ok(Some(m)) => args.len() == m.inputs@.len()
            && forall|i: int| 0 <= i < args.len() ==> #[trigger] args[i].source() == m.inputs@[i]@,
        _ => args.len() == 0,
    }
}

/// What reading an item gives, from what parsing it as an impl item gave (`parsed`) and what
/// reading the inputs of the method, where it is one, gave (`args`): the error of the parse, an
/// item of another kind, the error met in reading an input, or the method with its inputs.
pub open spec fn reading_of(parsed: Result<Option<MethodView>, Seq<char>>, args: Result<Seq<FnArgView>, Seq<char>>) -> ItemReadingView {
    match parsed {
        Err(e) => ItemReadingView::Unreadable(e),
        Ok(None) => ItemReadingView::Other,
        Ok(Some(m)) => match args {
            Err(e) => ItemReadingView::Unreadable(e),
            Ok(a) => ItemReadingView::Method(ExportedMethodView { method: m, args: a }),
        },
    }
}

proof fn lemma_args_result_err(rs: Seq<Result<FnArgView, Seq<char>>>, k: int)
    requires
        0 <= k <= rs.len(),
        args_result(rs.take(k)) is Err,
    ensures
        args_result(rs) == args_result(rs.take(k)),
    decreases rs.len() - k,
{
    if k < rs.len() {
        let t = rs.take(k + 1);
        assert(t.drop_last() =~= rs.take(k));
        lemma_args_result_err(rs, k + 1);
    } else {
        assert(rs.take(k) =~= rs);
    }
}

/// The inputs read, in order, or the message of the first that could not be read.
pub fn collect_args(args: Vec<Parsed<FnArg>>) -> (res: Result<Vec<FnArg>, String>)
    ensures
        match res {
            Ok(v) => args_result(arg_views(args@)) == Ok::<Seq<FnArgView>, Seq<char>>(v@.map_values(|a: FnArg| a@)),
            Err(e) => args_result(arg_views(args@)) == Err::<Seq<FnArgView>, Seq<char>>(e@),
        },
{
    let ghost all = arg_views(args@);
    let mut rest = args;
    let mut out: Vec<FnArg> = Vec::new();
    let ghost mut k: int = 0;
    proof {
        assert(all.skip(0) =~= all);
        assert(all.take(0) =~= Seq::<Result<FnArgView, Seq<char>>>::empty());
        assert(out@.map_values(|a: FnArg| a@) =~= Seq::<FnArgView>::empty());
    }
    while rest.len() > 0
        invariant
            0 <= k <= all.len(),
            all == arg_views(args@),
            arg_views(rest@) == all.skip(k),
            args_result(all.take(k)) == Ok::<Seq<FnArgView>, Seq<char>>(out@.map_values(|a: FnArg| a@)),
        decreases rest@.len(),
    {
        let ghost before = rest@;
        let p = rest.remove(0);
        proof {
            assert(arg_views(before).len() == before.len());
            assert(all[k] == arg_views(before)[0]);
            assert(arg_views(before)[0] == arg_view(p));
            assert(rest@ =~= before.subrange(1, before.len() as int));
            assert forall|j: int| 0 <= j < rest@.len() implies #[trigger] arg_views(rest@)[j] == all.skip(k + 1)[j] by {
                assert(rest@[j] == before[j + 1]);
                assert(arg_views(before)[j + 1] == all.skip(k)[j + 1]);
            }
            assert(arg_views(rest@) =~= all.skip(k + 1));
            let t = all.take(k + 1);
            assert(t.drop_last() =~= all.take(k));
            assert(t.last() == arg_view(p));
        }
        let ghost pv = arg_view(p);
        assert(k < all.len());
        match p.into_value() {
            Ok(a) => {
                let ghost vs = out@.map_values(|x: FnArg| x@);
                out.push(a);
                assert(out@.map_values(|x: FnArg| x@) =~= vs.push(a@));
            },
            Err(e) => {
                proof {
                    assert(pv == Err::<FnArgView, Seq<char>>(e@));
                    assert(args_result(all.take(k + 1)) == Err::<Seq<FnArgView>, Seq<char>>(e@));
                    lemma_args_result_err(all, k + 1);
                }
                return Err(e);
            },
        }
        proof {
            k = k + 1;
        }
    }
    proof {
        assert(all.skip(k).len() == 0);
        assert(all.take(k) =~= all);
    }
    Ok(out)
}

/// The item of an impl block written as `text`, from `item`, what reading `text` as an impl
/// item gave, and `args`, what reading each input of the method, where it is one, gave: its
/// reading is the error of the parse, an item of another kind, the error of the first input
/// that could not be read, or the method with its inputs.
pub fn item_read(text: &str, item: Parsed<Option<Method>>, args: Vec<Parsed<FnArg>>) -> (res: ItemRead)
    requires
        item.source() == text@,
        args_fit(item, args@),
    ensures
        res.text@ == text@,
        res.reading@ == reading_of(item_parse_view(item), args_result(arg_views(args@))),
{
    let reading = match item.into_value() {
        Err(e) => ItemReading::Unreadable(e),
        Ok(None) => ItemReading::Other,
        Ok(Some(method)) => match collect_args(args) {
            Err(e) => ItemReading::Unreadable(e),
            Ok(args) => ItemReading::Method(ExportedMethod { method, args }),
        },
    };
    ItemRead { text: owned(text), reading }
}

/// Reads the item of an impl block written as `text`: reads `text` as an impl item and, for a
/// method, each of its inputs, and judges the readings by `item_read`.
pub fn read_item(text: &str) -> (res: ItemRead)
    ensures
        res.text@ == text@,
        exists|item: Parsed<Option<Method>>, args: Seq<Parsed<FnArg>>|
            item.source() == text@ && args_fit(item, args)
                && #[trigger] reading_of(item_parse_view(item), args_result(arg_views(args))) == res.reading@,
{
    let item = read_impl_item(text);
    let args = match item.value() {
        Ok(Some(method)) => read_args(&method.inputs),
        _ => Vec::new(),
    };
    let ghost iv = item;
    let ghost av = args@;
    let res = item_read(text, item, args);
    assert(reading_of(item_parse_view(iv), args_result(arg_views(av))) == res.reading@);
    res
}

/// Reads each of the items of an impl block, written as `items`, in order.
pub fn read_items(items: &Vec<String>) -> (res: Vec<ItemRead>)
    ensures
        res@.len() == items@.len(),
        forall|i: int| 0 <= i < items@.len() ==> #[trigger] res@[i].text@ == items@[i]@,
{
    let mut out: Vec<ItemRead> = Vec::new();
    let n = items.len();
    let mut i: usize = 0;
    while i < n
        invariant
            n == items@.len(),
            i <= n,
            out@.len() == i,
            forall|j: int| 0 <= j < i ==> #[trigger] out@[j].text@ == items@[j]@,
        decreases n - i,
    {
        out.push(read_item(items[i].as_str()));
        i = i + 1;
    }
    out
}

/// What reading an impl block gave: the reading of its text as an impl block, the reading of its
/// self type as a type path (where it is a path), and the reading of each of its items.
pub struct BlockRead {
    pub block: Parsed<ImplBlock>,
    pub path: Option<Parsed<QualifiedPath>>,
    pub items: Vec<ItemRead>,
}

/// The readings of `b` are those of the block's own parts: its self type is read as a type path
/// exactly where it is a path, and its items, one reading each, in order; a path read has a
/// segment.
pub open spec fn block_read_fits(b: BlockRead) -> bool {
    match b.block.outcome() {
        Err(_) => b.path is None && b.items@.len() == 0,
        Ok(blk) => {
            &&& (blk.self_is_path <==> b.path is Some)
            &&& (b.path matches Some(p) ==> p.source() == blk.self_ty@
                && (p.outcome() matches Ok(q) ==> q.segments@.len() > 0))
            &&& b.items@.len() == blk.items@.len()
            &&& forall|i: int| 0 <= i < b.items@.len() ==> #[trigger] b.items@[i].text@ == blk.items@[i]@
        },
    }
}

/// The service that a block read names: refused where the text is not an impl block (about the
/// text), where its self type is not a path, and where the self type could not be read as a
/// type path (both about the self type).
pub open spec fn block_path(b: BlockRead) -> Result<QualifiedPathView, RefusalView> {
    match b.block.outcome() {
        Err(e) => Err(refused(e@, b.block.source())),
        Ok(blk) => if !blk.self_is_path {
            Err(refused(NOT_A_PATH@, blk.self_ty@))
        } else {
            match b.path {
                Some(p) => match p.outcome() {
                    Err(e) => Err(refused(e@, blk.self_ty@)),
                    Ok(q) => Ok(q@),
                },
                None => Err(refused(NOT_A_PATH@, blk.self_ty@)),
            }
        },
    }
}

/// What the export of a block read gives: the exports of its methods, in order, for the service
/// its self type names; or the refusal of the block, of its self type, or of the first item
/// that is not a method.
pub open spec fn block_export(b: BlockRead) -> Result<Seq<char>, RefusalView> {
    match block_path(b) {
        Err(r) => Err(r),
        Ok(p) => items_export(p, item_views(b.items@)),
    }
}

/// The path of the service that a block read names, or the refusal.
pub fn service_of_block(b: &BlockRead) -> (res: Result<QualifiedPath, Refusal>)
    requires
        block_read_fits(*b),
    ensures
        outcome(res) == block_path(*b),
        res matches Ok(p) ==> p.segments@.len() > 0,
{
    match b.block.value() {
        Err(e) => Err(refusal(e.as_str(), b.block.source_text().as_str())),
        Ok(blk) => {
            if !blk.self_is_path {
                return Err(refusal(NOT_A_PATH, blk.self_ty.as_str()));
            }
            match &b.path {
                Some(p) => match p.value() {
                    Err(e) => Err(refusal(e.as_str(), blk.self_ty.as_str())),
                    Ok(q) => {
                        let d = q.duplicate();
                        assert(d.segments@.len() == d@.segments.len());
                        assert(q.segments@.len() == q@.segments.len());
                        Ok(d)
                    },
                },
                None => Err(refusal(NOT_A_PATH, blk.self_ty.as_str())),
            }
        },
    }
}

/// The export of a block read: the exports of its methods, or the refusal.
pub fn export_block(b: &BlockRead) -> (res: Result<String, Refusal>)
    requires
        block_read_fits(*b),
    ensures
        outcome(res) == block_export(*b),
{
    match service_of_block(b) {
        Err(r) => Err(r),
        Ok(path) => export_items(&path, &b.items),
    }
}

/// Reads the impl block written as `text` (`syn::ItemImpl`), and then its self type, where it is
/// a path, and each of its items.
pub fn read_block(text: &str) -> (res: BlockRead)
    ensures
        res.block.source() == text@,
        block_read_fits(res),
{
    let block = read_impl_block(text);
    let (path, items) = match block.value() {
        Ok(blk) => {
            let path = if blk.self_is_path {
                Some(read_type_path(blk.self_ty.as_str()))
            } else {
                None
            };
            (path, read_items(&blk.items))
        },
        Err(_) => (None, Vec::new()),
    };
    let b = BlockRead { block, path, items };
    proof {
        if let Ok(blk) = b.block.outcome() {
            assert forall|i: int| 0 <= i < b.items@.len() implies #[trigger] b.items@[i].text@ == blk.items@[i]@ by {}
        }
    }
    b
}

/// The code that the export of the impl block written as `text` generates: the block is read by
/// `read_block` and exported by `export_block`. Stated: the result is the export of a block read
/// from `text` whose readings are those of its parts.
pub fn export_source(text: &str) -> (res: Result<String, Refusal>)
    ensures
        exists|b: BlockRead| b.block.source() == text@ && block_read_fits(b)
            && #[trigger] block_export(b) == outcome(res),
{
    let b = read_block(text);
    let res = export_block(&b);
    assert(block_export(b) == outcome(res));
    res
}

/// The `export` attribute on an impl block: the generated code, or the error as tokens that
/// make the compiler report it. Its attribute arguments are not read.
pub fn impl_export(_attrs: proc_macro2::TokenStream, item: proc_macro2::TokenStream) -> proc_macro2::TokenStream {
    let text = token_text(&item);
    emit(export_source(text.as_str()))
}

} // verus!
