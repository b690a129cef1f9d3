//! What holds across the two attributes: the names that `export` gives a method are the
//! names through which `service` reaches it.
use vstd::prelude::*;
use crate::naming::{export_name, method_of_export};
use crate::path::{plain_segment, QualifiedPathView};
use crate::service::{arm_text, internal_text, piece_of, pieces, served_method, variant_text};
use crate::path::path_text;
use crate::text::{strip_prefix_spec, trim_start_char};
use crate::export::{block_export, block_path, first_refusal, item_views, items_export, BlockRead, ItemReadView};
use crate::export_macro::{block_read_result, block_result, tokens_result, ExportShapeView};
use crate::export::{client_impl_text, request_fields, request_struct_text, server_impl_text, typed_inputs};
use crate::item::{FnArgView, MethodView};
use crate::naming::{internal_fn_name, variant_name};
use crate::service::{path_list_result, PathListRead};
use crate::text::join;

verus! {

proof fn lemma_strip_export_name(service: Seq<char>, method: Seq<char>)
    ensures
        strip_prefix_spec(export_name(service, method), service) == Some("_"@ + method),
{
    let e = export_name(service, method);
    assert(e.subrange(0, service.len() as int) =~= service);
    assert(e.skip(service.len() as int) =~= "_"@ + method);
}

/// A method exported from service `service` under the name `{service}_{method}` is found
/// again by the service from that name, provided that the method's name does not begin
/// with an underscore.
pub proof fn law_export_name_round_trip(service: Seq<char>, method: Seq<char>)
    requires
        !(method.len() > 0 && method[0] == '_'),
    ensures
        method_of_export(service, export_name(service, method)) == Some(method),
{
    lemma_strip_export_name(service, method);
    reveal_strlit("_");
    let s = "_"@ + method;
    assert(s.len() > 0 && s[0] == '_');
    assert(s.drop_first() =~= method);
    assert(trim_start_char(s, '_') == trim_start_char(method, '_'));
    assert(trim_start_char(method, '_') == method);
}

/// A service lists an exported method by the path of its marker type; whatever module the
/// path goes through, the service serves the method under the method's own name.
pub proof fn law_service_serves_listed_export(service: Seq<char>, method: Seq<char>, marker: QualifiedPathView)
    requires
        !(method.len() > 0 && method[0] == '_'),
        marker.segments.len() > 0,
        marker.segments.last().ident == export_name(service, method),
    ensures
        served_method(service, marker) == Some(method),
{
    law_export_name_round_trip(service, method);
}

/// For a listed marker of a method exported from the service, the service's module holds
/// the message variant, the arm of the server's loop that calls the method by its own name,
/// and the internal function `__internal_{method}` that the exported client method calls.
pub proof fn law_service_module_serves_export(service: Seq<char>, method: Seq<char>, marker: QualifiedPathView)
    requires
        !(method.len() > 0 && method[0] == '_'),
        marker.segments.len() > 0,
        marker.segments.last().ident == export_name(service, method),
    ensures
        pieces(service, seq![marker], 0) == variant_text(method, path_text(marker.to_super())),
        pieces(service, seq![marker], 1) == arm_text(method),
        pieces(service, seq![marker], 2) == internal_text(method, path_text(marker.to_super())),
{
    law_service_serves_listed_export(service, method, marker);
    let one = seq![marker];
    assert(one.drop_last() =~= Seq::<QualifiedPathView>::empty());
    assert(one.last() == marker);
    assert(pieces(service, one.drop_last(), 0) == Seq::<char>::empty());
    assert(pieces(service, one.drop_last(), 1) == Seq::<char>::empty());
    assert(pieces(service, one.drop_last(), 2) == Seq::<char>::empty());
    assert(Seq::<char>::empty() + variant_text(method, path_text(marker.to_super())) =~= variant_text(method, path_text(marker.to_super())));
    assert(Seq::<char>::empty() + arm_text(method) =~= arm_text(method));
    assert(Seq::<char>::empty() + internal_text(method, path_text(marker.to_super())) =~= internal_text(method, path_text(marker.to_super())));
}

/// A path that begins with `::` or `crate` is left as it is by `to_super`; any other gains
/// `super` in front and keeps all of its segments after it.
pub proof fn law_to_super_keeps_segments(p: QualifiedPathView)
    ensures
        p.is_rooted() ==> p.to_super() == p,
        !p.is_rooted() ==> p.to_super().segments == seq![plain_segment("super"@)] + p.segments,
        p.to_super().qself == p.qself,
        p.to_super().leading_colon == p.leading_colon,
{
    if !p.is_rooted() {
        assert(p.segments.insert(0, plain_segment("super"@)) =~= seq![plain_segment("super"@)] + p.segments);
    }
}

proof fn lemma_no_refusal_for_any_message(items: Seq<ItemReadView>, a: Seq<char>, b: Seq<char>)
    requires
        first_refusal(items, a) is None,
    ensures
        first_refusal(items, b) is None,
    decreases items.len(),
{
    if items.len() > 0 {
        lemma_no_refusal_for_any_message(items.drop_last(), a, b);
    }
}

/// A block that the `export` attribute accepts is exported by it exactly as the export of an
/// impl block exports it: the exports of its methods, in order, whatever service the
/// attribute's arguments name.
pub proof fn law_export_attribute_exports_like_block_export(
    path: QualifiedPathView,
    items: Seq<ItemReadView>,
    args: Option<QualifiedPathView>,
)
    requires
        block_result(path, items) is Ok,
    ensures
        tokens_result(block_result(path, items)->Ok_0, args) == items_export(path, items),
        items_export(path, items) is Ok,
{
    lemma_no_refusal_for_any_message(items, crate::export_macro::ERR_UNEXPECTED_ITEM_IN_EXPORT@, crate::export::NOT_A_METHOD@);
}

/// An impl block that the `export` attribute accepts, read as `b`, is exported by it exactly as
/// the export of an impl block exports the same reading.
pub proof fn law_export_attribute_exports_block_read_like_block_export(b: BlockRead, args: Option<QualifiedPathView>)
    requires
        block_read_result(b) is Ok,
    ensures
        tokens_result(block_read_result(b)->Ok_0, args) == block_export(b),
{
    let p = block_path(b)->Ok_0;
    law_export_attribute_exports_like_block_export(p, item_views(b.items@), args);
}

/// `req . names[0]`, .., `req . names[n-1]`: the reads of the request's fields of those names.
pub open spec fn request_field_reads(names: Seq<Seq<char>>) -> Seq<Seq<char>> {
    Seq::new(names.len(), |i: int| "req . "@ + names[i])
}

/// `text` is `middle` with `before` in front of it and `after` behind it.
pub open spec fn framed(text: Seq<char>, before: Seq<char>, middle: Seq<char>, after: Seq<char>) -> bool {
    text == before + middle + after
}

/// The inputs `names[i]: tys[i]` (written `texts[i]`), in that order, each with a plain
/// identifier as its pattern.
pub open spec fn named_inputs(names: Seq<Seq<char>>, tys: Seq<Seq<char>>, texts: Seq<Seq<char>>) -> Seq<FnArgView> {
    Seq::new(names.len(), |i: int| FnArgView::Typed { pat_ident: Some(names[i]), ty: tys[i], text: texts[i] })
}

proof fn lemma_receivers_have_no_fields(receivers: Seq<FnArgView>)
    requires
        forall|i: int| 0 <= i < receivers.len() ==> receivers[i] is Receiver,
    ensures
        request_fields(receivers) == Seq::<(Seq<char>, Seq<char>)>::empty(),
    decreases receivers.len(),
{
    if receivers.len() > 0 {
        lemma_receivers_have_no_fields(receivers.drop_last());
        assert(receivers.last() is Receiver);
    }
}

proof fn lemma_named_fields(receivers: Seq<FnArgView>, names: Seq<Seq<char>>, tys: Seq<Seq<char>>, texts: Seq<Seq<char>>, k: int)
    requires
        forall|i: int| 0 <= i < receivers.len() ==> receivers[i] is Receiver,
        tys.len() == names.len(),
        texts.len() == names.len(),
        0 <= k <= names.len(),
    ensures
        request_fields(receivers + named_inputs(names, tys, texts).take(k))
            == Seq::new(k as nat, |i: int| (names[i], tys[i])),
    decreases k,
{
    let all = named_inputs(names, tys, texts);
    if k == 0 {
        assert(receivers + all.take(0) =~= receivers);
        lemma_receivers_have_no_fields(receivers);
        assert(Seq::new(0 as nat, |i: int| (names[i], tys[i])) =~= Seq::<(Seq<char>, Seq<char>)>::empty());
    } else {
        lemma_named_fields(receivers, names, tys, texts, k - 1);
        let s = receivers + all.take(k);
        assert(s.drop_last() =~= receivers + all.take(k - 1));
        assert(s.last() == all[k - 1]);
        assert(Seq::new(k as nat, |i: int| (names[i], tys[i]))
            =~= Seq::new((k - 1) as nat, |i: int| (names[i], tys[i])).push((names[k - 1], tys[k - 1])));
    }
}

/// The server's method hands the request on to the internal function, which is the method as
/// written, field by field in the order in which the method declares its inputs: for a method
/// whose receivers are followed by the inputs `names[0]: tys[0], .., names[n-1]: tys[n-1]`, the
/// call is `self . __internal_{m} (req . names[0] , .. , req . names[n-1]) . await`.
pub proof fn law_server_hands_fields_on_in_declared_order(
    path: QualifiedPathView,
    m: MethodView,
    receivers: Seq<FnArgView>,
    names: Seq<Seq<char>>,
    tys: Seq<Seq<char>>,
    texts: Seq<Seq<char>>,
)
    requires
        forall|i: int| 0 <= i < receivers.len() ==> receivers[i] is Receiver,
        tys.len() == names.len(),
        texts.len() == names.len(),
    ensures
        exists|before: Seq<char>, after: Seq<char>| #[trigger] framed(
            server_impl_text(path, m, receivers + named_inputs(names, tys, texts)),
            before,
            " { self . "@ + internal_fn_name(m.name) + " ("@
                + join(request_field_reads(names), " , "@)
                + ") . await } async fn "@,
            after,
        ),
{
    let all = named_inputs(names, tys, texts);
    lemma_named_fields(receivers, names, tys, texts, names.len() as int);
    assert(all.take(names.len() as int) =~= all);
    let fields = Seq::new(names.len(), |i: int| (names[i], tys[i]));
    assert(fields.map_values(|f: (Seq<char>, Seq<char>)| crate::export::read_of(f))
        =~= Seq::new(names.len(), |i: int| "req . "@ + names[i]));
    assert(request_field_reads(names) =~= Seq::new(names.len(), |i: int| "req . "@ + names[i]));
    let reads = join(request_field_reads(names), " , "@);
    let before = "impl "@ + path_text(path.push_segment(plain_segment("Server"@))) + " { pub async fn "@ + m.name
        + " (& mut self , req : "@ + crate::naming::request_name(m.name) + ") -> "@
        + crate::naming::response_name(m.name);
    let after = internal_fn_name(m.name) + " ("@ + m.inputs_text + ") -> "@
        + crate::naming::response_name(m.name) + " "@ + m.body + " } "@;
    let middle = " { self . "@ + internal_fn_name(m.name) + " ("@ + reads + ") . await } async fn "@;
    assert(server_impl_text(path, m, receivers + all) =~= before + middle + after);
    assert(framed(server_impl_text(path, m, receivers + all), before, middle, after));
}

proof fn lemma_named_typed_inputs(receivers: Seq<FnArgView>, names: Seq<Seq<char>>, tys: Seq<Seq<char>>, texts: Seq<Seq<char>>, k: int)
    requires
        forall|i: int| 0 <= i < receivers.len() ==> receivers[i] is Receiver,
        tys.len() == names.len(),
        texts.len() == names.len(),
        0 <= k <= names.len(),
    ensures
        typed_inputs(receivers + named_inputs(names, tys, texts).take(k)) == texts.take(k),
    decreases k + receivers.len(),
{
    let all = named_inputs(names, tys, texts);
    if k == 0 {
        assert(receivers + all.take(0) =~= receivers);
        if receivers.len() > 0 {
            lemma_named_typed_inputs(receivers.drop_last(), names, tys, texts, 0);
            assert(receivers.drop_last() + all.take(0) =~= receivers.drop_last());
            assert(receivers.last() is Receiver);
        }
        assert(texts.take(0) =~= Seq::<Seq<char>>::empty());
    } else {
        lemma_named_typed_inputs(receivers, names, tys, texts, k - 1);
        let s = receivers + all.take(k);
        assert(s.drop_last() =~= receivers + all.take(k - 1));
        assert(s.last() == all[k - 1]);
        assert(texts.take(k) =~= texts.take(k - 1).push(texts[k - 1]));
    }
}

/// `names[i] : tys[i]`, the declarations of the request's fields.
pub open spec fn field_declarations(names: Seq<Seq<char>>, tys: Seq<Seq<char>>) -> Seq<Seq<char>> {
    Seq::new(names.len(), |i: int| names[i] + " : "@ + tys[i])
}

/// The request struct of a method whose receivers are followed by the inputs
/// `names[0]: tys[0], .., names[n-1]: tys[n-1]` declares the fields `names[i] : tys[i]`, in that
/// order.
pub proof fn law_request_declares_fields_in_declared_order(
    m: MethodView,
    receivers: Seq<FnArgView>,
    names: Seq<Seq<char>>,
    tys: Seq<Seq<char>>,
    texts: Seq<Seq<char>>,
)
    requires
        forall|i: int| 0 <= i < receivers.len() ==> receivers[i] is Receiver,
        tys.len() == names.len(),
        texts.len() == names.len(),
    ensures
        exists|before: Seq<char>, after: Seq<char>| #[trigger] framed(
            request_struct_text(m, receivers + named_inputs(names, tys, texts)),
            before,
            " { "@ + join(field_declarations(names, tys), " , "@) + " } "@,
            after,
        ),
{
    let all = named_inputs(names, tys, texts);
    let args = receivers + all;
    lemma_named_fields(receivers, names, tys, texts, names.len() as int);
    assert(all.take(names.len() as int) =~= all);
    let fields = Seq::new(names.len(), |i: int| (names[i], tys[i]));
    assert(fields.map_values(|f: (Seq<char>, Seq<char>)| crate::export::decl_of(f)) =~= field_declarations(names, tys));
    let b1 = crate::export::allow_camel() + "# [derive (Clone)] pub struct "@ + crate::naming::request_name(m.name);
    let mid1 = " { "@ + join(field_declarations(names, tys), " , "@) + " } "@;
    assert(request_struct_text(m, args) =~= b1 + mid1 + Seq::<char>::empty());
    assert(framed(request_struct_text(m, args), b1, mid1, Seq::<char>::empty()));
}

/// The client's method of a method whose receivers are followed by the inputs
/// `names[0]: tys[0], .., names[n-1]: tys[n-1]`, written `texts[i]`, takes those inputs as
/// written, in that order, and packs them into the request by the same names, in the same order.
#[verifier::rlimit(30)]
pub proof fn law_client_keeps_declared_order(
    path: QualifiedPathView,
    m: MethodView,
    receivers: Seq<FnArgView>,
    names: Seq<Seq<char>>,
    tys: Seq<Seq<char>>,
    texts: Seq<Seq<char>>,
)
    requires
        forall|i: int| 0 <= i < receivers.len() ==> receivers[i] is Receiver,
        tys.len() == names.len(),
        texts.len() == names.len(),
    ensures
        exists|before: Seq<char>, after: Seq<char>| #[trigger] framed(
            client_impl_text(path, m, receivers + named_inputs(names, tys, texts)),
            before,
            " (& self , "@ + join(texts, " , "@) + ") -> "@,
            after,
        ),
        exists|before: Seq<char>, after: Seq<char>| #[trigger] framed(
            client_impl_text(path, m, receivers + named_inputs(names, tys, texts)),
            before,
            " { "@ + join(names, " , "@) + " }) . await } } "@,
            after,
        ),
{
    let all = named_inputs(names, tys, texts);
    let args = receivers + all;
    lemma_named_fields(receivers, names, tys, texts, names.len() as int);
    lemma_named_typed_inputs(receivers, names, tys, texts, names.len() as int);
    assert(all.take(names.len() as int) =~= all);
    assert(texts.take(names.len() as int) =~= texts);
    let fields = Seq::new(names.len(), |i: int| (names[i], tys[i]));
    assert(fields.map_values(|f: (Seq<char>, Seq<char>)| f.0) =~= names);
    assert(typed_inputs(args) == texts);
    assert(crate::export::field_names(request_fields(args)) == join(names, " , "@));
    let t = client_impl_text(path, m, args);
    let b2 = "impl "@ + path_text(path.push_segment(plain_segment("Client"@))) + " { pub async fn "@ + m.name;
    let mid2 = " (& self , "@ + join(texts, " , "@) + ") -> "@;
    let a2 = crate::naming::response_name(m.name) + " { "@ + path_text(path) + " :: "@ + internal_fn_name(m.name)
        + " (self , "@ + crate::naming::request_name(m.name) + " { "@ + join(names, " , "@) + " }) . await } } "@;
    assert(framed(t, b2, mid2, a2)) by {
        assert(t =~= b2 + mid2 + a2);
    }
    let b3 = b2 + mid2 + crate::naming::response_name(m.name) + " { "@
        + path_text(path) + " :: "@ + internal_fn_name(m.name) + " (self , "@ + crate::naming::request_name(m.name);
    let mid3 = " { "@ + join(names, " , "@) + " }) . await } } "@;
    assert(framed(t, b3, mid3, Seq::<char>::empty())) by {
        assert(t =~= b3 + mid3 + Seq::<char>::empty());
    }
}

/// The pieces that a list of markers contributes to the service module are those of its parts,
/// in order: whatever its position in the list, a marker contributes the same variant, the same
/// arm of the listen loop and the same internal function.
pub proof fn law_service_pieces_concatenate(
    service: Seq<char>,
    first: Seq<QualifiedPathView>,
    second: Seq<QualifiedPathView>,
    kind: int,
)
    ensures
        pieces(service, first + second, kind) == pieces(service, first, kind) + pieces(service, second, kind),
    decreases second.len(),
{
    if second.len() == 0 {
        assert(first + second =~= first);
        assert(pieces(service, first, kind) + Seq::<char>::empty() =~= pieces(service, first, kind));
    } else {
        law_service_pieces_concatenate(service, first, second.drop_last(), kind);
        assert((first + second).drop_last() =~= first + second.drop_last());
        assert((first + second).last() == second.last());
        assert(pieces(service, first, kind) + pieces(service, second.drop_last(), kind) + piece_of(service, second.last(), kind)
            =~= pieces(service, first, kind) + (pieces(service, second.drop_last(), kind) + piece_of(service, second.last(), kind)));
    }
}

/// For a marker that names the method `f` of the service, the message variant carries the
/// method's request and a sender for its response; the arm of the listen loop calls the
/// method with the request and sends its result back on the request's sender; and the internal
/// function sends the request with a fresh sender and awaits the reply.
pub proof fn law_served_marker_answers(service: Seq<char>, p: QualifiedPathView, f: Seq<char>)
    requires
        served_method(service, p) == Some(f),
    ensures
        pieces(service, seq![p], 0) == variant_name(f) + " ("@ + "< "@ + path_text(p.to_super())
            + " as :: servify :: ServifyExport > :: "@ + "Request"@ + " , :: tokio :: sync :: oneshot :: Sender <"@
            + "< "@ + path_text(p.to_super()) + " as :: servify :: ServifyExport > :: "@ + "Response"@ + " > ,) , "@,
        pieces(service, seq![p], 1) == "Message :: "@ + variant_name(f) + " (req , tx) => { let res = self . "@ + f
            + " (req) . await ; tx . send (res) . unwrap () ; } , "@,
        pieces(service, seq![p], 2) == "# [doc (hidden)] pub async fn "@ + internal_fn_name(f)
            + " (client : & Client , req : "@ + "< "@ + path_text(p.to_super())
            + " as :: servify :: ServifyExport > :: "@ + "Request"@ + " ,) -> "@ + "< "@ + path_text(p.to_super())
            + " as :: servify :: ServifyExport > :: "@ + "Response"@
            + " { let (tx , rx) = :: tokio :: sync :: oneshot :: channel () ; client . tx . send (Message :: "@
            + variant_name(f) + " (req , tx)) . await . unwrap () ; rx . await . unwrap () } "@,
{
    let one = seq![p];
    let marker = path_text(p.to_super());
    assert(one.drop_last() =~= Seq::<QualifiedPathView>::empty());
    assert(one.last() == p);
    assert(pieces(service, one.drop_last(), 0) == Seq::<char>::empty());
    assert(pieces(service, one.drop_last(), 1) == Seq::<char>::empty());
    assert(piece_of(service, p, 0) == variant_text(f, marker));
    assert(Seq::<char>::empty() + variant_text(f, marker) =~= variant_text(f, marker));
    assert(variant_text(f, marker) =~= variant_name(f) + " ("@ + "< "@ + marker
        + " as :: servify :: ServifyExport > :: "@ + "Request"@ + " , :: tokio :: sync :: oneshot :: Sender <"@
        + "< "@ + marker + " as :: servify :: ServifyExport > :: "@ + "Response"@ + " > ,) , "@);
    assert(pieces(service, one.drop_last(), 0) == Seq::<char>::empty());
    assert(pieces(service, one.drop_last(), 1) == Seq::<char>::empty());
    assert(piece_of(service, p, 0) == variant_text(f, marker));
    assert(Seq::<char>::empty() + variant_text(f, marker) =~= variant_text(f, marker));
    assert(variant_text(f, marker) =~= variant_name(f) + " ("@ + "< "@ + marker
        + " as :: servify :: ServifyExport > :: "@ + "Request"@ + " , :: tokio :: sync :: oneshot :: Sender <"@
        + "< "@ + marker + " as :: servify :: ServifyExport > :: "@ + "Response"@ + " > ,) , "@);
    assert(pieces(service, one.drop_last(), 2) == Seq::<char>::empty());
    assert(piece_of(service, p, 1) == arm_text(f));
    assert(piece_of(service, p, 2) == internal_text(f, marker));
    assert(Seq::<char>::empty() + arm_text(f) =~= arm_text(f));
    assert(Seq::<char>::empty() + internal_text(f, marker) =~= internal_text(f, marker));
    assert(internal_text(f, marker) =~= "# [doc (hidden)] pub async fn "@ + internal_fn_name(f)
        + " (client : & Client , req : "@ + "< "@ + marker
        + " as :: servify :: ServifyExport > :: "@ + "Request"@ + " ,) -> "@ + "< "@ + marker
        + " as :: servify :: ServifyExport > :: "@ + "Response"@
        + " { let (tx , rx) = :: tokio :: sync :: oneshot :: channel () ; client . tx . send (Message :: "@
        + variant_name(f) + " (req , tx)) . await . unwrap () ; rx . await . unwrap () } "@);
}

/// A path that begins with `::`, or whose first segment is `crate`, is left as it is by
/// `to_super`; every other path, one that begins with `super` too, gets `super` as its new first
/// segment, in front of all of its segments.
pub proof fn law_to_super_roots(p: QualifiedPathView)
    ensures
        (p.leading_colon || (p.segments.len() > 0 && p.segments[0].ident == "crate"@)) ==> p.to_super() == p,
        !(p.leading_colon || (p.segments.len() > 0 && p.segments[0].ident == "crate"@)) ==> p.to_super()
            == (QualifiedPathView { segments: seq![plain_segment("super"@)] + p.segments, ..p }),
{
    if !(p.leading_colon || (p.segments.len() > 0 && p.segments[0].ident == "crate"@)) {
        assert(p.segments.insert(0, plain_segment("super"@)) =~= seq![plain_segment("super"@)] + p.segments);
    }
}

/// A bracketed list lists every path read from it, one for each printed path, in order,
/// whatever separators or trailing comma it has; where a path could not be read, the list is
/// refused with the error of the first such path.
pub proof fn law_bracketed_list_lists_every_path(r: PathListRead)
    requires
        r.list.outcome() is Ok,
    ensures
        (forall|i: int| 0 <= i < r.paths@.len() ==> #[trigger] r.paths@[i].outcome() is Ok) ==> (
            path_list_result(r) matches Ok(ps) && ps.len() == r.paths@.len()
                && forall|i: int| 0 <= i < ps.len() ==> (r.paths@[i].outcome() matches Ok(q) && #[trigger] ps[i] == q@)
        ),
        forall|k: int| 0 <= k < r.paths@.len() && #[trigger] r.paths@[k].outcome() is Err
            && (forall|j: int| 0 <= j < k ==> r.paths@[j].outcome() is Ok)
            ==> path_list_result(r) == Err::<Seq<QualifiedPathView>, Seq<char>>(r.paths@[k].outcome()->Err_0@),
{
    lemma_path_results_all(r.paths@);
    assert forall|k: int| 0 <= k < r.paths@.len() && #[trigger] r.paths@[k].outcome() is Err
        && (forall|j: int| 0 <= j < k ==> r.paths@[j].outcome() is Ok)
        implies path_list_result(r) == Err::<Seq<QualifiedPathView>, Seq<char>>(r.paths@[k].outcome()->Err_0@) by {
        lemma_path_results_first_err(r.paths@, k, r.paths@.len() as int);
        assert(r.paths@.take(r.paths@.len() as int) =~= r.paths@);
    }
}

proof fn lemma_path_results_all(ps: Seq<crate::syntax::Parsed<crate::path::QualifiedPath>>)
    ensures
        (forall|i: int| 0 <= i < ps.len() ==> #[trigger] ps[i].outcome() is Ok) ==> (
            crate::service::path_results(ps) matches Ok(qs) && qs.len() == ps.len()
                && forall|i: int| 0 <= i < qs.len() ==> (ps[i].outcome() matches Ok(q) && #[trigger] qs[i] == q@)
        ),
    decreases ps.len(),
{
    if ps.len() > 0 {
        lemma_path_results_all(ps.drop_last());
        if forall|i: int| 0 <= i < ps.len() ==> #[trigger] ps[i].outcome() is Ok {
            assert forall|i: int| 0 <= i < ps.drop_last().len() implies #[trigger] ps.drop_last()[i].outcome() is Ok by {
                assert(ps.drop_last()[i] == ps[i]);
            }
            assert(ps.last().outcome() is Ok);
            let qs = crate::service::path_results(ps)->Ok_0;
            let prev = crate::service::path_results(ps.drop_last())->Ok_0;
            assert forall|i: int| 0 <= i < qs.len() implies (ps[i].outcome() matches Ok(q) && #[trigger] qs[i] == q@) by {
                if i < prev.len() {
                    assert(ps.drop_last()[i] == ps[i]);
                }
            }
        }
    }
}

proof fn lemma_path_results_first_err(ps: Seq<crate::syntax::Parsed<crate::path::QualifiedPath>>, k: int, m: int)
    requires
        0 <= k < m <= ps.len(),
        ps[k].outcome() is Err,
        forall|j: int| 0 <= j < k ==> ps[j].outcome() is Ok,
    ensures
        crate::service::path_results(ps.take(m)) == Err::<Seq<QualifiedPathView>, Seq<char>>(ps[k].outcome()->Err_0@),
    decreases m,
{
    let t = ps.take(m);
    assert(t.drop_last() =~= ps.take(m - 1));
    assert(t.last() == ps[m - 1]);
    if m - 1 > k {
        lemma_path_results_first_err(ps, k, m - 1);
    } else {
        lemma_path_results_all(ps.take(k));
        assert forall|i: int| 0 <= i < ps.take(k).len() implies #[trigger] ps.take(k)[i].outcome() is Ok by {
            assert(ps.take(k)[i] == ps[i]);
        }
        assert(ps.take(m - 1) =~= ps.take(k));
    }
}

/// A method named alone, exported with arguments that name the service at `p`, gives the
/// module named after the last segment of `p` and the method: `mod {last segment}_{name} { }`.
pub proof fn law_named_method_module_uses_last_segment(name: Seq<char>, p: QualifiedPathView)
    ensures
        tokens_result(ExportShapeView::Name { name }, Some(p))
            == Ok::<Seq<char>, crate::refusal::RefusalView>("mod "@ + (p.segments.last().ident + "_"@ + name) + " { }"@),
{
}

} // verus!
