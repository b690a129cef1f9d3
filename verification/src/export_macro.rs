//! The `export` attribute. On an impl block on a service it exports each method of the
//! block; on a method named alone, with the path of its service as the attribute's
//! argument, it gives the module named after the service and the method.
use vstd::prelude::*;
use vstd::string::*;
use crate::export::{
    block_path, block_read_fits, export_methods, first_refusal, item_methods, item_views,
    methods_text, read_block, service_of_block, BlockRead, ExportedMethodView, ItemRead,
    ItemReadView,
};
use crate::naming::{export_name, make_export_name};
use crate::path::{QualifiedPath, QualifiedPathView};
use crate::refusal::{outcome, refusal, refused, Refusal, RefusalView};
use crate::syntax::{emit, read_ident, read_token_trees, read_type_path, token_text, Parsed};
use crate::text::owned;
use crate::tokens::{token_views, Token, TokenView};

verus! {

/// Refusal of an export block without a method.
pub const ERR_NO_FN_IN_EXPORT: &'static str =
    "Within the servify::export macro, one function must be exported in one impl block";

/// Refusal of an item of an export block that is not a method.
pub const ERR_UNEXPECTED_ITEM_IN_EXPORT: &'static str =
    "Supported items within the servify::export macro are only exporting function, associated function, associated constants, and Request struct";

/// Refusal of a method named alone when the attribute names no service: without a service
/// the item must be an impl block.
pub const EXPECTED_IMPL: &'static str = "expected `impl`";

/// Refusal of attribute arguments that are not a type path.
pub const UNEXPECTED_TOKEN: &'static str = "unexpected token";

/// A character that separates tokens and is no token itself.
pub open spec fn is_space(c: char) -> bool {
    c == ' ' || c == '\t' || c == '\n' || c == '\r'
}

/// `s` holds nothing but spaces.
pub open spec fn is_blank(s: Seq<char>) -> bool {
    forall|i: int| 0 <= i < s.len() ==> is_space(#[trigger] s[i])
}

fn blank(s: &str) -> (res: bool)
    ensures
        res == is_blank(s@),
{
    let n = s.unicode_len();
    let mut i: usize = 0;
    while i < n
        invariant
            n == s@.len(),
            i <= n,
            forall|j: int| 0 <= j < i ==> is_space(#[trigger] s@[j]),
        decreases n - i,
    {
        let c = s.get_char(i);
        if !(c == ' ' || c == '\t' || c == '\n' || c == '\r') {
            assert(!is_space(s@[i as int]));
            return false;
        }
        i = i + 1;
    }
    true
}

/// The arguments of the `export` attribute: the path of the service, when one is given.
pub struct ServifyExportArgs {
    service_path: Option<QualifiedPath>,
}

impl ServifyExportArgs {
    #[verifier::type_invariant]
    spec fn path_has_segments(self) -> bool {
        self.service_path matches Some(p) ==> p.segments@.len() > 0
    }

    /// The path of the service, when one is given.
    pub closed spec fn service_path(self) -> Option<QualifiedPathView> {
        match self.service_path {
            Some(p) => Some(p@),
            None => None,
        }
    }

    /// Reads the arguments of the `export` attribute, written as `text`: none, or the type
    /// path of the service. Blank arguments give no path; any others are read as a type path,
    /// and where they are none, refused as tokens that were not expected, about the arguments.
    pub fn parse(text: &str) -> (res: Result<ServifyExportArgs, Refusal>)
        ensures
            is_blank(text@) ==> (res matches Ok(a) && a.service_path() is None),
            !is_blank(text@) ==> match res {
                Ok(a) => a.service_path() is Some,
                Err(r) => r@ == refused(UNEXPECTED_TOKEN@, text@),
            },
            !is_blank(text@) ==> exists|read: Parsed<QualifiedPath>|
                read.source() == text@ && #[trigger] args_read(text@, read, args_outcome(res)),
    {
        if blank(text) {
            return Ok(ServifyExportArgs { service_path: None });
        }
        let read = read_type_path(text);
        let ghost rd = read;
        let res = ServifyExportArgs::from_path_read(text, read);
        assert(args_read(text@, rd, args_outcome(res)));
        res
    }

    /// The arguments written as `text`, where `read` is what reading `text` as a type path gave:
    /// the path read itself, or the refusal of tokens that were not expected, about the text.
    pub fn from_path_read(text: &str, read: Parsed<QualifiedPath>) -> (res: Result<ServifyExportArgs, Refusal>)
        requires
            read.source() == text@,
            read.outcome() matches Ok(p) ==> p.segments@.len() > 0,
        ensures
            args_read(text@, read, args_outcome(res)),
    {
        match read.into_value() {
            Ok(p) => Ok(ServifyExportArgs { service_path: Some(p) }),
            Err(_) => Err(refusal(UNEXPECTED_TOKEN, text)),
        }
    }
}

/// The view of a reading of the `export` attribute's arguments: the service path they name, or
/// the refusal.
pub open spec fn args_outcome(r: Result<ServifyExportArgs, Refusal>) -> Result<Option<QualifiedPathView>, RefusalView> {
    match r {
        Ok(a) => Ok(a.service_path()),
        Err(x) => Err(x@),
    }
}

/// What reading the arguments `text` as a type path (`read`) makes of them (`r`): the path read
/// itself, all of its segments kept, or the refusal of tokens that were not expected, about the
/// arguments.
pub open spec fn args_read(text: Seq<char>, read: Parsed<QualifiedPath>, r: Result<Option<QualifiedPathView>, RefusalView>) -> bool {
    match read.outcome() {
        Ok(p) => r == Ok::<Option<QualifiedPathView>, RefusalView>(Some(p@)),
        Err(_) => r == Err::<Option<QualifiedPathView>, RefusalView>(refused(UNEXPECTED_TOKEN@, text)),
    }
}

/// What an `export` attribute is applied to.
pub enum ExportShape {
    /// An impl block on the service at `path`, whose items are all methods, one at least.
    Block { path: QualifiedPath, items: Vec<ItemRead> },
    /// A method named alone.
    Name { name: String },
}

pub enum ExportShapeView {
    Block { path: QualifiedPathView, methods: Seq<ExportedMethodView> },
    Name { name: Seq<char> },
}

/// The contents of an `export` attribute's item.
pub struct ServifyExport {
    shape: ExportShape,
}

/// What an export block on the service at `path`, whose items read as `items`, is: its
/// methods; refused for the first item that is not a method (about that item), and for a
/// block without a method (about the input as a whole).
pub open spec fn block_result(path: QualifiedPathView, items: Seq<ItemReadView>) -> Result<ExportShapeView, RefusalView> {
    match first_refusal(items, ERR_UNEXPECTED_ITEM_IN_EXPORT@) {
        Some(r) => Err(r),
        None => if item_methods(items).len() == 0 {
            Err(refused(ERR_NO_FN_IN_EXPORT@, Seq::empty()))
        } else {
            Ok(ExportShapeView::Block { path, methods: item_methods(items) })
        },
    }
}

/// What the export of `shape`, with the attribute's arguments naming the service at `args`
/// when they name one, generates: for a block, the exports of its methods; for a method named
/// alone, `mod {Service}_{method} { }`, where the arguments name the service, and otherwise
/// the refusal about the name.
pub open spec fn tokens_result(shape: ExportShapeView, args: Option<QualifiedPathView>) -> Result<Seq<char>, RefusalView> {
    match shape {
        ExportShapeView::Block { path, methods } => Ok(methods_text(path, methods)),
        ExportShapeView::Name { name } => match args {
            Some(p) => Ok("mod "@ + export_name(p.segments.last().ident, name) + " { }"@),
            None => Err(refused(EXPECTED_IMPL@, name)),
        },
    }
}

/// What the export of a block read gives: refused where it names no service, and otherwise
/// what `block_result` gives of its items.
pub open spec fn block_read_result(b: BlockRead) -> Result<ExportShapeView, RefusalView> {
    match block_path(b) {
        Err(r) => Err(r),
        Ok(p) => block_result(p, item_views(b.items@)),
    }
}

/// The identifier that `tokens` consist of, where they are a single identifier.
pub open spec fn single_ident(tokens: Seq<TokenView>) -> Option<Seq<char>> {
    if tokens.len() == 1 {
        match tokens[0] {
            TokenView::Ident(s) => Some(s),
            _ => None,
        }
    } else {
        None
    }
}

/// The readings of an `export` attribute's item are those of its parts: where the text lexed
/// into one identifier, that identifier is read as a name; where it lexed into anything else,
/// the same text is read as an impl block, each part by its own reading; where it did not lex,
/// nothing more is read.
pub open spec fn readings_fit(tokens: Parsed<Vec<Token>>, name: Option<Parsed<String>>, block: Option<BlockRead>) -> bool {
    match tokens.outcome() {
        Err(_) => name is None && block is None,
        Ok(ts) => match single_ident(token_views(ts@)) {
            Some(n) => block is None && (name matches Some(p) && p.source() == n),
            None => name is None && (block matches Some(b) && b.block.source() == tokens.source()
                && block_read_fits(b)),
        },
    }
}

/// What an `export` attribute's item is, from what lexing it gave (`tokens`), what reading the
/// single identifier as a name gave (`name`) and what reading it as an impl block gave
/// (`block`): refused where it did not lex (about the text); a method named alone where the
/// tokens are one identifier that reads as a name (refused with the error, about the identifier,
/// where it does not); and otherwise what the export of the block read gives.
pub open spec fn item_result(tokens: Parsed<Vec<Token>>, name: Option<Parsed<String>>, block: Option<BlockRead>) -> Result<ExportShapeView, RefusalView> {
    match tokens.outcome() {
        Err(e) => Err(refused(e@, tokens.source())),
        Ok(ts) => match single_ident(token_views(ts@)) {
            Some(n) => match name {
                Some(p) => match p.outcome() {
                    Ok(_) => Ok(ExportShapeView::Name { name: n }),
                    Err(e) => Err(refused(e@, n)),
                },
                None => Err(refused(EXPECTED_IMPL@, n)),
            },
            None => match block {
                Some(b) => block_read_result(b),
                None => Err(refused(EXPECTED_IMPL@, tokens.source())),
            },
        },
    }
}

/// What the `export` attribute generates, where its arguments name the service at `args`
/// (when they name one) and its item is `item`: the refusal of the item, or what `tokens_result`
/// gives.
pub open spec fn source_result(args: Option<QualifiedPathView>, item: Result<ExportShapeView, RefusalView>) -> Result<Seq<char>, RefusalView> {
    match item {
        Err(r) => Err(r),
        Ok(shape) => tokens_result(shape, args),
    }
}

/// The view of a reading of an `export` attribute's item.
pub open spec fn export_outcome(r: Result<ServifyExport, Refusal>) -> Result<ExportShapeView, RefusalView> {
    match r {
        Ok(e) => Ok(e.shape()),
        Err(x) => Err(x@),
    }
}

proof fn lemma_no_refusal_all_methods(items: Seq<ItemReadView>, other: Seq<char>)
    requires
        first_refusal(items, other) is None,
    ensures
        item_methods(items).len() == items.len(),
    decreases items.len(),
{
    if items.len() > 0 {
        lemma_no_refusal_all_methods(items.drop_last(), other);
    }
}

impl ServifyExport {
    #[verifier::type_invariant]
    spec fn well_formed(self) -> bool {
        match self.shape {
            ExportShape::Block { path, items } => path.segments@.len() > 0
                && item_methods(item_views(items@)).len() > 0,
            ExportShape::Name { .. } => true,
        }
    }

    /// What the item is: a block with its service's path and its methods, or a name.
    pub closed spec fn shape(self) -> ExportShapeView {
        match self.shape {
            ExportShape::Block { path, items } => ExportShapeView::Block {
                path: path@,
                methods: item_methods(item_views(items@)),
            },
            ExportShape::Name { name } => ExportShapeView::Name { name: name@ },
        }
    }

    /// The export block on the service at `path`, whose items are `items`: its methods, or
    /// the refusal.
    pub fn from_block(path: QualifiedPath, items: Vec<ItemRead>) -> (res: Result<ServifyExport, Refusal>)
        requires
            path.segments@.len() > 0,
        ensures
            match res {
                Ok(e) => block_result(path@, item_views(items@)) == Ok::<ExportShapeView, RefusalView>(e.shape()),
                Err(r) => block_result(path@, item_views(items@)) == Err::<ExportShapeView, RefusalView>(r@),
            },
    {
        match crate::export::find_refusal(&items, ERR_UNEXPECTED_ITEM_IN_EXPORT) {
            Some(r) => Err(r),
            None => {
                proof {
                    lemma_no_refusal_all_methods(item_views(items@), ERR_UNEXPECTED_ITEM_IN_EXPORT@);
                }
                if items.len() == 0 {
                    proof {
                        reveal_strlit("");
                    assert(""@ =~= Seq::<char>::empty());
                    }
                    Err(refusal(ERR_NO_FN_IN_EXPORT, ""))
                } else {
                    let ghost pv = path@;
                    let ghost ms = item_methods(item_views(items@));
                    let e = ServifyExport { shape: ExportShape::Block { path, items } };
                    assert(e.shape() == ExportShapeView::Block { path: pv, methods: ms });
                    Ok(e)
                }
            },
        }
    }

    /// The export whose item is a block read as `b`: the methods of the block on the service
    /// it names, or the refusal.
    pub fn from_block_read(b: BlockRead) -> (res: Result<ServifyExport, Refusal>)
        requires
            block_read_fits(b),
        ensures
            export_outcome(res) == block_read_result(b),
    {
        let path = match service_of_block(&b) {
            Ok(path) => path,
            Err(r) => return Err(r),
        };
        ServifyExport::from_block(path, b.items)
    }

    /// The export whose item gave the readings `tokens`, `name` and `block`, as `item_result`
    /// judges them.
    pub fn from_readings(tokens: Parsed<Vec<Token>>, name: Option<Parsed<String>>, block: Option<BlockRead>) -> (res: Result<ServifyExport, Refusal>)
        requires
            readings_fit(tokens, name, block),
        ensures
            export_outcome(res) == item_result(tokens, name, block),
    {
        let ghost tk = tokens;
        let source = tokens.source_text();
        let ts = match tokens.value() {
            Err(e) => return Err(refusal(e.as_str(), source.as_str())),
            Ok(ts) => ts,
        };
        let ghost tv = token_views(ts@);
        if ts.len() == 1 {
            assert(tv[0] == ts@[0]@);
            match &ts[0] {
                Token::Ident(n) => {
                    return match name {
                        Some(p) => match p.into_value() {
                            Ok(_) => Ok(ServifyExport { shape: ExportShape::Name { name: n.clone() } }),
                            Err(e) => Err(refusal(e.as_str(), n.as_str())),
                        },
                        None => Err(refusal(EXPECTED_IMPL, n.as_str())),
                    };
                },
                _ => {},
            }
        }
        match block {
            Some(b) => ServifyExport::from_block_read(b),
            None => Err(refusal(EXPECTED_IMPL, source.as_str())),
        }
    }

    /// Reads the item of an `export` attribute, written as `text`: it is lexed; where it is one
    /// identifier, that identifier is read as a name, and otherwise `text` is read by `read_block`;
    /// `from_readings` judges the readings. Stated: the result is what `item_result` gives of
    /// readings of `text` and of its parts.
    pub fn parse(text: &str) -> (res: Result<ServifyExport, Refusal>)
        ensures
            exists|tokens: Parsed<Vec<Token>>, name: Option<Parsed<String>>, block: Option<BlockRead>|
                tokens.source() == text@ && readings_fit(tokens, name, block)
                    && #[trigger] item_result(tokens, name, block) == export_outcome(res),
    {
        let tokens = read_token_trees(text);
        let mut name: Option<Parsed<String>> = None;
        let mut block: Option<BlockRead> = None;
        match tokens.value() {
            Err(_) => {},
            Ok(ts) => {
                let ghost tv = token_views(ts@);
                let mut single = false;
                if ts.len() == 1 {
                    assert(tv[0] == ts@[0]@);
                    match &ts[0] {
                        Token::Ident(s) => {
                            name = Some(read_ident(s.as_str()));
                            single = true;
                        },
                        _ => {},
                    }
                }
                if !single {
                    block = Some(read_block(text));
                }
            },
        }
        let ghost tk = tokens;
        let ghost nm = name;
        let ghost bl = block;
        let res = ServifyExport::from_readings(tokens, name, block);
        assert(item_result(tk, nm, bl) == export_outcome(res));
        res
    }

    /// The code that the export of the item generates, with the attribute's arguments `args`.
    pub fn to_tokens(self, args: ServifyExportArgs) -> (res: Result<String, Refusal>)
        ensures
            outcome(res) == tokens_result(self.shape(), args.service_path()),
    {
        proof {
            use_type_invariant(&self);
            use_type_invariant(&args);
        }
        match self.shape {
            ExportShape::Block { path, items } => Ok(export_methods(&path, &items)),
            ExportShape::Name { name } => match args.service_path {
                Some(p) => {
                    let service_name = p.last_ident();
                    let mod_name = make_export_name(service_name.as_str(), name.as_str());
                    let mut out = owned("mod ");
                    out.append(mod_name.as_str());
                    out.append(" { }");
                    Ok(out)
                },
                None => Err(refusal(EXPECTED_IMPL, name.as_str())),
            },
        }
    }
}

/// The code that the `export` attribute with arguments written as `attr` makes of the item
/// written as `item`, or the refusal: the arguments read by `ServifyExportArgs::parse`, the
/// item by `ServifyExport::parse`, and the code made by `ServifyExport::to_tokens`.
pub fn export_source(attr: &str, item: &str) -> (res: Result<String, Refusal>)
    ensures
        (res matches Err(r) && !is_blank(attr@) && r@ == refused(UNEXPECTED_TOKEN@, attr@))
            || exists|
                args: Option<QualifiedPathView>,
                tokens: Parsed<Vec<Token>>,
                name: Option<Parsed<String>>,
                block: Option<BlockRead>,
            |
                (is_blank(attr@) ==> args is None) && (!is_blank(attr@) ==> args is Some)
                    && tokens.source() == item@ && readings_fit(tokens, name, block)
                    && #[trigger] source_result(args, item_result(tokens, name, block)) == outcome(res),
{
    let args = match ServifyExportArgs::parse(attr) {
        Ok(args) => args,
        Err(r) => return Err(r),
    };
    let ghost service = args.service_path();
    let export = ServifyExport::parse(item);
    let ghost parsed = export_outcome(export);
    let ghost (t, n, bl) = choose|tokens: Parsed<Vec<Token>>, name: Option<Parsed<String>>, block: Option<BlockRead>|
        tokens.source() == item@ && readings_fit(tokens, name, block)
            && #[trigger] item_result(tokens, name, block) == parsed;
    let export = match export {
        Ok(export) => export,
        Err(r) => {
            assert(source_result(service, item_result(t, n, bl)) == Err::<Seq<char>, RefusalView>(r@));
            return Err(r);
        },
    };
    let res = export.to_tokens(args);
    assert(source_result(service, item_result(t, n, bl)) == outcome(res));
    res
}

/// The `export` attribute: the generated code, or the refusal as tokens that make the
/// compiler report it.
pub fn export(attr: proc_macro2::TokenStream, item: proc_macro2::TokenStream) -> proc_macro2::TokenStream {
    let attr_text = token_text(&attr);
    let item_text = token_text(&item);
    emit(export_source(attr_text.as_str(), item_text.as_str()))
}

} // verus!
