//! The `service` attribute: a struct, together with the list of the methods exported for
//! it, becomes a module with the message enum, the server, the client, and the channel
//! that joins them.
use vstd::prelude::*;
use vstd::string::*;
use crate::casing::to_camel;
use crate::item::{StructItem, StructItemView};
use crate::naming::{
    find_method_of_export, internal_fn_name, make_internal_fn_name, method_of_export,
    variant_name,
};
use crate::path::{path_text, to_super, QualifiedPath, QualifiedPathView};
use crate::refusal::{outcome, refusal, refused, Refusal, RefusalView};
use crate::syntax::{
    emit, read_ident, read_item_struct, read_path_list, read_token_trees, read_type_path,
    token_text, Parsed,
};
use crate::text::owned;
use crate::tokens::{token_views, GroupDelimiter, Token, TokenView};

verus! {

/// Refusal of an attribute argument other than `impls`.
pub const UNKNOWN_PROPERTY: &'static str = "Unknown property. expected `impls`";

/// Refusal of a property name that is not an identifier.
pub const EXPECTED_IDENT: &'static str = "expected identifier";

/// Refusal of a property without `=` after its name.
pub const EXPECTED_EQ: &'static str = "expected `=`";

/// Refusal of a property whose value is not in square brackets.
pub const EXPECTED_BRACKETS: &'static str = "expected square brackets";

/// Refusal of a property whose value is missing.
pub const END_EXPECTED_BRACKETS: &'static str = "unexpected end of input, expected square brackets";

/// What reading a bracketed list of type paths gave: the list read as printed paths, and each
/// printed path read as a type path.
pub struct PathListRead {
    pub list: Parsed<Vec<String>>,
    pub paths: Vec<Parsed<QualifiedPath>>,
}

/// The readings of `r` are those of the list written as `stream`: the list is read from it, and
/// each path it lists is read, one reading each, in order.
pub open spec fn path_list_fits(r: PathListRead, stream: Seq<char>) -> bool {
    &&& r.list.source() == stream
    &&& match r.list.outcome() {
        Err(_) => r.paths@.len() == 0,
        Ok(texts) => r.paths@.len() == texts@.len()
            && forall|i: int| 0 <= i < texts@.len() ==> #[trigger] r.paths@[i].source() == texts@[i]@,
    }
}

/// Every path read has a segment, as every type path has.
pub open spec fn path_list_whole(r: PathListRead) -> bool {
    forall|i: int| 0 <= i < r.paths@.len() ==> (#[trigger] r.paths@[i].outcome() matches Ok(q) ==> q.segments@.len() > 0)
}

/// The view of what reading a path gave.
pub open spec fn path_read_view(p: Parsed<QualifiedPath>) -> Result<QualifiedPathView, Seq<char>> {
    match p.outcome() {
        Ok(q) => Ok(q@),
        Err(e) => Err(e@),
    }
}

/// The paths read, in order, or the error of the first that could not be read.
pub open spec fn path_results(ps: Seq<Parsed<QualifiedPath>>) -> Result<Seq<QualifiedPathView>, Seq<char>>
    decreases ps.len(),
{
    if ps.len() == 0 {
        Ok(Seq::empty())
    } else {
        match path_results(ps.drop_last()) {
            Err(e) => Err(e),
            Ok(prev) => match path_read_view(ps.last()) {
                Err(e) => Err(e),
                Ok(q) => Ok(prev.push(q)),
            },
        }
    }
}

/// The paths that a bracketed list lists: the error of reading the list, or what
/// `path_results` gives of its paths.
pub open spec fn path_list_result(r: PathListRead) -> Result<Seq<QualifiedPathView>, Seq<char>> {
    match r.list.outcome() {
        Err(e) => Err(e@),
        Ok(_) => path_results(r.paths@),
    }
}

/// A token of the `service` attribute's arguments, with what reading it gave.
pub enum TokenRead {
    /// An identifier: its text, and its reading as a name, which is not a keyword.
    Name { text: String, name: Parsed<String> },
    /// A punctuation character, with its text.
    Punct { ch: char, text: String },
    /// A group in brackets: its text, and the reading of the type paths it lists.
    Bracketed { text: String, list: PathListRead },
    /// Any other token, with its text.
    Other { text: String },
}

pub enum TokenReadView {
    Name { text: Seq<char>, name: Result<Seq<char>, Seq<char>> },
    Punct { ch: char, text: Seq<char> },
    Bracketed { text: Seq<char>, paths: Result<Seq<QualifiedPathView>, Seq<char>> },
    Other { text: Seq<char> },
}

pub open spec fn path_views(ps: Seq<QualifiedPath>) -> Seq<QualifiedPathView> {
    ps.map_values(|p: QualifiedPath| p@)
}

impl View for TokenRead {
    type V = TokenReadView;

    open spec fn view(&self) -> TokenReadView {
        match self {
            TokenRead::Name { text, name } => TokenReadView::Name {
                text: text@,
                name: match name.outcome() {
                    Ok(n) => Ok(n@),
                    Err(e) => Err(e@),
                },
            },
            TokenRead::Punct { ch, text } => TokenReadView::Punct { ch: *ch, text: text@ },
            TokenRead::Bracketed { text, list } => TokenReadView::Bracketed {
                text: text@,
                paths: path_list_result(*list),
            },
            TokenRead::Other { text } => TokenReadView::Other { text: text@ },
        }
    }
}

impl TokenReadView {
    /// The text of the token.
    pub open spec fn text(self) -> Seq<char> {
        match self {
            TokenReadView::Name { text, .. } => text,
            TokenReadView::Punct { text, .. } => text,
            TokenReadView::Bracketed { text, .. } => text,
            TokenReadView::Other { text } => text,
        }
    }
}

pub open spec fn read_views(reads: Seq<TokenRead>) -> Seq<TokenReadView> {
    reads.map_values(|t: TokenRead| t@)
}

/// Every path that the token lists has a segment, as every path read has.
pub open spec fn read_whole(t: TokenRead) -> bool {
    match t {
        TokenRead::Bracketed { list, .. } => path_list_whole(list),
        _ => true,
    }
}

pub open spec fn is_punct(t: TokenReadView, c: char) -> bool {
    t matches TokenReadView::Punct { ch, .. } && ch == c
}

/// The text of the token at `i`, or nothing past the end.
pub open spec fn text_at(tokens: Seq<TokenReadView>, i: int) -> Seq<char> {
    if 0 <= i < tokens.len() {
        tokens[i].text()
    } else {
        Seq::empty()
    }
}

/// The paths listed by the arguments `impls = [..]` from token `i` on, in order, or the
/// refusal of the first argument that is wrong, about the token where it goes wrong (nothing
/// where the arguments end too early). Arguments may be separated by commas.
pub open spec fn listed_paths_from(tokens: Seq<TokenReadView>, i: int) -> Result<Seq<QualifiedPathView>, RefusalView>
    decreases tokens.len() - i,
{
    if i < 0 || i >= tokens.len() {
        Ok(Seq::empty())
    } else {
        match tokens[i] {
            TokenReadView::Name { text, name } => match name {
                Err(e) => Err(refused(e, text)),
                Ok(name) => if name != "impls"@ {
                    Err(refused(UNKNOWN_PROPERTY@, text))
                } else if i + 1 >= tokens.len() || !is_punct(tokens[i + 1], '=') {
                    Err(refused(EXPECTED_EQ@, text_at(tokens, i + 1)))
                } else if i + 2 >= tokens.len() {
                    Err(refused(END_EXPECTED_BRACKETS@, Seq::empty()))
                } else {
                    match tokens[i + 2] {
                        TokenReadView::Bracketed { text: group, paths: listed } => match listed {
                            Err(e) => Err(refused(e, group)),
                            Ok(paths) => {
                                let next = if i + 3 < tokens.len() && is_punct(tokens[i + 3], ',') {
                                    i + 4
                                } else {
                                    i + 3
                                };
                                match listed_paths_from(tokens, next) {
                                    Err(r) => Err(r),
                                    Ok(rest) => Ok(paths + rest),
                                }
                            },
                        },
                        t => Err(refused(EXPECTED_BRACKETS@, t.text())),
                    }
                }
            },
            t => Err(refused(EXPECTED_IDENT@, t.text())),
        }
    }
}

/// The view of a reading of the `service` attribute's arguments: the listed paths, or the
/// refusal.
pub open spec fn attrs_outcome(r: Result<ServiceParentAttrs, Refusal>) -> Result<Seq<QualifiedPathView>, RefusalView> {
    match r {
        Ok(a) => Ok(a.paths()),
        Err(x) => Err(x@),
    }
}

/// What lexing the arguments gave (`tokens`) and what reading their tokens gave (`reads`) make of
/// them: `r` is the refusal of text that did not lex, about the text; or, where `reads` are the
/// readings of the tokens, what `listed_paths_from` gives of them.
pub open spec fn attrs_read(tokens: Parsed<Vec<Token>>, reads: Seq<TokenRead>, r: Result<Seq<QualifiedPathView>, RefusalView>) -> bool {
    match tokens.outcome() {
        Err(e) => r == Err::<Seq<QualifiedPathView>, RefusalView>(refused(e@, tokens.source())),
        Ok(ts) => reads_of(token_views(ts@), reads) && listed_paths_from(read_views(reads), 0) == r,
    }
}

/// The arguments of the `service` attribute: the exported methods that the service serves,
/// each named by the path of its marker type.
pub struct ServiceParentAttrs {
    impls: Vec<QualifiedPath>,
}

impl ServiceParentAttrs {
    #[verifier::type_invariant]
    spec fn paths_have_segments(self) -> bool {
        forall|i: int| 0 <= i < self.impls@.len() ==> #[trigger] self.impls@[i].segments@.len() > 0
    }

    /// The listed paths.
    pub closed spec fn paths(self) -> Seq<QualifiedPathView> {
        path_views(self.impls@)
    }
}

fn is_punct_token(t: &TokenRead, c: char) -> (res: bool)
    ensures
        res == is_punct(t@, c),
{
    match t {
        TokenRead::Punct { ch, .. } => *ch == c,
        _ => false,
    }
}

fn text_of(t: &TokenRead) -> (res: &String)
    ensures
        res@ == t@.text(),
{
    match t {
        TokenRead::Name { text, .. } => text,
        TokenRead::Punct { text, .. } => text,
        TokenRead::Bracketed { text, .. } => text,
        TokenRead::Other { text } => text,
    }
}

proof fn lemma_path_results_err(ps: Seq<Parsed<QualifiedPath>>, k: int)
    requires
        0 <= k <= ps.len(),
        path_results(ps.take(k)) is Err,
    ensures
        path_results(ps) == path_results(ps.take(k)),
    decreases ps.len() - k,
{
    if k < ps.len() {
        let t = ps.take(k + 1);
        assert(t.drop_last() =~= ps.take(k));
        lemma_path_results_err(ps, k + 1);
    } else {
        assert(ps.take(k) =~= ps);
    }
}

/// The paths that a bracketed list read as `r` lists, in order, or the message of the first
/// error: of reading the list, or of the first path that could not be read.
pub fn paths_of(r: &PathListRead) -> (res: Result<Vec<QualifiedPath>, String>)
    requires
        path_list_whole(*r),
    ensures
        match res {
            Ok(ps) => path_list_result(*r) == Ok::<Seq<QualifiedPathView>, Seq<char>>(path_views(ps@)),
            Err(e) => path_list_result(*r) == Err::<Seq<QualifiedPathView>, Seq<char>>(e@),
        },
        res matches Ok(ps) ==> forall|j: int| 0 <= j < ps@.len() ==> #[trigger] ps@[j].segments@.len() > 0,
{
    match r.list.value() {
        Err(e) => return Err(e.clone()),
        Ok(_) => {},
    }
    let ghost all = r.paths@;
    let mut out: Vec<QualifiedPath> = Vec::new();
    let n = r.paths.len();
    let mut i: usize = 0;
    proof {
        assert(all.take(0) =~= Seq::<Parsed<QualifiedPath>>::empty());
        assert(path_views(out@) =~= Seq::<QualifiedPathView>::empty());
    }
    while i < n
        invariant
            n == all.len(),
            all == r.paths@,
            r.list.outcome() is Ok,
            path_list_whole(*r),
            i <= n,
            path_results(all.take(i as int)) == Ok::<Seq<QualifiedPathView>, Seq<char>>(path_views(out@)),
            forall|j: int| 0 <= j < out@.len() ==> #[trigger] out@[j].segments@.len() > 0,
        decreases n - i,
    {
        let ghost t = all.take(i as int + 1);
        proof {
            assert(t.drop_last() =~= all.take(i as int));
            assert(t.last() == all[i as int]);
        }
        match r.paths[i].value() {
            Err(e) => {
                proof {
                    lemma_path_results_err(all, i as int + 1);
                }
                return Err(e.clone());
            },
            Ok(q) => {
                assert(r.paths@[i as int].outcome() matches Ok(q) ==> q.segments@.len() > 0);
                let d = q.duplicate();
                assert(d.segments@.len() == d@.segments.len());
                assert(q.segments@.len() == q@.segments.len());
                let ghost before = path_views(out@);
                out.push(d);
                assert(path_views(out@) =~= before.push(q@));
            },
        }
        i = i + 1;
    }
    assert(all.take(n as int) =~= all);
    Ok(out)
}

/// Reads the list of type paths written as `stream`: the list, and then each path it lists.
pub fn read_paths(stream: &str) -> (res: PathListRead)
    ensures
        path_list_fits(res, stream@),
        path_list_whole(res),
{
    let list = read_path_list(stream);
    let mut paths: Vec<Parsed<QualifiedPath>> = Vec::new();
    match list.value() {
        Err(_) => {},
        Ok(texts) => {
            let n = texts.len();
            let mut i: usize = 0;
            while i < n
                invariant
                    n == texts@.len(),
                    i <= n,
                    paths@.len() == i,
                    forall|j: int| 0 <= j < i ==> #[trigger] paths@[j].source() == texts@[j]@,
                    forall|j: int| 0 <= j < paths@.len() ==> (#[trigger] paths@[j].outcome() matches Ok(q) ==> q.segments@.len() > 0),
                decreases n - i,
            {
                paths.push(read_type_path(texts[i].as_str()));
                i = i + 1;
            }
        },
    }
    PathListRead { list, paths }
}

/// `r` is the reading of the token `t`: an identifier is read as a name, from its own text; a
/// punctuation character stays itself; a group in brackets is read as a list of paths, from the
/// text it encloses; any other token is kept with its text.
pub open spec fn read_matches(t: TokenView, r: TokenRead) -> bool {
    match t {
        TokenView::Ident(s) => r matches TokenRead::Name { text, name } && text@ == s && name.source() == s,
        TokenView::Punct { ch, text } => r matches TokenRead::Punct { ch: c2, text: t2 } && c2 == ch && t2@ == text,
        TokenView::Group { delimiter, stream, text } => match delimiter {
            GroupDelimiter::Bracket => r matches TokenRead::Bracketed { text: t2, list } && t2@ == text
                && path_list_fits(list, stream),
            _ => r matches TokenRead::Other { text: t2 } && t2@ == text,
        },
        TokenView::Literal(s) => r matches TokenRead::Other { text: t2 } && t2@ == s,
    }
}

/// `reads` are the readings of `tokens`, one for each, in order, each path read with a segment.
pub open spec fn reads_of(tokens: Seq<TokenView>, reads: Seq<TokenRead>) -> bool {
    &&& reads.len() == tokens.len()
    &&& forall|i: int| 0 <= i < tokens.len() ==> read_matches(#[trigger] tokens[i], reads[i])
    &&& forall|i: int| 0 <= i < reads.len() ==> read_whole(#[trigger] reads[i])
}

/// Reads each token of the arguments: identifiers as names (`syn::Ident`), groups in brackets
/// as lists of type paths; the others are kept as they are.
pub fn read_tokens(tokens: &Vec<Token>) -> (res: Vec<TokenRead>)
    ensures
        reads_of(token_views(tokens@), res@),
{
    let mut out: Vec<TokenRead> = Vec::new();
    let n = tokens.len();
    let mut i: usize = 0;
    while i < n
        invariant
            n == tokens@.len(),
            i <= n,
            out@.len() == i,
            forall|j: int| 0 <= j < i ==> read_matches(#[trigger] tokens@[j]@, out@[j]),
            forall|j: int| 0 <= j < out@.len() ==> read_whole(#[trigger] out@[j]),
        decreases n - i,
    {
        let read = match &tokens[i] {
            Token::Ident(s) => TokenRead::Name { text: s.clone(), name: read_ident(s.as_str()) },
            Token::Punct { ch, text } => TokenRead::Punct { ch: *ch, text: text.clone() },
            Token::Group { delimiter: GroupDelimiter::Bracket, stream, text } => TokenRead::Bracketed {
                text: text.clone(),
                list: read_paths(stream.as_str()),
            },
            Token::Group { text, .. } => TokenRead::Other { text: text.clone() },
            Token::Literal(text) => TokenRead::Other { text: text.clone() },
        };
        assert(read_matches(tokens@[i as int]@, read));
        out.push(read);
        i = i + 1;
    }
    proof {
        let tv = token_views(tokens@);
        assert forall|j: int| 0 <= j < tv.len() implies read_matches(#[trigger] tv[j], out@[j]) by {
            assert(tv[j] == tokens@[j]@);
        }
    }
    out
}

impl ServiceParentAttrs {
    /// The arguments whose tokens read as `reads`: the paths that they list, or the refusal of
    /// the first argument that is wrong.
    pub fn from_reads(reads: &Vec<TokenRead>) -> (res: Result<ServiceParentAttrs, Refusal>)
        requires
            forall|i: int| 0 <= i < reads@.len() ==> read_whole(#[trigger] reads@[i]),
        ensures
            match res {
                Ok(a) => listed_paths_from(read_views(reads@), 0) == Ok::<Seq<QualifiedPathView>, RefusalView>(a.paths()),
                Err(r) => listed_paths_from(read_views(reads@), 0) == Err::<Seq<QualifiedPathView>, RefusalView>(r@),
            },
    {
        let ghost tv = read_views(reads@);
        let n = reads.len();
        let mut acc: Vec<QualifiedPath> = Vec::new();
        let mut i: usize = 0;
        while i < n
            invariant
                n == reads@.len(),
                tv == read_views(reads@),
                forall|k: int| 0 <= k < reads@.len() ==> read_whole(#[trigger] reads@[k]),
                forall|k: int| 0 <= k < acc@.len() ==> #[trigger] acc@[k].segments@.len() > 0,
                i <= n,
                listed_paths_from(tv, 0) == match listed_paths_from(tv, i as int) {
                    Err(r) => Err(r),
                    Ok(rest) => Ok::<Seq<QualifiedPathView>, RefusalView>(path_views(acc@) + rest),
                },
            decreases n - i,
        {
            assert(tv[i as int] == reads@[i as int]@);
            let (text, read) = match &reads[i] {
                TokenRead::Name { text, name } => (text, name),
                t => {
                    let at = text_of(t);
                    return Err(refusal(EXPECTED_IDENT, at.as_str()));
                },
            };
            let name = match read.value() {
                Ok(name) => name,
                Err(e) => return Err(refusal(e.as_str(), text.as_str())),
            };
            if name.clone() != owned("impls") {
                return Err(refusal(UNKNOWN_PROPERTY, text.as_str()));
            }
            if i + 1 >= n || !is_punct_token(&reads[i + 1], '=') {
                if i + 1 < n {
                    let at = text_of(&reads[i + 1]);
                    return Err(refusal(EXPECTED_EQ, at.as_str()));
                }
                proof {
                    reveal_strlit("");
                    assert(""@ =~= Seq::<char>::empty());
                }
                return Err(refusal(EXPECTED_EQ, ""));
            }
            if i + 2 >= n {
                proof {
                    reveal_strlit("");
                    assert(""@ =~= Seq::<char>::empty());
                }
                return Err(refusal(END_EXPECTED_BRACKETS, ""));
            }
            assert(tv[i as int + 2] == reads@[i as int + 2]@);
            let paths = match &reads[i + 2] {
                TokenRead::Bracketed { text: group, list } => match paths_of(list) {
                    Ok(paths) => paths,
                    Err(e) => return Err(refusal(e.as_str(), group.as_str())),
                },
                t => {
                    let at = text_of(t);
                    return Err(refusal(EXPECTED_BRACKETS, at.as_str()));
                },
            };
            let next = if i + 3 < n && is_punct_token(&reads[i + 3], ',') {
                i + 4
            } else {
                i + 3
            };
            let ghost before = path_views(acc@);
            let mut k: usize = 0;
            while k < paths.len()
                invariant
                    path_views(acc@) == before + path_views(paths@).take(k as int),
                    k <= paths@.len(),
                    forall|j: int| 0 <= j < paths@.len() ==> #[trigger] paths@[j].segments@.len() > 0,
                    forall|j: int| 0 <= j < acc@.len() ==> #[trigger] acc@[j].segments@.len() > 0,
                decreases paths@.len() - k,
            {
                let ghost va = path_views(acc@);
                let p = paths[k].duplicate();
                assert(p.segments@.len() == p@.segments.len());
                assert(paths@[k as int].segments@.len() == paths@[k as int]@.segments.len());
                acc.push(p);
                proof {
                    assert(path_views(acc@) =~= va.push(paths@[k as int]@));
                    assert(path_views(paths@).take(k as int + 1) =~= path_views(paths@).take(k as int).push(paths@[k as int]@));
                }
                k = k + 1;
            }
            proof {
                assert(path_views(paths@).take(paths@.len() as int) =~= path_views(paths@));
                assert(forall|r: Seq<QualifiedPathView>| before + (path_views(paths@) + r) =~= path_views(acc@) + r);
            }
            i = next;
        }
        proof {
            assert(path_views(acc@) + Seq::<QualifiedPathView>::empty() =~= path_views(acc@));
        }
        Ok(ServiceParentAttrs { impls: acc })
    }

    /// The arguments that lexed into `tokens`: each token is read by `read_tokens`, and the
    /// readings judged by `from_reads`.
    pub fn from_tokens(tokens: &Vec<Token>) -> (res: Result<ServiceParentAttrs, Refusal>)
        ensures
            exists|reads: Seq<TokenRead>| reads_of(token_views(tokens@), reads)
                && #[trigger] listed_paths_from(read_views(reads), 0) == attrs_outcome(res),
    {
        let reads = read_tokens(tokens);
        let res = ServiceParentAttrs::from_reads(&reads);
        assert(listed_paths_from(read_views(reads@), 0) == attrs_outcome(res));
        res
    }

    /// Reads the arguments of the `service` attribute, written as `text`: `impls = [paths..]`,
    /// repeated, the repetitions separated by optional commas. The text is lexed and the tokens
    /// judged by `from_tokens`. Stated: the result is what `attrs_read` gives of a lexing of
    /// `text` and of readings of its tokens.
    pub fn parse(text: &str) -> (res: Result<ServiceParentAttrs, Refusal>)
        ensures
            exists|tokens: Parsed<Vec<Token>>, reads: Seq<TokenRead>|
                tokens.source() == text@ && #[trigger] attrs_read(tokens, reads, attrs_outcome(res)),
    {
        let tokens = read_token_trees(text);
        let ghost tk = tokens;
        let res = match tokens.value() {
            Err(e) => Err(refusal(e.as_str(), tokens.source_text().as_str())),
            Ok(ts) => ServiceParentAttrs::from_tokens(ts),
        };
        proof {
            if let Ok(ts) = tk.outcome() {
                let reads = choose|reads: Seq<TokenRead>| reads_of(token_views(ts@), reads)
                    && #[trigger] listed_paths_from(read_views(reads), 0) == attrs_outcome(res);
                assert(attrs_read(tk, reads, attrs_outcome(res)));
            } else {
                assert(attrs_read(tk, Seq::empty(), attrs_outcome(res)));
            }
        }
        res
    }
}

// ----------------------------------------------------------------------------------------
// The generated module

/// The method that the marker type at `p` stands for, in the service `service`.
pub open spec fn served_method(service: Seq<char>, p: QualifiedPathView) -> Option<Seq<char>> {
    method_of_export(service, p.segments.last().ident)
}

/// `<{marker} as ::servify::ServifyExport>::{assoc}`
pub open spec fn exported_type(marker: Seq<char>, assoc: Seq<char>) -> Seq<char> {
    "< "@ + marker + " as :: servify :: ServifyExport > :: "@ + assoc
}

/// The message variant for method `f`, whose marker type is at `marker`: the request, and
/// the sender on which the response goes back.
pub open spec fn variant_text(f: Seq<char>, marker: Seq<char>) -> Seq<char> {
    variant_name(f) + " ("@ + exported_type(marker, "Request"@) + " , :: tokio :: sync :: oneshot :: Sender <"@
        + exported_type(marker, "Response"@) + " > ,) , "@
}

/// The arm of the server's loop for method `f`: call the method, send back its result.
pub open spec fn arm_text(f: Seq<char>) -> Seq<char> {
    "Message :: "@ + variant_name(f) + " (req , tx) => { let res = self . "@ + f
        + " (req) . await ; tx . send (res) . unwrap () ; } , "@
}

/// The internal function for method `f`, through which the client sends a request and
/// awaits the response.
pub open spec fn internal_text(f: Seq<char>, marker: Seq<char>) -> Seq<char> {
    "# [doc (hidden)] pub async fn "@ + internal_fn_name(f) + " (client : & Client , req : "@
        + exported_type(marker, "Request"@) + " ,) -> "@ + exported_type(marker, "Response"@)
        + " { let (tx , rx) = :: tokio :: sync :: oneshot :: channel () ; client . tx . send (Message :: "@
        + variant_name(f) + " (req , tx)) . await . unwrap () ; rx . await . unwrap () } "@
}

/// What the listed path `p` contributes through `piece`: nothing when it names no method of
/// the service.
pub open spec fn piece_of(service: Seq<char>, p: QualifiedPathView, kind: int) -> Seq<char> {
    match served_method(service, p) {
        None => Seq::empty(),
        Some(f) => {
            let marker = path_text(p.to_super());
            if kind == 0 {
                variant_text(f, marker)
            } else if kind == 1 {
                arm_text(f)
            } else {
                internal_text(f, marker)
            }
        },
    }
}

/// The pieces of kind `kind` (0: variants, 1: arms, 2: internal functions) of the listed
/// paths, in order.
pub open spec fn pieces(service: Seq<char>, paths: Seq<QualifiedPathView>, kind: int) -> Seq<char>
    decreases paths.len(),
{
    if paths.len() == 0 {
        Seq::empty()
    } else {
        pieces(service, paths.drop_last(), kind) + piece_of(service, paths.last(), kind)
    }
}

/// The module that the service attribute makes of struct `s` and the listed paths.
pub open spec fn service_text(s: StructItemView, paths: Seq<QualifiedPathView>) -> Seq<char> {
    "# [allow (non_snake_case)] mod "@ + s.ident + " { pub enum Message { "@ + pieces(s.ident, paths, 0)
        + " } pub struct Server "@ + s.fields
        + " # [derive (Clone)] pub struct Client { tx : :: tokio :: sync :: mpsc :: Sender < Message > , } impl Server { pub async fn listen (& mut self , mut rx : :: tokio :: sync :: mpsc :: Receiver < Message >) { while let Some (msg) = rx . recv () . await { match msg { "@
        + pieces(s.ident, paths, 1) + " } } } } "@ + pieces(s.ident, paths, 2)
        + "pub fn initiate_message_passing (buffer : usize) -> (:: tokio :: sync :: mpsc :: Receiver < Message > , Client) { let (tx , rx) = :: tokio :: sync :: mpsc :: channel (buffer) ; let client = Client { tx } ; (rx , client) } }"@
}

/// The reading of the method name derived from the path at `i`: the message of the error,
/// where the name is no identifier; nothing where it is one, or where there is no reading.
pub open spec fn check_at(checks: Seq<Option<Seq<char>>>, i: int) -> Option<Seq<char>> {
    if 0 <= i < checks.len() {
        checks[i]
    } else {
        None
    }
}

/// The refusal of the first of `paths` that names a method of the service `service` whose
/// name is no identifier (`checks` holds, for each path, the error that reading that name as
/// an identifier met), about the path's last segment.
pub open spec fn name_refusal(service: Seq<char>, paths: Seq<QualifiedPathView>, checks: Seq<Option<Seq<char>>>) -> Option<RefusalView>
    decreases paths.len(),
{
    if paths.len() == 0 {
        None
    } else {
        match name_refusal(service, paths.drop_last(), checks) {
            Some(r) => Some(r),
            None => match served_method(service, paths.last()) {
                None => None,
                Some(_) => match check_at(checks, paths.len() - 1) {
                    None => None,
                    Some(e) => Some(refused(e, paths.last().segments.last().ident)),
                },
            },
        }
    }
}

/// What the service attribute, with arguments listing `paths`, makes of the struct `s`, where
/// the names of the methods read as `checks`: the module, or the refusal of the first method
/// name that is no identifier.
pub open spec fn module_result(s: StructItemView, paths: Seq<QualifiedPathView>, checks: Seq<Option<Seq<char>>>) -> Result<Seq<char>, RefusalView> {
    match name_refusal(s.ident, paths, checks) {
        Some(r) => Err(r),
        None => Ok(service_text(s, paths)),
    }
}

/// `checks` holds, for each of `paths` that names a method of the service `service`, the
/// reading of that method's name as an identifier, and nothing for the others.
pub open spec fn checks_fit(service: Seq<char>, paths: Seq<QualifiedPathView>, checks: Seq<Option<Parsed<String>>>) -> bool {
    &&& checks.len() == paths.len()
    &&& forall|i: int| 0 <= i < paths.len() ==> match served_method(service, #[trigger] paths[i]) {
        None => checks[i] is None,
        Some(f) => checks[i] matches Some(p) && p.source() == f,
    }
}

/// For each reading of a method's name, the error it met; nothing where the name was read or
/// where there is no reading.
pub open spec fn check_views(checks: Seq<Option<Parsed<String>>>) -> Seq<Option<Seq<char>>> {
    checks.map_values(|c: Option<Parsed<String>>| match c {
        Some(p) => match p.outcome() {
            Err(e) => Some(e@),
            Ok(_) => None,
        },
        None => None,
    })
}

proof fn lemma_name_refusal_stays(service: Seq<char>, paths: Seq<QualifiedPathView>, checks: Seq<Option<Seq<char>>>, k: int)
    requires
        0 <= k <= paths.len(),
        name_refusal(service, paths.take(k), checks) is Some,
    ensures
        name_refusal(service, paths, checks) == name_refusal(service, paths.take(k), checks),
    decreases paths.len() - k,
{
    if k < paths.len() {
        let t = paths.take(k + 1);
        assert(t.drop_last() =~= paths.take(k));
        lemma_name_refusal_stays(service, paths, checks, k + 1);
    } else {
        assert(paths.take(k) =~= paths);
    }
}

fn variant_string(f: &String, marker: &String) -> (res: String)
    ensures
        res@ == variant_text(f@, marker@),
{
    let mut out = make_variant_name_of(f);
    out.append(" (");
    out.append("< ");
    out.append(marker.as_str());
    out.append(" as :: servify :: ServifyExport > :: ");
    out.append("Request");
    out.append(" , :: tokio :: sync :: oneshot :: Sender <");
    out.append("< ");
    out.append(marker.as_str());
    out.append(" as :: servify :: ServifyExport > :: ");
    out.append("Response");
    out.append(" > ,) , ");
    out
}

fn make_variant_name_of(f: &String) -> (res: String)
    ensures
        res@ == variant_name(f@),
{
    to_camel(f.as_str())
}

fn arm_string(f: &String) -> (res: String)
    ensures
        res@ == arm_text(f@),
{
    let mut out = owned("Message :: ");
    let v = make_variant_name_of(f);
    out.append(v.as_str());
    out.append(" (req , tx) => { let res = self . ");
    out.append(f.as_str());
    out.append(" (req) . await ; tx . send (res) . unwrap () ; } , ");
    out
}

fn internal_string(f: &String, marker: &String) -> (res: String)
    ensures
        res@ == internal_text(f@, marker@),
{
    let mut out = owned("# [doc (hidden)] pub async fn ");
    let internal = make_internal_fn_name(f.as_str());
    out.append(internal.as_str());
    out.append(" (client : & Client , req : ");
    out.append("< ");
    out.append(marker.as_str());
    out.append(" as :: servify :: ServifyExport > :: ");
    out.append("Request");
    out.append(" ,) -> ");
    out.append("< ");
    out.append(marker.as_str());
    out.append(" as :: servify :: ServifyExport > :: ");
    out.append("Response");
    out.append(" { let (tx , rx) = :: tokio :: sync :: oneshot :: channel () ; client . tx . send (Message :: ");
    let v = make_variant_name_of(f);
    out.append(v.as_str());
    out.append(" (req , tx)) . await . unwrap () ; rx . await . unwrap () } ");
    out
}

impl ServiceParentAttrs {
    /// The module that the service attribute makes of the struct `server`, where `checks`
    /// holds, for each listed path, the error met in reading the name of the method it stands
    /// for as an identifier (nothing where it was read): the module, or the refusal of the
    /// first such name that is no identifier.
    #[verifier::rlimit(40)]
    pub fn service_module(self, server: &StructItem, checks: &Vec<Option<Parsed<String>>>) -> (res: Result<String, Refusal>)
        ensures
            outcome(res) == module_result(server@, self.paths(), check_views(checks@)),
    {
        proof {
            use_type_invariant(&self);
        }
        let ghost ps = self.paths();
        let ghost cv = check_views(checks@);
        let name = &server.ident;
        let mut variants = String::new();
        let mut arms = String::new();
        let mut internals = String::new();
        let n = self.impls.len();
        let mut i: usize = 0;
        while i < n
            invariant
                n == self.impls@.len(),
                ps == path_views(self.impls@),
                cv == check_views(checks@),
                server@.ident == name@,
                forall|j: int| 0 <= j < self.impls@.len() ==> #[trigger] self.impls@[j].segments@.len() > 0,
                i <= n,
                name_refusal(name@, ps.take(i as int), cv) is None,
                variants@ == pieces(name@, ps.take(i as int), 0),
                arms@ == pieces(name@, ps.take(i as int), 1),
                internals@ == pieces(name@, ps.take(i as int), 2),
            decreases n - i,
        {
            let ghost t = ps.take(i as int + 1);
            proof {
                assert(t.drop_last() =~= ps.take(i as int));
                assert(t.last() == self.impls@[i as int]@);
                assert(t.len() - 1 == i);
            }
            let path = &self.impls[i];
            match find_method_of_export(name.as_str(), path.last_ident().as_str()) {
                Some(f) => {
                    if i < checks.len() {
                        let read = match &checks[i] {
                            Some(p) => p.value(),
                            None => &Ok(String::new()),
                        };
                        match read {
                            Err(e) => {
                                let r = refusal(e.as_str(), path.last_ident().as_str());
                                proof {
                                    assert(cv[i as int] == Some::<Seq<char>>(e@));
                                    assert(check_at(cv, t.len() - 1) == Some::<Seq<char>>(e@));
                                    assert(served_method(name@, t.last()) is Some);
                                    assert(name_refusal(name@, t, cv) == Some(r@));
                                    lemma_name_refusal_stays(name@, ps, cv, i as int + 1);
                                }
                                return Err(r);
                            },
                            Ok(_) => {},
                        }
                    }
                    let marker = to_super(path.duplicate()).to_text();
                    let v = variant_string(&f, &marker);
                    variants.append(v.as_str());
                    let a = arm_string(&f);
                    arms.append(a.as_str());
                    let m = internal_string(&f, &marker);
                    internals.append(m.as_str());
                },
                None => {},
            }
            i = i + 1;
        }
        proof {
            assert(ps.take(n as int) =~= ps);
        }
        let mut out = owned("# [allow (non_snake_case)] mod ");
        out.append(name.as_str());
        out.append(" { pub enum Message { ");
        out.append(variants.as_str());
        out.append(" } pub struct Server ");
        out.append(server.fields.as_str());
        out.append(" # [derive (Clone)] pub struct Client { tx : :: tokio :: sync :: mpsc :: Sender < Message > , } impl Server { pub async fn listen (& mut self , mut rx : :: tokio :: sync :: mpsc :: Receiver < Message >) { while let Some (msg) = rx . recv () . await { match msg { ");
        out.append(arms.as_str());
        out.append(" } } } } ");
        out.append(internals.as_str());
        out.append("pub fn initiate_message_passing (buffer : usize) -> (:: tokio :: sync :: mpsc :: Receiver < Message > , Client) { let (tx , rx) = :: tokio :: sync :: mpsc :: channel (buffer) ; let client = Client { tx } ; (rx , client) } }");
        Ok(out)
    }

    /// For each listed path that names a method of the service `service`, the reading of that
    /// method's name as an identifier; nothing for the others.
    fn name_checks(&self, service: &str) -> (res: Vec<Option<Parsed<String>>>)
        ensures
            checks_fit(service@, self.paths(), res@),
    {
        proof {
            use_type_invariant(self);
        }
        let mut out: Vec<Option<Parsed<String>>> = Vec::new();
        let n = self.impls.len();
        let mut i: usize = 0;
        while i < n
            invariant
                n == self.impls@.len(),
                forall|j: int| 0 <= j < self.impls@.len() ==> #[trigger] self.impls@[j].segments@.len() > 0,
                i <= n,
                out@.len() == i,
                forall|j: int| 0 <= j < i ==> match served_method(service@, #[trigger] self.impls@[j]@) {
                    None => out@[j] is None,
                    Some(f) => out@[j] matches Some(p) && p.source() == f,
                },
            decreases n - i,
        {
            let check = match find_method_of_export(service, self.impls[i].last_ident().as_str()) {
                Some(f) => Some(read_ident(f.as_str())),
                None => None,
            };
            out.push(check);
            i = i + 1;
        }
        proof {
            assert forall|j: int| 0 <= j < self.paths().len() implies match served_method(service@, #[trigger] self.paths()[j]) {
                None => out@[j] is None,
                Some(f) => out@[j] matches Some(p) && p.source() == f,
            } by {
                assert(self.paths()[j] == self.impls@[j]@);
            }
        }
        out
    }

    /// The module that the service attribute makes of the struct written as `item`: the struct
    /// is read, each listed method's name is read as an identifier by `name_checks`, and
    /// `service_module` judges the readings. Stated: the result is what `module_read` gives of a
    /// reading of `item` and of readings of the method names.
    pub fn parse_item(self, item: &str) -> (res: Result<String, Refusal>)
        ensures
            exists|server: Parsed<StructItem>, checks: Seq<Option<Parsed<String>>>|
                server.source() == item@ && #[trigger] module_read(self.paths(), server, checks, outcome(res)),
    {
        let server = read_item_struct(item);
        let ghost sv = server;
        let ghost paths = self.paths();
        match server.value() {
            Err(e) => {
                let res = Err(refusal(e.as_str(), server.source_text().as_str()));
                assert(module_read(paths, sv, Seq::empty(), outcome(res)));
                res
            },
            Ok(s) => {
                let checks = self.name_checks(s.ident.as_str());
                let res = self.service_module(s, &checks);
                assert(module_read(paths, sv, checks@, outcome(res)));
                res
            },
        }
    }
}

/// What reading the struct gave (`server`) and what reading the method names gave (`checks`)
/// make of the struct for the listed `paths`: `r` is the refusal of a text that is not a
/// struct, about the text; or, where `checks` are the readings of the names, what
/// `module_result` gives.
pub open spec fn module_read(paths: Seq<QualifiedPathView>, server: Parsed<StructItem>, checks: Seq<Option<Parsed<String>>>, r: Result<Seq<char>, RefusalView>) -> bool {
    match server.outcome() {
        Err(e) => r == Err::<Seq<char>, RefusalView>(refused(e@, server.source())),
        Ok(s) => checks_fit(s.ident@, paths, checks) && module_result(s@, paths, check_views(checks)) == r,
    }
}

/// What the service attribute makes of its arguments and struct, from the readings: the
/// refusal of the arguments, or what `module_read` gives for the paths they list.
pub open spec fn service_read(
    tokens: Parsed<Vec<Token>>,
    reads: Seq<TokenRead>,
    listed: Result<Seq<QualifiedPathView>, RefusalView>,
    server: Parsed<StructItem>,
    checks: Seq<Option<Parsed<String>>>,
    item: Seq<char>,
    r: Result<Seq<char>, RefusalView>,
) -> bool {
    &&& attrs_read(tokens, reads, listed)
    &&& match listed {
        Err(x) => r == Err::<Seq<char>, RefusalView>(x),
        Ok(paths) => server.source() == item && module_read(paths, server, checks, r),
    }
}

/// The code that the service attribute with arguments written as `attrs` makes of the
/// struct written as `item`, or the refusal: the arguments read by
/// `ServiceParentAttrs::parse`, the module made by `ServiceParentAttrs::parse_item`.
pub fn service_source(attrs: &str, item: &str) -> (res: Result<String, Refusal>)
    ensures
        exists|
            tokens: Parsed<Vec<Token>>,
            reads: Seq<TokenRead>,
            listed: Result<Seq<QualifiedPathView>, RefusalView>,
            server: Parsed<StructItem>,
            checks: Seq<Option<Parsed<String>>>,
        |
            tokens.source() == attrs@
                && #[trigger] service_read(tokens, reads, listed, server, checks, item@, outcome(res)),
{
    let parsed = ServiceParentAttrs::parse(attrs);
    let ghost listed = attrs_outcome(parsed);
    let ghost (tk, rd) = choose|tokens: Parsed<Vec<Token>>, reads: Seq<TokenRead>|
        tokens.source() == attrs@ && #[trigger] attrs_read(tokens, reads, listed);
    let a = match parsed {
        Ok(a) => a,
        Err(r) => {
            let ghost sv: Parsed<StructItem> = arbitrary();
            assert(service_read(tk, rd, listed, sv, Seq::empty(), item@, Err::<Seq<char>, RefusalView>(r@)));
            return Err(r);
        },
    };
    let ghost paths = a.paths();
    let res = a.parse_item(item);
    proof {
        let (sv, ck) = choose|server: Parsed<StructItem>, checks: Seq<Option<Parsed<String>>>|
            server.source() == item@ && #[trigger] module_read(paths, server, checks, outcome(res));
        assert(service_read(tk, rd, listed, sv, ck, item@, outcome(res)));
    }
    res
}

/// The `service` attribute on a struct: the generated module, or the refusal as tokens that
/// make the compiler report it.
pub fn impl_service(attrs: proc_macro2::TokenStream, item: proc_macro2::TokenStream) -> proc_macro2::TokenStream {
    let attrs_text = token_text(&attrs);
    let item_text = token_text(&item);
    emit(service_source(attrs_text.as_str(), item_text.as_str()))
}

} // verus!
