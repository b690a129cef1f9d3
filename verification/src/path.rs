//! Type paths such as `crate::a::B<T>` or `<T as Tr>::X`, and the edits that the
//! macros make to them.
use vstd::prelude::*;
use vstd::string::*;
use crate::text::{join, owned, push_joined, views};
use crate::syntax::read_type_path;

verus! {

/// One segment of a path: its identifier and the text of its generic arguments
/// (empty when it has none).
pub struct PathSegment {
    pub ident: String,
    pub arguments: String,
}

/// The qualified self type of a path such as `<T as Tr>::X`: the text of the type, and how
/// many segments of the path belong to the trait that stands after `as`.
pub struct QSelf {
    pub ty: String,
    pub position: usize,
}

/// A path that names a type.
pub struct QualifiedPath {
    pub qself: Option<QSelf>,
    pub leading_colon: bool,
    pub segments: Vec<PathSegment>,
}

pub struct SegmentView {
    pub ident: Seq<char>,
    pub arguments: Seq<char>,
}

pub struct QSelfView {
    pub ty: Seq<char>,
    pub position: nat,
}

pub struct QualifiedPathView {
    pub qself: Option<QSelfView>,
    pub leading_colon: bool,
    pub segments: Seq<SegmentView>,
}

impl View for PathSegment {
    type V = SegmentView;

    open spec fn view(&self) -> SegmentView {
        SegmentView { ident: self.ident@, arguments: self.arguments@ }
    }
}

impl View for QSelf {
    type V = QSelfView;

    open spec fn view(&self) -> QSelfView {
        QSelfView { ty: self.ty@, position: self.position as nat }
    }
}

impl View for QualifiedPath {
    type V = QualifiedPathView;

    open spec fn view(&self) -> QualifiedPathView {
        QualifiedPathView {
            qself: match self.qself {
                Some(q) => Some(q@),
                None => None,
            },
            leading_colon: self.leading_colon,
            segments: self.segments@.map_values(|s: PathSegment| s@),
        }
    }
}

/// A segment that is a bare identifier.
pub open spec fn plain_segment(ident: Seq<char>) -> SegmentView {
    SegmentView { ident, arguments: Seq::empty() }
}

impl QualifiedPathView {
    /// The path with `seg` inserted among its segments at `index`.
    pub open spec fn insert_segment(self, index: int, seg: SegmentView) -> QualifiedPathView {
        QualifiedPathView { segments: self.segments.insert(index, seg), ..self }
    }

    /// The path with `seg` appended as its last segment.
    pub open spec fn push_segment(self, seg: SegmentView) -> QualifiedPathView {
        QualifiedPathView { segments: self.segments.push(seg), ..self }
    }

    /// A path that is resolved from the crate root or from outside the crate: it begins
    /// with `::` or with the segment `crate`.
    pub open spec fn is_rooted(self) -> bool {
        self.leading_colon || (self.segments.len() > 0 && self.segments[0].ident == "crate"@)
    }

    /// The path as seen from a module nested one level deeper.
    pub open spec fn to_super(self) -> QualifiedPathView {
        if self.is_rooted() {
            self
        } else {
            self.insert_segment(0, plain_segment("super"@))
        }
    }
}

impl PathSegment {
    pub fn duplicate(&self) -> (res: PathSegment)
        ensures
            res@ == self@,
    {
        PathSegment { ident: self.ident.clone(), arguments: self.arguments.clone() }
    }
}

impl QualifiedPath {
    /// A copy of this path.
    pub fn duplicate(&self) -> (res: QualifiedPath)
        ensures
            res@ == self@,
    {
        let qself = match &self.qself {
            Some(q) => Some(QSelf { ty: q.ty.clone(), position: q.position }),
            None => None,
        };
        let mut segments: Vec<PathSegment> = Vec::new();
        let n = self.segments.len();
        let mut i: usize = 0;
        while i < n
            invariant
                n == self.segments@.len(),
                i <= n,
                segments@.len() == i,
                forall|j: int| 0 <= j < i ==> #[trigger] segments@[j]@ == self.segments@[j]@,
            decreases n - i,
        {
            segments.push(self.segments[i].duplicate());
            i = i + 1;
        }
        let res = QualifiedPath { qself, leading_colon: self.leading_colon, segments };
        assert(res@.segments =~= self@.segments);
        res
    }

    /// This path with the bare identifier `ident` inserted as its segment number `index`.
    pub fn with_inserted_ident(self, ident: &str, index: usize) -> (res: QualifiedPath)
        requires
            index <= self.segments@.len(),
        ensures
            res@ == self@.insert_segment(index as int, plain_segment(ident@)),
    {
        let mut path = self;
        let seg = PathSegment { ident: owned(ident), arguments: String::new() };
        path.segments.insert(index, seg);
        proof {
            assert(path@.segments =~= self@.segments.insert(index as int, plain_segment(ident@)));
        }
        path
    }

    /// This path with the bare identifier `ident` appended as its last segment.
    pub fn with_trail_ident(self, ident: &str) -> (res: QualifiedPath)
        ensures
            res@ == self@.push_segment(plain_segment(ident@)),
    {
        let mut path = self;
        let seg = PathSegment { ident: owned(ident), arguments: String::new() };
        path.segments.push(seg);
        proof {
            assert(path@.segments =~= self@.segments.push(plain_segment(ident@)));
        }
        path
    }

    /// Reads the type path written as `text`, or gives the message of the error; a path read
    /// has at least one segment.
    pub fn parse(text: &str) -> (res: Result<QualifiedPath, String>)
        ensures
            res matches Ok(p) ==> p.segments@.len() > 0,
    {
        read_type_path(text).into_value()
    }

    /// The identifier of the last segment.
    pub fn last_ident(&self) -> (res: &String)
        requires
            self.segments@.len() > 0,
        ensures
            res@ == self@.segments.last().ident,
    {
        &self.segments[self.segments.len() - 1].ident
    }
}

/// The path as seen from a module nested one level deeper: a path that begins with `::`
/// or `crate` is kept as it is, any other gets `super` as its new first segment.
pub fn to_super(original: QualifiedPath) -> (res: QualifiedPath)
    ensures
        res@ == original@.to_super(),
{
    if original.leading_colon {
        return original;
    }
    if original.segments.len() > 0 && original.segments[0].ident == owned("crate") {
        return original;
    }
    original.with_inserted_ident("super", 0)
}

// ----------------------------------------------------------------------------------------
// Printing

/// The text of one segment.
pub open spec fn segment_text(s: SegmentView) -> Seq<char> {
    if s.arguments.len() == 0 {
        s.ident
    } else {
        s.ident + " "@ + s.arguments
    }
}

/// The segments, printed and separated by `::`.
pub open spec fn segments_text(segs: Seq<SegmentView>) -> Seq<char> {
    join(segs.map_values(|s: SegmentView| segment_text(s)), " :: "@)
}

pub open spec fn leading_text(p: QualifiedPathView) -> Seq<char> {
    if p.leading_colon {
        ":: "@
    } else {
        Seq::empty()
    }
}

/// The text of a type path, token for token as `syn` prints it.
pub open spec fn path_text(p: QualifiedPathView) -> Seq<char> {
    match p.qself {
        None => leading_text(p) + segments_text(p.segments),
        Some(q) => {
            let len = p.segments.len();
            let pos = if q.position < len { q.position } else { len };
            if pos > 0 {
                let tail = if pos < len {
                    " :: "@ + segments_text(p.segments.skip(pos as int))
                } else {
                    Seq::empty()
                };
                "< "@ + q.ty + " as "@ + leading_text(p) + segments_text(p.segments.take(pos as int))
                    + " >"@ + tail
            } else {
                "< "@ + q.ty + " > "@ + leading_text(p) + segments_text(p.segments)
            }
        },
    }
}

fn segment_string(s: &PathSegment) -> (res: String)
    ensures
        res@ == segment_text(s@),
{
    let mut out = s.ident.clone();
    if s.arguments.unicode_len() != 0 {
        out.append(" ");
        out.append(s.arguments.as_str());
    }
    out
}

/// Appends the segments `lo..hi` of `segs`, printed and separated by `::`.
fn push_segments(out: &mut String, segs: &Vec<PathSegment>, lo: usize, hi: usize)
    requires
        lo <= hi <= segs@.len(),
    ensures
        final(out)@ == old(out)@ + segments_text(
            segs@.map_values(|s: PathSegment| s@).subrange(lo as int, hi as int),
        ),
{
    let ghost sv = segs@.map_values(|s: PathSegment| s@).subrange(lo as int, hi as int);
    let mut texts: Vec<String> = Vec::new();
    let mut i: usize = lo;
    while i < hi
        invariant
            lo <= i <= hi <= segs@.len(),
            sv == segs@.map_values(|s: PathSegment| s@).subrange(lo as int, hi as int),
            texts@.len() == i - lo,
            forall|j: int| 0 <= j < i - lo ==> #[trigger] texts@[j]@ == segment_text(sv[j]),
        decreases hi - i,
    {
        texts.push(segment_string(&segs[i]));
        i = i + 1;
    }
    assert(views(texts@) =~= sv.map_values(|s: SegmentView| segment_text(s)));
    push_joined(out, &texts, " :: ");
}

impl QualifiedPath {
    /// The text of this path, token for token as `syn` prints it.
    pub fn to_text(&self) -> (res: String)
        ensures
            res@ == path_text(self@),
    {
        let len = self.segments.len();
        let ghost all = self.segments@.map_values(|s: PathSegment| s@);
        proof {
            assert(all.subrange(0, len as int) =~= all);
        }
        match &self.qself {
            None => {
                let mut out = String::new();
                if self.leading_colon {
                    out.append(":: ");
                }
                push_segments(&mut out, &self.segments, 0, len);
                proof {
                    assert(out@ =~= leading_text(self@) + segments_text(all));
                }
                out
            },
            Some(q) => {
                let pos = if q.position < len { q.position } else { len };
                let mut out = owned("< ");
                out.append(q.ty.as_str());
                if pos > 0 {
                    out.append(" as ");
                    if self.leading_colon {
                        out.append(":: ");
                    }
                    push_segments(&mut out, &self.segments, 0, pos);
                    out.append(" >");
                    let ghost head = out@;
                    if pos < len {
                        out.append(" :: ");
                        push_segments(&mut out, &self.segments, pos, len);
                    }
                    proof {
                        assert(all.subrange(0, pos as int) =~= all.take(pos as int));
                        assert(all.subrange(pos as int, len as int) =~= all.skip(pos as int));
                        assert(out@ =~= path_text(self@));
                    }
                } else {
                    out.append(" > ");
                    if self.leading_colon {
                        out.append(":: ");
                    }
                    push_segments(&mut out, &self.segments, 0, len);
                    proof {
                        assert(out@ =~= path_text(self@));
                    }
                }
                out
            },
        }
    }
}

} // verus!
