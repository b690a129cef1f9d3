//! What the macros read of the items they are applied to: impl blocks, their methods and
//! the methods' arguments and return types, and structs.
use vstd::prelude::*;
use crate::text::views;

verus! {

/// The return type of a method: none written (`()`), or the text of the written type.
pub enum ReturnType {
    Default,
    Type(String),
}

pub enum ReturnTypeView {
    Default,
    Type(Seq<char>),
}

impl View for ReturnType {
    type V = ReturnTypeView;

    open spec fn view(&self) -> ReturnTypeView {
        match self {
            ReturnType::Default => ReturnTypeView::Default,
            ReturnType::Type(t) => ReturnTypeView::Type(t@),
        }
    }
}

impl ReturnTypeView {
    /// The type that a method with this return type returns.
    pub open spec fn to_type(self) -> Seq<char> {
        match self {
            ReturnTypeView::Default => "()"@,
            ReturnTypeView::Type(t) => t,
        }
    }
}

impl ReturnType {
    /// The type that a method with this return type returns: `()` when none is written.
    pub fn to_type(self) -> (res: String)
        ensures
            res@ == self@.to_type(),
    {
        match self {
            ReturnType::Default => String::from_str("()"),
            ReturnType::Type(t) => t,
        }
    }
}

/// One input of a method's signature.
pub enum FnArg {
    /// `self`, `&self`, `&mut self`, `self: Box<Self>` and the like, with its text.
    Receiver { text: String },
    /// `pattern: Type`, with the identifier when the pattern is a plain identifier, the
    /// text of the type, and the text of the whole input.
    Typed { pat_ident: Option<String>, ty: String, text: String },
}

pub enum FnArgView {
    Receiver { text: Seq<char> },
    Typed { pat_ident: Option<Seq<char>>, ty: Seq<char>, text: Seq<char> },
}

impl View for FnArg {
    type V = FnArgView;

    open spec fn view(&self) -> FnArgView {
        match self {
            FnArg::Receiver { text } => FnArgView::Receiver { text: text@ },
            FnArg::Typed { pat_ident, ty, text } => FnArgView::Typed {
                pat_ident: match pat_ident {
                    Some(i) => Some(i@),
                    None => None,
                },
                ty: ty@,
                text: text@,
            },
        }
    }
}

impl FnArgView {
    /// The text of the whole input.
    pub open spec fn text(self) -> Seq<char> {
        match self {
            FnArgView::Receiver { text } => text,
            FnArgView::Typed { text, .. } => text,
        }
    }
}

/// A method of an impl block: its name, the text of each input, the text of the whole
/// input list as written, its return type and the text of its body.
pub struct Method {
    pub name: String,
    pub inputs: Vec<String>,
    pub inputs_text: String,
    pub output: ReturnType,
    pub body: String,
}

pub struct MethodView {
    pub name: Seq<char>,
    pub inputs: Seq<Seq<char>>,
    pub inputs_text: Seq<char>,
    pub output: ReturnTypeView,
    pub body: Seq<char>,
}

impl View for Method {
    type V = MethodView;

    open spec fn view(&self) -> MethodView {
        MethodView {
            name: self.name@,
            inputs: views(self.inputs@),
            inputs_text: self.inputs_text@,
            output: self.output@,
            body: self.body@,
        }
    }
}

/// An impl block: the text of its self type, whether that type is a path, and the text
/// of each of its items.
pub struct ImplBlock {
    pub self_ty: String,
    pub self_is_path: bool,
    pub items: Vec<String>,
}

pub struct ImplBlockView {
    pub self_ty: Seq<char>,
    pub self_is_path: bool,
    pub items: Seq<Seq<char>>,
}

impl View for ImplBlock {
    type V = ImplBlockView;

    open spec fn view(&self) -> ImplBlockView {
        ImplBlockView { self_ty: self.self_ty@, self_is_path: self.self_is_path, items: views(self.items@) }
    }
}

/// A struct: its name and the text of its fields (braces or parentheses included).
pub struct StructItem {
    pub ident: String,
    pub fields: String,
}

pub struct StructItemView {
    pub ident: Seq<char>,
    pub fields: Seq<char>,
}

impl View for StructItem {
    type V = StructItemView;

    open spec fn view(&self) -> StructItemView {
        StructItemView { ident: self.ident@, fields: self.fields@ }
    }
}

} // verus!
