//! Token trees: the top level of a token stream, with each group's contents kept as text.
use vstd::prelude::*;

verus! {

/// The delimiter of a group.
pub enum GroupDelimiter {
    Parenthesis,
    Brace,
    Bracket,
    /// A group without visible delimiters.
    Invisible,
}

/// One token tree.
pub enum Token {
    /// A delimited group: its delimiter, the text of what it encloses, and the text of the
    /// whole group.
    Group { delimiter: GroupDelimiter, stream: String, text: String },
    Ident(String),
    /// A punctuation character, with its text.
    Punct { ch: char, text: String },
    /// A literal, with its text.
    Literal(String),
}

pub enum TokenView {
    Group { delimiter: GroupDelimiter, stream: Seq<char>, text: Seq<char> },
    Ident(Seq<char>),
    Punct { ch: char, text: Seq<char> },
    Literal(Seq<char>),
}

impl View for Token {
    type V = TokenView;

    open spec fn view(&self) -> TokenView {
        match self {
            Token::Group { delimiter, stream, text } => TokenView::Group {
                delimiter: *delimiter,
                stream: stream@,
                text: text@,
            },
            Token::Ident(s) => TokenView::Ident(s@),
            Token::Punct { ch, text } => TokenView::Punct { ch: *ch, text: text@ },
            Token::Literal(s) => TokenView::Literal(s@),
        }
    }
}

/// The views of the tokens.
pub open spec fn token_views(tokens: Seq<Token>) -> Seq<TokenView> {
    tokens.map_values(|t: Token| t@)
}

} // verus!
