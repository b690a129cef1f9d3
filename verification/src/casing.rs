//! Case conversion of identifiers, through the `case` crate.
use vstd::prelude::*;

verus! {

/// `c` with ASCII lower-case letters mapped to upper case.
pub open spec fn ascii_upper(c: char) -> char {
    if 'a' <= c && c <= 'z' {
        ((c as u32) - 32) as char
    } else {
        c
    }
}

/// `c` with ASCII upper-case letters mapped to lower case.
pub open spec fn ascii_lower(c: char) -> char {
    if 'A' <= c && c <= 'Z' {
        ((c as u32) + 32) as char
    } else {
        c
    }
}

pub open spec fn is_ascii_upper(c: char) -> bool {
    'A' <= c && c <= 'Z'
}

/// What the character at position `i` of `s` becomes in snake case.
pub open spec fn snake_piece(s: Seq<char>, i: int) -> Seq<char> {
    if is_ascii_upper(s[i]) {
        if i != 0 {
            seq!['_', ascii_lower(s[i])]
        } else {
            seq![ascii_lower(s[i])]
        }
    } else {
        seq![s[i]]
    }
}

/// Snake case of the first `n` characters of `s`.
pub open spec fn snake_prefix(s: Seq<char>, n: nat) -> Seq<char>
    decreases n,
{
    if n == 0 {
        Seq::empty()
    } else {
        snake_prefix(s, (n - 1) as nat) + snake_piece(s, n - 1)
    }
}

/// Snake case: every ASCII capital becomes lower case, preceded by `_` unless it comes first.
pub open spec fn snake_case(s: Seq<char>) -> Seq<char> {
    snake_prefix(s, s.len())
}

/// Camel case of `s`, where `at_new_word` says whether the next letter starts a word.
pub open spec fn camel_from(s: Seq<char>, at_new_word: bool) -> Seq<char>
    decreases s.len(),
{
    if s.len() == 0 {
        Seq::empty()
    } else if s[0] == '_' {
        camel_from(s.drop_first(), true)
    } else if at_new_word {
        seq![ascii_upper(s[0])] + camel_from(s.drop_first(), false)
    } else {
        seq![s[0]] + camel_from(s.drop_first(), false)
    }
}

/// Capitalised camel case: underscores are dropped and the letter that begins a word
/// (the first one, and each one after an underscore) is made upper case.
pub open spec fn camel_case(s: Seq<char>) -> Seq<char> {
    camel_from(s, true)
}

/// Calls `case::CaseExt::to_snake`, which maps each ASCII capital `C` to `_c`
/// (to `c` when it is the first character) and keeps every other character.
#[verifier::external_body]
pub(crate) fn to_snake(s: &str) -> (res: String)
    ensures
        res@ == snake_case(s@),
{
    case::CaseExt::to_snake(s)
}

/// Calls `case::CaseExt::to_camel`, which drops underscores and upper-cases (ASCII) the
/// first letter and each letter that follows an underscore.
#[verifier::external_body]
pub(crate) fn to_camel(s: &str) -> (res: String)
    ensures
        res@ == camel_case(s@),
{
    case::CaseExt::to_camel(s)
}

} // verus!
