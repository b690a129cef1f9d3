//! Why a macro refused its input: the message the compiler reports, and the text of the
//! item or token the message is about.
use vstd::prelude::*;
use crate::text::owned;

verus! {

/// A refusal: the message, and the printed text of the item or token it is about (empty
/// when it is about the input as a whole, such as an item that is missing).
#[derive(Debug, PartialEq, Eq)]
pub struct Refusal {
    pub message: String,
    pub at: String,
}

pub struct RefusalView {
    pub message: Seq<char>,
    pub at: Seq<char>,
}

impl View for Refusal {
    type V = RefusalView;

    open spec fn view(&self) -> RefusalView {
        RefusalView { message: self.message@, at: self.at@ }
    }
}

/// The refusal with `message`, about the text `at`.
pub open spec fn refused(message: Seq<char>, at: Seq<char>) -> RefusalView {
    RefusalView { message, at }
}

/// The view of a result that may be refused.
pub open spec fn outcome<T: View>(r: Result<T, Refusal>) -> Result<T::V, RefusalView> {
    match r {
        Ok(v) => Ok(v@),
        Err(e) => Err(e@),
    }
}

/// The refusal with `message`, about the text `at`.
pub fn refusal(message: &str, at: &str) -> (res: Refusal)
    ensures
        res@ == refused(message@, at@),
{
    Refusal { message: owned(message), at: owned(at) }
}

/// What a macro hands on: the generated code, to be lexed, or the message of its refusal, to
/// be reported.
pub open spec fn handed_on(result: Result<Seq<char>, RefusalView>) -> Result<Seq<char>, Seq<char>> {
    match result {
        Ok(code) => Ok(code),
        Err(r) => Err(r.message),
    }
}

/// The generated code, or the message of the refusal.
pub fn hand_on(result: Result<String, Refusal>) -> (res: Result<String, String>)
    ensures
        handed_on(outcome(result)) == match res {
            Ok(code) => Ok::<Seq<char>, Seq<char>>(code@),
            Err(m) => Err(m@),
        },
{
    match result {
        Ok(code) => Ok(code),
        Err(r) => Err(r.message),
    }
}

} // verus!
