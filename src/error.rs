use vstd::prelude::*;

verus! {

/// The errors a request can end in.
#[derive(Debug, Clone, PartialEq, Eq)]
pub enum Errors {
    /// The sandbox could not be set up.
    InitializationError(String),
    /// The registry has no command of that name, or its entry is not a table.
    CommandNotFound,
    /// The Lua engine failed: a malformed entry, a missing or non-callable
    /// `execute`, an error raised by the command, or a result that has no text.
    LuaError(String),
}

/// What an [`Errors`] value says, with its messages as character sequences.
pub enum ErrorView {
    Initialization(Seq<char>),
    CommandNotFound,
    Lua(Seq<char>),
}

impl View for Errors {
    type V = ErrorView;

    open spec fn view(&self) -> ErrorView {
        match self {
            Errors::InitializationError(m) => ErrorView::Initialization(m@),
            Errors::CommandNotFound => ErrorView::CommandNotFound,
            Errors::LuaError(m) => ErrorView::Lua(m@),
        }
    }
}

/// The outcome of a request, seen through the views of its text and its error.
pub open spec fn outcome_view(r: Result<String, Errors>) -> Result<Seq<char>, ErrorView> {
    match r {
        Ok(s) => Ok(s@),
        Err(e) => Err(e@),
    }
}

} // verus!
