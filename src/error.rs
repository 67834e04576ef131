use vstd::prelude::*;

verus! {

/// What went wrong in a render call; every kind carries a description.
#[derive(Debug)]
pub enum Error {
    /// The engine or the bundled script could not be brought up.
    InitFailed(String),
    /// The rendering function threw inside the guest runtime.
    ExecError(String),
    /// The guest runtime held something other than what the bridge expects.
    ValueError(String),
}

/// An [`Error`] as mathematics: the kind and the text of its description.
pub enum ErrorView {
    InitFailed(Seq<char>),
    ExecError(Seq<char>),
    ValueError(Seq<char>),
}

impl View for Error {
    type V = ErrorView;

    open spec fn view(&self) -> ErrorView {
        match self {
            Error::InitFailed(m) => ErrorView::InitFailed(m@),
            Error::ExecError(m) => ErrorView::ExecError(m@),
            Error::ValueError(m) => ErrorView::ValueError(m@),
        }
    }
}

/// The view of a render result: the text of the HTML or of the error.
pub open spec fn result_view(r: Result<String, Error>) -> Result<Seq<char>, ErrorView> {
    match r {
        Ok(s) => Ok(s@),
        Err(e) => Err(e@),
    }
}

} // verus!
