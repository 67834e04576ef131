use vstd::prelude::*;
use crate::error::{Error, ErrorView};

verus! {

/// The global binding under which the bundled library exports its namespace.
pub const EXPORT_NAME: &'static str = "katex";

/// The property of the namespace object that renders markup to HTML.
pub const ENTRY_NAME: &'static str = "renderToString";

/// What a property read in the guest runtime found.
#[derive(Clone, Copy, PartialEq, Eq, Structural, Debug)]
pub enum GuestKind {
    /// The read failed, or the binding holds `undefined`.
    Missing,
    /// A primitive value other than `undefined`.
    Primitive,
    /// A callable object.
    Function,
    /// An object that cannot be called.
    Object,
}

/// The view of a step that succeeds with nothing or fails with an error.
pub open spec fn status_view(r: Result<(), Error>) -> Result<(), ErrorView> {
    match r {
        Ok(()) => Ok(()),
        Err(e) => Err(e@),
    }
}

/// Running the bundled script: a failure to compile or execute it is fatal.
pub open spec fn load_outcome(ran: bool) -> Result<(), ErrorView> {
    if ran {
        Ok(())
    } else {
        Err(ErrorView::InitFailed("compile"@))
    }
}

/// The exported binding must be present, and must be a plain object.
pub open spec fn export_outcome(k: GuestKind) -> Result<(), ErrorView> {
    match k {
        GuestKind::Object => Ok(()),
        GuestKind::Missing => Err(ErrorView::ValueError("missing export"@)),
        _ => Err(ErrorView::ValueError("wrong type"@)),
    }
}

/// The entry point must be present and callable.
pub open spec fn entry_outcome(k: GuestKind) -> Result<(), ErrorView> {
    match k {
        GuestKind::Function => Ok(()),
        _ => Err(ErrorView::ValueError("entry point not found"@)),
    }
}

/// The call's returned value, coerced to host text: a failed coercion is a
/// mismatch between bridge and library.
pub open spec fn text_outcome(text: Option<Seq<char>>) -> Result<Seq<char>, ErrorView> {
    match text {
        Some(s) => Ok(s),
        None => Err(ErrorView::ValueError("coercion failed"@)),
    }
}

/// Decides whether running the bundled script succeeded.
pub fn check_loaded(ran: bool) -> (r: Result<(), Error>)
    ensures
        status_view(r) == load_outcome(ran),
{
    if ran {
        Ok(())
    } else {
        Err(Error::InitFailed("compile".to_owned()))
    }
}

/// Decides whether the exported binding is the library's namespace object.
pub fn check_export(k: GuestKind) -> (r: Result<(), Error>)
    ensures
        status_view(r) == export_outcome(k),
{
    match k {
        GuestKind::Object => Ok(()),
        GuestKind::Missing => Err(Error::ValueError("missing export".to_owned())),
        _ => Err(Error::ValueError("wrong type".to_owned())),
    }
}

/// Decides whether the entry point can be called.
pub fn check_entry(k: GuestKind) -> (r: Result<(), Error>)
    ensures
        status_view(r) == entry_outcome(k),
{
    match k {
        GuestKind::Function => Ok(()),
        _ => Err(Error::ValueError("entry point not found".to_owned())),
    }
}

/// Turns the coerced result of the call into the render result.
pub fn take_text(text: Option<String>) -> (r: Result<String, Error>)
    ensures
        crate::error::result_view(r) == text_outcome(
            match text {
                Some(s) => Some(s@),
                None => None,
            },
        ),
{
    match text {
        Some(s) => Ok(s),
        None => Err(Error::ValueError("coercion failed".to_owned())),
    }
}

} // verus!
