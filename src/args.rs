//! Reading the target URL from the command-line arguments.
use vstd::prelude::*;

verus! {

/// Why a run stopped before reporting a title.
#[derive(Debug, Clone, Copy, PartialEq, Eq, Structural)]
pub enum TitleError {
    /// No URL was given after the program name.
    MissingArgument,
}

impl TitleError {
    /// A human-readable description of the error.
    pub fn message(&self) -> (r: String)
        ensures
            r@ == "usage: page_title <url>"@,
    {
        proof {
            reveal_strlit("usage: page_title <url>");
        }
        String::from_str("usage: page_title <url>")
    }
}

/// Takes the URL from the argument list, whose first element is the program
/// name: the element at position 1, or `MissingArgument` where there is none.
/// Arguments after the URL are ignored. A run fetches only the URL that an
/// `Ok` hands back, so a missing argument stops it before any request.
pub fn url_from_args(args: &Vec<String>) -> (r: Result<String, TitleError>)
    ensures
        args@.len() >= 2 ==> (r matches Ok(u) && u@ == args@[1]@),
        args@.len() < 2 <==> r == Err::<String, TitleError>(TitleError::MissingArgument),
{
    if args.len() < 2 {
        Err(TitleError::MissingArgument)
    } else {
        Ok(args[1].clone())
    }
}

} // verus!
