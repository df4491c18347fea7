use vstd::prelude::*;

verus! {

/// Asks for the size of the terminal on standard output, through
/// `termsize::get`: columns and rows, or `None` where there is no terminal or
/// it does not tell.
///
/// Trusted, not proved. The answer depends on the terminal at the moment of
/// the call, so nothing is claimed of it.
#[verifier::external_body]
pub(crate) fn terminal_size() -> (size: Option<(u16, u16)>) {
    termsize::get().map(|size| (size.cols, size.rows))
}

} // verus!
