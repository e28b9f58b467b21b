use vstd::prelude::*;

verus! {

/// The one runtime error the controller knows: the host asked it to stop.
#[derive(Clone, Copy, Debug)]
pub struct Terminate;

pub type TerminateResult<T> = Result<T, Terminate>;

/// Turn one non-blocking poll of the host's stop channel into the
/// controller's result: any pending input is a stop request, and nothing
/// else is.
pub fn check_terminate(pending: bool) -> (r: TerminateResult<()>)
    ensures
        r is Err <==> pending,
{
    if pending {
        Err(Terminate)
    } else {
        Ok(())
    }
}

} // verus!
