use vstd::prelude::*;

use crate::error::{GistError, RunError};

verus! {

/// The outcome of a command that works on each of several gists in turn,
/// going on past the ones that fail: it fails, as a whole, exactly when the
/// work on some gist failed.
pub fn run_each<T>(outcomes: &Vec<Result<T, GistError>>) -> (r: Result<(), RunError>)
    ensures
        r is Ok <==> forall|i: int| 0 <= i < outcomes@.len() ==> #[trigger] outcomes@[i] is Ok,
        r is Err ==> r == Err::<(), RunError>(RunError::SomeGistsFailed),
{
    let n = outcomes.len();
    let mut failed = false;
    let mut i: usize = 0;
    while i < n
        invariant
            n == outcomes@.len(),
            i <= n,
            failed <==> exists|j: int| 0 <= j < i && !(#[trigger] outcomes@[j] is Ok),
        decreases n - i,
    {
        if outcomes[i].is_err() {
            failed = true;
        }
        i += 1;
    }
    if failed {
        Err(RunError::SomeGistsFailed)
    } else {
        Ok(())
    }
}

} // verus!
