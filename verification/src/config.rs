//! Run preconditions: the one configuration check, made before any fetch
//! occurs.

use vstd::prelude::*;

verus! {

/// Configuration error: the output path already exists and overwriting it
/// was not requested. Fatal, and raised before any network activity, so
/// no partial output is ever written.
#[derive(Debug, Clone, Copy, PartialEq, Eq, Structural)]
pub struct OutputPathExists;

/// Decide whether the run may proceed: it may unless the output path
/// already exists and the overwrite flag is absent. Returns `Err` exactly
/// when the run must abort without fetching anything.
pub fn check_output_preconditions(output_path_exists: bool, overwrite_existing: bool) -> (r:
    Result<(), OutputPathExists>)
    ensures
        r is Ok <==> (!output_path_exists || overwrite_existing),
{
    if output_path_exists && !overwrite_existing {
        Err(OutputPathExists)
    } else {
        Ok(())
    }
}

} // verus!
