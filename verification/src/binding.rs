use vstd::prelude::*;
use crate::error::ConvertError;

verus! {

/// Where the document engine's runtime is looked for.
#[derive(Clone, Copy, Debug, PartialEq, Eq, Structural)]
pub enum BindingSource {
    /// The runtime that lies beside the program.
    Bundled,
    /// The runtime that the system provides.
    System,
}

/// The source to try after `failed` did not give the engine: the bundled
/// runtime first, the system's after it, and nothing after that.
pub open spec fn next_source_spec(failed: Option<BindingSource>) -> Result<
    BindingSource,
    ConvertError,
> {
    match failed {
        None => Ok(BindingSource::Bundled),
        Some(BindingSource::Bundled) => Ok(BindingSource::System),
        Some(BindingSource::System) => Err(ConvertError::EngineBinding),
    }
}

/// Chooses where to look for the engine next. `failed` is the source
/// tried last, which did not give it, or `None` before the first try.
/// Once the system's runtime has failed too, the engine cannot be had.
pub fn next_source(failed: Option<BindingSource>) -> (r: Result<BindingSource, ConvertError>)
    ensures
        r == next_source_spec(failed),
{
    match failed {
        None => Ok(BindingSource::Bundled),
        Some(BindingSource::Bundled) => Ok(BindingSource::System),
        Some(BindingSource::System) => Err(ConvertError::EngineBinding),
    }
}

/// At most two sources are tried, and the bundled one never after the
/// system's.
pub proof fn lemma_two_attempts()
    ensures
        next_source_spec(None) == Ok::<BindingSource, ConvertError>(BindingSource::Bundled),
        forall|first: BindingSource, second: BindingSource|
            next_source_spec(Some(first)) == Ok::<BindingSource, ConvertError>(second)
                ==> next_source_spec(Some(second)) is Err,
{
}

} // verus!
