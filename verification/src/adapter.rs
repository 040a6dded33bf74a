use crate::error::ClipboardError;
use vstd::prelude::*;

verus! {

/// Interpret the native clipboard's answer to a read.
///
/// The native call either finds no file-reference payload at all — the
/// clipboard is empty, or holds some other kind of content — or hands back
/// the path strings it decoded. No payload, and equally a payload that
/// decodes to zero file references, is the `NoFiles` error: a successful
/// read never hands an empty list to the normalizer, so an empty result
/// after filtering always means files that vanished from disk, never an
/// empty clipboard. A non-empty payload is a success; its entries may name
/// files that no longer exist, and filtering those out is the normalizer's
/// job, not the adapter's.
pub fn interpret_native_read(outcome: Option<Vec<String>>) -> (r: Result<
    Vec<String>,
    ClipboardError,
>)
    ensures
        r is Ok <==> (outcome matches Some(v) && v@.len() > 0),
        r is Ok ==> r->Ok_0 == outcome.unwrap(),
        r is Err ==> r->Err_0 == ClipboardError::NoFiles,
{
    match outcome {
        Option::Some(paths) => {
            if paths.len() > 0 {
                Result::Ok(paths)
            } else {
                Result::Err(ClipboardError::NoFiles)
            }
        },
        Option::None => Result::Err(ClipboardError::NoFiles),
    }
}

/// Interpret the native clipboard's answer to a write.
///
/// The native write call reports plain acceptance or refusal; a refusal
/// becomes a `SystemError` carrying a fixed message, and nothing else is
/// ever raised here.
pub fn interpret_native_write(accepted: bool) -> (r: Result<(), ClipboardError>)
    ensures
        r is Ok <==> accepted,
        !accepted ==> (r->Err_0 matches ClipboardError::SystemError(m) && m@
            == "Could not write to system clipboard!"@),
{
    if accepted {
        Result::Ok(())
    } else {
        Result::Err(ClipboardError::SystemError("Could not write to system clipboard!".to_owned()))
    }
}

} // verus!
