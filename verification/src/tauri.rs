//! Commands sent to the application's back end.
use crate::error::{Error, Rejection, RejectionKind};
use vstd::prelude::*;

verus! {

/// What an invocation came to. `outcome` is what the back end did: it
/// answered, and the answer was decoded or failed to decode with the given
/// words, or it rejected the command. A rejection with a host string whose
/// text could be taken over is a plain message; every other rejection is
/// kept as it came.
pub fn invoke<O>(outcome: Result<Result<O, String>, Rejection>) -> (result: Result<O, Error>)
    ensures
        result == match outcome {
            Ok(Ok(value)) => Ok::<O, Error>(value),
            Ok(Err(words)) => Err(Error::SerdeWasm(words)),
            Err(rejection) => match rejection.kind {
                RejectionKind::Text(Some(message)) => Err(Error::Tauri(message)),
                _ => Err(Error::Invoke { payload: rejection.payload, debug: rejection.debug }),
            },
        },
{
    match outcome {
        Ok(Ok(value)) => Ok(value),
        Ok(Err(words)) => Err(Error::SerdeWasm(words)),
        Err(rejection) => match rejection.kind {
            RejectionKind::Text(Some(message)) => Err(Error::tauri(message)),
            _ => Err(Error::Invoke { payload: rejection.payload, debug: rejection.debug }),
        },
    }
}

} // verus!
