use vstd::prelude::*;

use crate::text::join;

verus! {

/// The answer to a shell command: its output after `OK: `, or its error after `ERR: `.
pub fn command_reply(result: Result<String, String>) -> (r: String)
    ensures
        result is Ok ==> r@ == "OK: "@ + result->Ok_0@,
        result is Err ==> r@ == "ERR: "@ + result->Err_0@,
{
    match result {
        Ok(output) => join("OK: ", output.as_str()),
        Err(error) => join("ERR: ", error.as_str()),
    }
}

} // verus!
