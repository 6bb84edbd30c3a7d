use vstd::prelude::*;
use vstd::string::StringExecFns;

verus! {

/// The name of the file that receives the payload: `output` with `.ts` added.
pub fn source_file_name(output: &str) -> (r: String)
    ensures
        r@ == output@ + ".ts"@,
{
    output.to_owned().concat(".ts")
}

} // verus!
