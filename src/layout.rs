use vstd::prelude::*;
use vstd::string::StringExecFns;

verus! {

/// The memory layouts the executor accepts.
pub open spec fn is_layout_name(s: Seq<char>) -> bool {
    s == "plain"@ || s == "small"@ || s == "dex"@ || s == "starknet"@
        || s == "starknet_with_keccak"@ || s == "recursive_large_output"@
        || s == "all_cairo"@ || s == "all_solidity"@ || s == "dynamic"@
}

/// The message given for a rejected layout name.
pub open spec fn invalid_layout_message(s: Seq<char>) -> Seq<char> {
    s + " is not a valid layout"@
}

/// Checks a layout name against the closed set of accepted layouts, handing
/// the name back on success and a message naming it otherwise.
pub fn validate_layout(value: &str) -> (r: Result<String, String>)
    ensures
        r is Ok <==> is_layout_name(value@),
        r matches Ok(s) ==> s@ == value@,
        r matches Err(m) ==> m@ == invalid_layout_message(value@),
{
    let v = String::from_str(value);
    if v == String::from_str("plain") || v == String::from_str("small") || v == String::from_str(
        "dex",
    ) || v == String::from_str("starknet") || v == String::from_str("starknet_with_keccak")
        || v == String::from_str("recursive_large_output") || v == String::from_str("all_cairo")
        || v == String::from_str("all_solidity") || v == String::from_str("dynamic") {
        Ok(v)
    } else {
        Err(v.concat(" is not a valid layout"))
    }
}

} // verus!
