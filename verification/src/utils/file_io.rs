//! Paths of the ShaderToy assets. Reading them is left to the host.

use vstd::prelude::*;
use vstd::string::StringExecFns;

verus! {

/// The directory that holds the ShaderToy assets, with its trailing slash.
pub const SHADERTOY_DIRECTORY: &'static str = "assets/shaders/shadertoy/";

/// The extension of a toy's snippet file.
pub const STOY_EXTENSION: &'static str = ".stoy";

/// The path of a ShaderToy asset.
pub open spec fn shadertoy_path(file: Seq<char>) -> Seq<char> {
    SHADERTOY_DIRECTORY@ + file
}

/// The path of the snippet of the toy with this key.
pub open spec fn stoy_path(key: Seq<char>) -> Seq<char> {
    shadertoy_path(key + STOY_EXTENSION@)
}

/// The path to read the ShaderToy asset `stoy` from.
pub fn shadertoy_asset_path(stoy: &str) -> (path: String)
    ensures
        path@ == shadertoy_path(stoy@),
{
    let mut path = String::from_str(SHADERTOY_DIRECTORY);
    path.append(stoy);
    path
}

/// The path to read the snippet of the toy `key` from.
pub fn stoy_asset_path(key: &str) -> (path: String)
    ensures
        path@ == stoy_path(key@),
{
    let mut file = String::from_str(key);
    file.append(STOY_EXTENSION);
    shadertoy_asset_path(file.as_str())
}

} // verus!
