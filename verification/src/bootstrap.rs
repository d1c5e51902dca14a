//! The script that prepares an engine before any code of the service runs.

use vstd::prelude::*;
use vstd::string::StringExecFns;

verus! {

/// The JSON text of a string: what `serde_json` prints for the string
/// value that holds `text`.
pub uninterp spec fn json_string_text(text: Seq<char>) -> Seq<char>;

/// `serde_json`'s `Display` for `Value::String`: the string as compact
/// JSON, quoted and escaped. The text depends on the string alone.
#[verifier::external_body]
fn json_string(text: &str) -> (literal: String)
    ensures
        literal@ == json_string_text(text@),
{
    serde_json::Value::String(text.to_owned()).to_string()
}

/// How a tier flag is written in the script.
pub open spec fn tier_flag_text(is_user_tier: bool) -> Seq<char> {
    if is_user_tier {
        "true"@
    } else {
        "false"@
    }
}

/// The bootstrap script for a build target already written as JSON: one
/// call of the global entry point, with an object that names the target and
/// the tier flag.
pub open spec fn bootstrap_call_text(target_literal: Seq<char>, is_user_tier: bool) -> Seq<char> {
    "globalThis.bootstrapSBEdge({\"target\":"@ + target_literal + "}, "@ + tier_flag_text(
        is_user_tier,
    ) + ")"@
}

/// Writes the bootstrap script around a build target that is already
/// written as a JSON string.
pub fn bootstrap_call(target_literal: &str, is_user_tier: bool) -> (script: String)
    ensures
        script@ == bootstrap_call_text(target_literal@, is_user_tier),
{
    let mut script = String::from_str("globalThis.bootstrapSBEdge({\"target\":");
    script.append(target_literal);
    script.append("}, ");
    if is_user_tier {
        script.append("true");
    } else {
        script.append("false");
    }
    script.append(")");
    script
}

/// Writes the bootstrap script of a context: the build target goes in as a
/// JSON string, the tier flag as `true` for a user worker and `false` for
/// the main worker.
pub fn bootstrap_script(build_target: &str, is_user_tier: bool) -> (script: String)
    ensures
        script@ == bootstrap_call_text(json_string_text(build_target@), is_user_tier),
{
    let literal = json_string(build_target);
    bootstrap_call(literal.as_str(), is_user_tier)
}

} // verus!
