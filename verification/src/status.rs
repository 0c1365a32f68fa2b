//! The decisions of one status check: the fixed transport and parse errors,
//! and the membership test of the resolved model in the server's tag list.

use vstd::prelude::*;
use crate::text::str_starts_with;

verus! {

/// The message reported when the status endpoint cannot be reached.
pub open spec fn status_connection_message_spec() -> Seq<char> {
    "Ollama is not running. Please start Ollama with: ollama serve"@
}

/// The message reported when the status reply cannot be read.
pub open spec fn status_parse_message_spec() -> Seq<char> {
    "Failed to parse Ollama response"@
}

/// The confirmation that the model is installed.
pub open spec fn model_ready_message_spec(m: Seq<char>) -> Seq<char> {
    m + " is ready"@
}

/// The message, install command included, reported when the model is absent.
pub open spec fn model_missing_message_spec(m: Seq<char>) -> Seq<char> {
    m + " model not found. Please install it with:\n\nollama run "@ + m
}

/// Whether some installed tag starts with the model identifier. The prefix
/// test tolerates tag suffixes such as `:latest`.
pub open spec fn model_installed_spec(m: Seq<char>, names: Seq<Seq<char>>) -> bool {
    exists|i: int| 0 <= i < names.len() && m.is_prefix_of(#[trigger] names[i])
}

/// The error reported when the status request never reached the server.
pub fn status_connection_error() -> (r: String)
    ensures
        r@ == status_connection_message_spec(),
{
    String::from_str("Ollama is not running. Please start Ollama with: ollama serve")
}

/// The error reported when the status reply cannot be read.
pub fn status_parse_error() -> (r: String)
    ensures
        r@ == status_parse_message_spec(),
{
    String::from_str("Failed to parse Ollama response")
}

/// Searches the server's tag list for the resolved model: a tag that starts
/// with the identifier confirms it as ready; otherwise the error names the
/// identifier and the exact install command.
pub fn check_model_installed(model: &str, installed: &Vec<String>) -> (r: Result<String, String>)
    ensures
        model_installed_spec(model@, installed.deep_view()) ==> (r matches Ok(msg) && msg@
            == model_ready_message_spec(model@)),
        !model_installed_spec(model@, installed.deep_view()) ==> (r matches Err(msg) && msg@
            == model_missing_message_spec(model@)),
{
    let ghost names = installed.deep_view();
    let mut found = false;
    let mut i: usize = 0;
    while i < installed.len()
        invariant
            names == installed.deep_view(),
            names.len() == installed@.len(),
            forall|j: int| 0 <= j < names.len() ==> names[j] == installed@[j]@,
            0 <= i <= installed@.len(),
            found == exists|j: int|
                0 <= j < i && model@.is_prefix_of(#[trigger] names[j]),
        decreases installed@.len() - i,
    {
        if str_starts_with(installed[i].as_str(), model) {
            proof {
                assert(model@.is_prefix_of(names[i as int]));
            }
            found = true;
        }
        i = i + 1;
    }
    if found {
        let mut msg = String::from_str(model);
        msg.append(" is ready");
        Ok(msg)
    } else {
        let mut msg = String::from_str(model);
        msg.append(" model not found. Please install it with:\n\nollama run ");
        msg.append(model);
        Err(msg)
    }
}

} // verus!
