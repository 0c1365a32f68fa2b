//! Validation of the model identifier against the fixed allow-list.

use vstd::prelude::*;
use crate::text::{str_eq, trim_str, trim_spec};

verus! {

/// The identifier used when the caller names no model.
pub open spec fn default_model_spec() -> Seq<char> {
    "translategemma:4b"@
}

/// Whether `m` is one of the three supported model identifiers.
pub open spec fn is_supported_model(m: Seq<char>) -> bool {
    ||| m == "translategemma:4b"@
    ||| m == "translategemma:12b"@
    ||| m == "translategemma:27b"@
}

/// The identifier a request asks for: the trimmed input, or the default
/// when the input is absent or trims to nothing.
pub open spec fn requested_model_spec(model: Option<Seq<char>>) -> Seq<char> {
    match model {
        Option::None => default_model_spec(),
        Option::Some(s) => if trim_spec(s).len() == 0 {
            default_model_spec()
        } else {
            trim_spec(s)
        },
    }
}

/// The message that rejects an identifier outside the allow-list.
pub open spec fn unsupported_model_message_spec(m: Seq<char>) -> Seq<char> {
    "Unsupported model '"@ + m
        + "'. Supported models: translategemma:4b, translategemma:12b, translategemma:27b"@
}

/// Trims the requested identifier, falls back to the default when nothing
/// is left, and accepts exactly the three supported identifiers; any other
/// identifier is rejected with a message that names it and lists the
/// supported ones.
pub fn resolve_model(model: Option<String>) -> (r: Result<String, String>)
    ensures
        is_supported_model(requested_model_spec(model.deep_view())) ==> (r matches Ok(m)
            && m@ == requested_model_spec(model.deep_view())),
        !is_supported_model(requested_model_spec(model.deep_view())) ==> (r matches Err(e)
            && e@ == unsupported_model_message_spec(requested_model_spec(model.deep_view()))),
{
    let requested: &str = match &model {
        Option::Some(s) => {
            let trimmed = trim_str(s.as_str());
            if trimmed.unicode_len() == 0 {
                "translategemma:4b"
            } else {
                trimmed
            }
        },
        Option::None => "translategemma:4b",
    };
    proof {
        assert(requested@ == requested_model_spec(model.deep_view()));
    }
    if str_eq(requested, "translategemma:4b") || str_eq(requested, "translategemma:12b")
        || str_eq(requested, "translategemma:27b") {
        Ok(String::from_str(requested))
    } else {
        let mut e = String::from_str("Unsupported model '");
        e.append(requested);
        e.append(
            "'. Supported models: translategemma:4b, translategemma:12b, translategemma:27b",
        );
        Err(e)
    }
}

} // verus!
