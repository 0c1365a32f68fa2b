//! The decisions of one translation call: validation, the request body for
//! the chat endpoint, and the reading of each possible reply.

use vstd::prelude::*;
use crate::model::{
    is_supported_model, requested_model_spec, resolve_model, unsupported_model_message_spec,
};
use crate::prompt::{build_translation_prompt, prompt_spec};
use crate::text::{decimal_spec, trim_spec, trim_str, u16_to_decimal};

verus! {

/// One chat message of the inference protocol.
pub struct OllamaMessage {
    pub role: String,
    pub content: String,
}

/// The body of a request to the chat endpoint.
pub struct OllamaRequest {
    pub model: String,
    pub messages: Vec<OllamaMessage>,
    pub stream: bool,
}

/// The part of the chat endpoint's reply that is consumed.
pub struct OllamaResponse {
    pub message: OllamaMessage,
}

/// The message that rejects an empty translation input.
pub open spec fn empty_text_message_spec() -> Seq<char> {
    "Text cannot be empty"@
}

/// The message reported when the server cannot be reached; `detail` is the
/// transport error's own text.
pub open spec fn connection_error_message_spec(m: Seq<char>, detail: Seq<char>) -> Seq<char> {
    "Failed to connect to Ollama. Please ensure Ollama is running and '"@ + m
        + "' is installed.\nError: "@ + detail
}

/// The message reported when the server answers with a non-success status.
pub open spec fn upstream_error_message_spec(status: nat, m: Seq<char>) -> Seq<char> {
    "Ollama API returned error: "@ + decimal_spec(status) + ". Make sure '"@ + m
        + "' model is installed."@
}

/// The message reported when the chat reply cannot be read; `detail` is the
/// decoder's own text.
pub open spec fn parse_error_message_spec(detail: Seq<char>) -> Seq<char> {
    "Failed to parse Ollama response: "@ + detail
}

/// Whether an HTTP status code counts as success.
pub open spec fn is_success_status(status: u16) -> bool {
    200 <= status < 300
}

/// Everything of a translation call that comes before the network: rejects
/// text that trims to nothing, resolves the model, and builds the request
/// body — one user message holding the prompt, streaming off. No request is
/// issued here; a returned body is ready to send.
pub fn prepare_translation(
    source_lang: &str,
    target_lang: &str,
    text: &str,
    model: Option<String>,
) -> (r: Result<OllamaRequest, String>)
    ensures
        trim_spec(text@).len() == 0 ==> (r matches Err(e) && e@ == empty_text_message_spec()),
        trim_spec(text@).len() > 0 && !is_supported_model(requested_model_spec(model.deep_view()))
            ==> (r matches Err(e) && e@ == unsupported_model_message_spec(
            requested_model_spec(model.deep_view()),
        )),
        trim_spec(text@).len() > 0 && is_supported_model(requested_model_spec(model.deep_view()))
            ==> (r matches Ok(req) && req.model@ == requested_model_spec(model.deep_view())
            && req.stream == false && req.messages@.len() == 1 && req.messages@[0].role@
            == "user"@ && req.messages@[0].content@ == prompt_spec(
            source_lang@,
            target_lang@,
            text@,
        )),
{
    if trim_str(text).unicode_len() == 0 {
        return Err(String::from_str("Text cannot be empty"));
    }
    let selected_model = match resolve_model(model) {
        Ok(m) => m,
        Err(e) => {
            return Err(e);
        },
    };
    let prompt = build_translation_prompt(source_lang, target_lang, text);
    let mut messages: Vec<OllamaMessage> = Vec::new();
    messages.push(OllamaMessage { role: String::from_str("user"), content: prompt });
    Ok(OllamaRequest { model: selected_model, messages, stream: false })
}

/// The error reported when the chat request never reached the server.
pub fn connection_error_message(model: &str, detail: &str) -> (r: String)
    ensures
        r@ == connection_error_message_spec(model@, detail@),
{
    let mut m = String::from_str(
        "Failed to connect to Ollama. Please ensure Ollama is running and '",
    );
    m.append(model);
    m.append("' is installed.\nError: ");
    m.append(detail);
    m
}

/// Accepts a success status and turns every other status into the upstream
/// error, with the code written in decimal.
pub fn check_http_status(status: u16, model: &str) -> (r: Result<(), String>)
    ensures
        is_success_status(status) ==> r is Ok,
        !is_success_status(status) ==> (r matches Err(e) && e@ == upstream_error_message_spec(
            status as nat,
            model@,
        )),
{
    if 200 <= status && status < 300 {
        Ok(())
    } else {
        let mut m = String::from_str("Ollama API returned error: ");
        let digits = u16_to_decimal(status);
        m.append(digits.as_str());
        m.append(". Make sure '");
        m.append(model);
        m.append("' model is installed.");
        Err(m)
    }
}

/// Takes the decoded chat reply, or the decoder's failure, and returns the
/// translation or the parse error message.
pub fn extract_translation(parsed: Result<OllamaResponse, String>) -> (r: Result<String, String>)
    ensures
        parsed matches Ok(resp) ==> (r matches Ok(t) && t@ == resp.message.content@),
        parsed matches Err(detail) ==> (r matches Err(e) && e@ == parse_error_message_spec(
            detail@,
        )),
{
    match parsed {
        Ok(resp) => Ok(resp.message.content),
        Err(detail) => {
            let mut m = String::from_str("Failed to parse Ollama response: ");
            m.append(detail.as_str());
            Err(m)
        },
    }
}

} // verus!
