//! Construction of the instruction prompt sent to the inference model.

use vstd::prelude::*;
use crate::lang::{get_language_name, language_name_spec};

verus! {

/// Everything of the prompt that stands before the text to translate:
/// the fixed phrasing with both resolved names and both codes filled in.
pub open spec fn prompt_prefix_spec(source: Seq<char>, target: Seq<char>) -> Seq<char> {
    "You are a professional "@ + language_name_spec(source) + " ("@ + source + ") to "@
        + language_name_spec(target) + " ("@ + target
        + ") translator. Your goal is to accurately convey the meaning and nuances of the original "@
        + language_name_spec(source) + " text while adhering to "@ + language_name_spec(target)
        + " grammar, vocabulary, and cultural sensitivities.\n\nProduce only the "@
        + language_name_spec(target)
        + " translation, without any additional explanations or commentary. Please translate the following "@
        + language_name_spec(source) + " text into "@ + language_name_spec(target) + ":\n\n\n"@
}

/// The whole prompt: the fixed phrasing, then the text, with nothing after it.
pub open spec fn prompt_spec(source: Seq<char>, target: Seq<char>, text: Seq<char>) -> Seq<char> {
    prompt_prefix_spec(source, target) + text
}

/// The text to translate stands verbatim at the end of the prompt, right
/// after the fixed phrasing.
pub proof fn lemma_prompt_carries_text(source: Seq<char>, target: Seq<char>, text: Seq<char>)
    ensures
        prompt_spec(source, target, text).len() == prompt_prefix_spec(source, target).len()
            + text.len(),
        prompt_spec(source, target, text).skip(
            prompt_prefix_spec(source, target).len() as int,
        ) == text,
        prompt_spec(source, target, text).take(
            prompt_prefix_spec(source, target).len() as int,
        ) == prompt_prefix_spec(source, target),
{
    let prefix = prompt_prefix_spec(source, target);
    assert((prefix + text).skip(prefix.len() as int) =~= text);
    assert((prefix + text).take(prefix.len() as int) =~= prefix);
}

/// Builds the prompt for one translation: resolves both language names and
/// lays the fixed phrasing, the codes, and the text out as `prompt_spec`
/// writes them.
pub fn build_translation_prompt(source_lang: &str, target_lang: &str, text: &str) -> (r: String)
    ensures
        r@ == prompt_spec(source_lang@, target_lang@, text@),
{
    let source_name = get_language_name(source_lang);
    let target_name = get_language_name(target_lang);
    let mut p = String::from_str("You are a professional ");
    p.append(source_name);
    p.append(" (");
    p.append(source_lang);
    p.append(") to ");
    p.append(target_name);
    p.append(" (");
    p.append(target_lang);
    p.append(
        ") translator. Your goal is to accurately convey the meaning and nuances of the original ",
    );
    p.append(source_name);
    p.append(" text while adhering to ");
    p.append(target_name);
    p.append(" grammar, vocabulary, and cultural sensitivities.\n\nProduce only the ");
    p.append(target_name);
    p.append(
        " translation, without any additional explanations or commentary. Please translate the following ",
    );
    p.append(source_name);
    p.append(" text into ");
    p.append(target_name);
    p.append(":\n\n\n");
    p.append(text);
    proof {
        assert(p@ =~= prompt_spec(source_lang@, target_lang@, text@));
    }
    p
}

} // verus!
