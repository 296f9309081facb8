//! The fixed wording of the conversation sent to the completion endpoint.

use vstd::prelude::*;
use vstd::string::StringExecFns;

verus! {

/// The persona given to the model in the system turn.
pub const SYSTEM_INSTRUCTION: &'static str = "You are a friendly and motivating assistant.";

/// The user prompt up to the place of the language.
pub const PROMPT_HEAD: &'static str =
    "Generate a short, original, and positive 'good morning' message for a work team in ";

/// The user prompt after the language.
pub const PROMPT_TAIL: &'static str = ". It can include a fun fact. Be creative.";

/// The user prompt for a language: the language stands between the two fixed
/// parts exactly as given.
pub open spec fn rendered_prompt(lang: Seq<char>) -> Seq<char> {
    PROMPT_HEAD@ + lang + PROMPT_TAIL@
}

/// Renders the user prompt for `lang`. Any text is taken as a language;
/// nothing in it is escaped or trimmed.
pub fn render_prompt(lang: &str) -> (prompt: String)
    ensures
        prompt@ == rendered_prompt(lang@),
{
    let mut prompt = String::from_str(PROMPT_HEAD);
    prompt.append(lang);
    prompt.append(PROMPT_TAIL);
    prompt
}

/// In the rendered prompt the language stands right after the words
/// "team in " and right before a full stop, exactly as given: the prompt
/// holds "team in ", the language and "." in one piece, at the end of its
/// fixed first part.
pub proof fn lemma_prompt_names_language(lang: Seq<char>)
    ensures
        PROMPT_HEAD@.len() >= 8,
        rendered_prompt(lang).subrange(
            PROMPT_HEAD@.len() - 8,
            (PROMPT_HEAD@.len() + lang.len() + 1) as int,
        ) == "team in "@ + lang + "."@,
{
    reveal_strlit(
        "Generate a short, original, and positive 'good morning' message for a work team in ",
    );
    reveal_strlit(". It can include a fun fact. Be creative.");
    reveal_strlit("team in ");
    reveal_strlit(".");
    let head = PROMPT_HEAD@;
    let tail = PROMPT_TAIL@;
    let piece = rendered_prompt(lang).subrange(
        head.len() - 8,
        (head.len() + lang.len() + 1) as int,
    );
    let wanted = "team in "@ + lang + "."@;
    assert(piece.len() == wanted.len());
    assert forall|i: int| 0 <= i < piece.len() implies piece[i] == wanted[i] by {
        if i < 8 {
            assert(piece[i] == head[head.len() - 8 + i]);
            assert(wanted[i] == "team in "@[i]);
        } else if i < 8 + lang.len() {
            assert(piece[i] == lang[i - 8]);
        } else {
            assert(piece[i] == tail[0]);
        }
    }
    assert(piece =~= wanted);
}

} // verus!
