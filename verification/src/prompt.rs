//! The text that is sent to the generation service.

use vstd::prelude::*;
use vstd::string::*;
use crate::text::{join_strings, join_with, views};

verus! {

/// The label that opens the system line of the prompt.
pub const SYSTEM_PROMPT: &'static str = "System:";

/// The label that opens the user line of the prompt.
pub const USER_PROMPT: &'static str = "User:";

/// The sentences of the instruction that stands in for a missing system
/// text.
pub open spec fn default_system_sentences() -> Seq<Seq<char>> {
    seq![
        "You are a command-line program that takes an input and provides an output ONLY."@,
        "Give me only the output, without any additional labels (e.g., 'Output' or 'Result')."@,
        "The output should be usable as input in another program that is not an LLM."@,
        "Avoid unnecessary chat."@,
        "No preamble, get straight to the point."@,
        "Generate a text response suitable for downstream processing by another program."@,
        "Do not change the content of the input unless specifically asked to."@,
        "Do not repeat back the input."@,
    ]
}

/// The default system text: its sentences, joined by single spaces.
pub open spec fn default_system_text() -> Seq<char> {
    join_with(default_system_sentences(), " "@)
}

/// The instruction that is used where the caller gave no system text.
pub fn get_default_system_prompt() -> (text: String)
    ensures
        text@ == default_system_text(),
{
    let mut sentences: Vec<String> = Vec::new();
    sentences.push(
        String::from_str(
            "You are a command-line program that takes an input and provides an output ONLY.",
        ),
    );
    sentences.push(
        String::from_str(
            "Give me only the output, without any additional labels (e.g., 'Output' or 'Result').",
        ),
    );
    sentences.push(
        String::from_str(
            "The output should be usable as input in another program that is not an LLM.",
        ),
    );
    sentences.push(String::from_str("Avoid unnecessary chat."));
    sentences.push(String::from_str("No preamble, get straight to the point."));
    sentences.push(
        String::from_str(
            "Generate a text response suitable for downstream processing by another program.",
        ),
    );
    sentences.push(
        String::from_str("Do not change the content of the input unless specifically asked to."),
    );
    sentences.push(String::from_str("Do not repeat back the input."));
    proof {
        assert(views(sentences@) =~= default_system_sentences());
    }
    join_strings(&sentences, " ")
}

/// The system text that goes into the prompt: the caller's, or the default
/// where the caller's is empty.
pub open spec fn effective_system_text(system: Seq<char>) -> Seq<char> {
    if system.len() == 0 {
        default_system_text()
    } else {
        system
    }
}

/// Picks the system text that goes into the prompt.
pub fn effective_system(system: &str) -> (text: String)
    ensures
        text@ == effective_system_text(system@),
{
    if system.is_empty() {
        get_default_system_prompt()
    } else {
        String::from_str(system)
    }
}

/// What is appended to the user text for the piped input: nothing where
/// there is none.
pub open spec fn input_annotation_text(stdin_text: Seq<char>) -> Seq<char> {
    if stdin_text.len() == 0 {
        Seq::empty()
    } else {
        ". Input: "@ + stdin_text
    }
}

/// Builds the annotation that carries the piped input.
pub fn input_annotation(stdin_text: &str) -> (annotation: String)
    ensures
        annotation@ == input_annotation_text(stdin_text@),
{
    if stdin_text.is_empty() {
        String::new()
    } else {
        String::from_str(". Input: ").concat(stdin_text)
    }
}

/// The whole prompt: a system line that ends in a full stop, then the user
/// line with the annotation of the piped input.
pub open spec fn prompt_text(system: Seq<char>, user: Seq<char>, stdin_text: Seq<char>) -> Seq<
    char,
> {
    SYSTEM_PROMPT@ + " "@ + effective_system_text(system) + ".\n"@ + USER_PROMPT@ + " "@ + user
        + input_annotation_text(stdin_text)
}

/// Builds the prompt from the system text, the user text and the piped
/// input.
pub fn build_prompt(system: &str, user: &str, stdin_text: &str) -> (prompt: String)
    ensures
        prompt@ == prompt_text(system@, user@, stdin_text@),
{
    let mut prompt = String::from_str(SYSTEM_PROMPT);
    prompt.append(" ");
    let system_text = effective_system(system);
    prompt.append(system_text.as_str());
    prompt.append(".\n");
    prompt.append(USER_PROMPT);
    prompt.append(" ");
    prompt.append(user);
    let annotation = input_annotation(stdin_text);
    prompt.append(annotation.as_str());
    prompt
}

/// The text of each line, an unreadable line counting as an empty one.
pub open spec fn line_texts(lines: Seq<Option<String>>) -> Seq<Seq<char>> {
    Seq::new(
        lines.len(),
        |i: int|
            match lines[i] {
                Some(line) => line@,
                None => Seq::empty(),
            },
    )
}

/// The text taken from standard input: nothing where it is a terminal, else
/// its lines in order with a newline between each two.
pub open spec fn piped_text(interactive: bool, lines: Seq<Option<String>>) -> Seq<char> {
    if interactive {
        Seq::empty()
    } else {
        join_with(line_texts(lines), "\n"@)
    }
}

/// Makes the input text of the lines read from standard input. `interactive`
/// says that standard input is a terminal; a line that could not be read is
/// `None`.
pub fn read_stdin_lines(interactive: bool, lines: &Vec<Option<String>>) -> (text: String)
    ensures
        text@ == piped_text(interactive, lines@),
{
    if interactive {
        return String::new();
    }
    let mut texts: Vec<String> = Vec::new();
    let mut i: usize = 0;
    while i < lines.len()
        invariant
            i <= lines.len(),
            texts@.len() == i,
            forall|j: int| 0 <= j < i ==> (#[trigger] texts@[j])@ == line_texts(lines@)[j],
        decreases lines.len() - i,
    {
        let text = match &lines[i] {
            Some(line) => line.clone(),
            None => String::new(),
        };
        texts.push(text);
        i = i + 1;
    }
    proof {
        assert(views(texts@) =~= line_texts(lines@));
    }
    join_strings(&texts, "\n")
}

/// Where input was piped, the prompt ends with its annotation: the words
/// `. Input: ` and the piped text.
pub proof fn lemma_prompt_ends_with_input(
    system: Seq<char>,
    user: Seq<char>,
    stdin_text: Seq<char>,
)
    requires
        stdin_text.len() > 0,
    ensures
        ({
            let prompt = prompt_text(system, user, stdin_text);
            let suffix = ". Input: "@ + stdin_text;
            &&& prompt.len() >= suffix.len()
            &&& prompt.subrange(prompt.len() - suffix.len(), prompt.len() as int) == suffix
        }),
{
    let prompt = prompt_text(system, user, stdin_text);
    let suffix = ". Input: "@ + stdin_text;
    assert(prompt.subrange(prompt.len() - suffix.len(), prompt.len() as int) =~= suffix);
}

/// Where no input was piped, the prompt ends with the user text.
pub proof fn lemma_prompt_without_input(system: Seq<char>, user: Seq<char>)
    ensures
        prompt_text(system, user, Seq::empty()) == SYSTEM_PROMPT@ + " "@ + effective_system_text(
            system,
        ) + ".\n"@ + USER_PROMPT@ + " "@ + user,
{
    assert(prompt_text(system, user, Seq::empty()) =~= SYSTEM_PROMPT@ + " "@
        + effective_system_text(system) + ".\n"@ + USER_PROMPT@ + " "@ + user);
}

} // verus!
