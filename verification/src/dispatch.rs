//! What is asked of the generation service, and what is made of its reply.
//!
//! The request itself is sent by the caller: this module says what to send
//! and how the reply ends the program.

use vstd::prelude::*;
use vstd::string::*;
use crate::arguments::{
    lemma_system_needs_flag, lemma_unparseable_port_unset, parsed, Arguments, ArgumentsView,
    PORT_FLAG, SYSTEM_FLAG,
};
use crate::text::port_value;
use crate::prompt::{
    build_prompt, default_system_text, effective_system_text, input_annotation_text, prompt_text,
    SYSTEM_PROMPT, USER_PROMPT,
};

verus! {

/// The model that is asked where the arguments name none.
pub const DEFAULT_MODEL: &'static str = "mistral";

/// The port of the service where the arguments name none.
pub const DEFAULT_PORT: u16 = 11434;

/// The address of the service where the arguments name none.
pub const DEFAULT_URL: &'static str = "http://localhost";

/// What is printed where there is no user text to send.
pub const EMPTY_USER_NOTICE: &'static str =
    "user argument cannot be empty, please provide a valid input";

/// What opens the diagnostic of a failed request.
pub const FAILURE_HINT: &'static str = "unable to request Ollama, is Ollama running?: ";

/// The reply of the generation service: its text, or the description of
/// what went wrong.
#[derive(Debug)]
pub enum PromptResponse {
    Response(String),
    Error(String),
}

impl PromptResponse {
    /// Makes the response of what the service call returned.
    pub fn from_reply(reply: Result<String, String>) -> (response: PromptResponse)
        ensures
            response == (match reply {
                Ok(text) => PromptResponse::Response(text),
                Err(description) => PromptResponse::Error(description),
            }),
    {
        match reply {
            Ok(text) => PromptResponse::Response(text),
            Err(description) => PromptResponse::Error(description),
        }
    }

    /// The characters that the response carries, whichever kind it is.
    pub open spec fn content(&self) -> Seq<char> {
        match self {
            PromptResponse::Response(text) => text@,
            PromptResponse::Error(description) => description@,
        }
    }

    /// The response as text: what it carries, with nothing added.
    pub fn text(&self) -> (text: String)
        ensures
            text@ == self.content(),
    {
        match self {
            PromptResponse::Response(text) => text.clone(),
            PromptResponse::Error(description) => description.clone(),
        }
    }
}

/// One request to the generation service.
#[derive(Debug)]
pub struct Request {
    pub prompt: String,
    pub model: String,
    pub url: String,
    pub port: u16,
}

/// The mathematical content of a [`Request`].
pub struct RequestView {
    pub prompt: Seq<char>,
    pub model: Seq<char>,
    pub url: Seq<char>,
    pub port: u16,
}

impl View for Request {
    type V = RequestView;

    open spec fn view(&self) -> RequestView {
        RequestView { prompt: self.prompt@, model: self.model@, url: self.url@, port: self.port }
    }
}

/// The request that the arguments and the piped input ask for, with the
/// built-in model, address and port where the arguments name none.
pub open spec fn request_for(arguments: ArgumentsView, stdin_text: Seq<char>) -> RequestView {
    RequestView {
        prompt: prompt_text(arguments.system, arguments.user, stdin_text),
        model: match arguments.model {
            Some(model) => model,
            None => DEFAULT_MODEL@,
        },
        url: match arguments.url {
            Some(url) => url,
            None => DEFAULT_URL@,
        },
        port: match arguments.port {
            Some(port) => port,
            None => DEFAULT_PORT,
        },
    }
}

/// Says whether the program must stop before any request: it must exactly
/// when the user text is empty, and the notice to print is returned then.
pub fn empty_user_notice(arguments: &Arguments) -> (notice: Option<String>)
    ensures
        notice.is_some() <==> arguments@.user.len() == 0,
        notice.is_some() ==> notice.unwrap()@ == EMPTY_USER_NOTICE@,
{
    if arguments.user.as_str().is_empty() {
        Some(String::from_str(EMPTY_USER_NOTICE))
    } else {
        None
    }
}

/// Builds the request for the arguments and the text piped on standard
/// input.
pub fn build_request(arguments: &Arguments, stdin_text: &str) -> (request: Request)
    ensures
        request@ == request_for(arguments@, stdin_text@),
{
    let model = match &arguments.model {
        Some(model) => model.clone(),
        None => String::from_str(DEFAULT_MODEL),
    };
    let url = match &arguments.url {
        Some(url) => url.clone(),
        None => String::from_str(DEFAULT_URL),
    };
    let port = match arguments.port {
        Some(port) => port,
        None => DEFAULT_PORT,
    };
    Request {
        prompt: build_prompt(arguments.system.as_str(), arguments.user.as_str(), stdin_text),
        model,
        url,
        port,
    }
}

/// How the program ends: with the text to write to standard output as it
/// is, or with the diagnostic of a failure.
pub open spec fn outcome_of(response: PromptResponse) -> Result<Seq<char>, Seq<char>> {
    match response {
        PromptResponse::Response(text) => Ok(text@),
        PromptResponse::Error(description) => Err(FAILURE_HINT@ + description@),
    }
}

/// The characters of an outcome.
pub open spec fn outcome_text(outcome: Result<String, String>) -> Result<Seq<char>, Seq<char>> {
    match outcome {
        Ok(text) => Ok(text@),
        Err(diagnostic) => Err(diagnostic@),
    }
}

/// Turns the service's response into the program's outcome: `Ok` with the
/// generated text for standard output, or `Err` with a diagnostic that
/// carries the description of the failure.
pub fn conclude(response: PromptResponse) -> (outcome: Result<String, String>)
    ensures
        outcome_text(outcome) == outcome_of(response),
{
    match response {
        PromptResponse::Response(text) => Ok(text),
        PromptResponse::Error(description) => Err(
            String::from_str(FAILURE_HINT).concat(description.as_str()),
        ),
    }
}

/// A failed request never yields text for standard output, and its
/// diagnostic ends with the description of the failure.
pub proof fn lemma_failure_carries_description(description: String)
    ensures
        outcome_of(PromptResponse::Error(description)) is Err,
        ({
            let diagnostic = outcome_of(PromptResponse::Error(description))->Err_0;
            &&& diagnostic.len() >= description@.len()
            &&& diagnostic.subrange(diagnostic.len() - description@.len(), diagnostic.len() as int)
                == description@
        }),
{
    let diagnostic = outcome_of(PromptResponse::Error(description))->Err_0;
    assert(diagnostic.subrange(diagnostic.len() - description@.len(), diagnostic.len() as int)
        =~= description@);
}

/// Where no token spells `--system`, the system text of the prompt is the
/// default instruction, word for word.
pub proof fn lemma_default_system_without_flag(tokens: Seq<Seq<char>>, stdin_text: Seq<char>)
    requires
        forall|j: int| 0 <= j < tokens.len() ==> #[trigger] tokens[j] != SYSTEM_FLAG@,
    ensures
        effective_system_text(parsed(tokens).system) == default_system_text(),
        request_for(parsed(tokens), stdin_text).prompt == SYSTEM_PROMPT@ + " "@
            + default_system_text() + ".\n"@ + USER_PROMPT@ + " "@ + parsed(tokens).user
            + input_annotation_text(stdin_text),
{
    lemma_system_needs_flag(tokens);
}

/// Where the value that follows `--port` writes no port, and no other port
/// is named, the request goes to the built-in port.
pub proof fn lemma_unparseable_port_uses_default(
    value: Seq<char>,
    rest: Seq<Seq<char>>,
    stdin_text: Seq<char>,
)
    requires
        port_value(value) is None,
        forall|j: int| 0 <= j < rest.len() ==> #[trigger] rest[j] != PORT_FLAG@,
    ensures
        request_for(parsed(seq![PORT_FLAG@, value] + rest), stdin_text).port == DEFAULT_PORT,
{
    lemma_unparseable_port_unset(value, rest);
}

} // verus!
