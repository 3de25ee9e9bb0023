//! The chat backends behind one interface: what each puts before a message,
//! what it transmits, and how it reads what came back.

use crate::error::{BackendError, BackendErrorView};
use crate::ollama::OllamaChatProvider;
use crate::openrouter::OpenRouterChatProvider;
use vstd::prelude::*;
use vstd::string::StringExecFns;

verus! {

/// The text that a backend transmits for `message`: the system prompt, a
/// line feed, then the message.
pub open spec fn rendered(system_prompt: Seq<char>, message: Seq<char>) -> Seq<char> {
    system_prompt + seq!['\n'] + message
}

/// The system prompt, a line feed, then the message.
pub fn render_with(system_prompt: &str, message: &str) -> (text: String)
    ensures
        text@ == rendered(system_prompt@, message@),
{
    proof {
        reveal_strlit("\n");
    }
    let mut text = String::from_str(system_prompt);
    text.append("\n");
    text.append(message);
    text
}

/// What a backend transmits for one message: a single message in the user's
/// role, for a model, within a session where the service keeps one.
#[derive(Debug, Clone, PartialEq, Eq)]
pub struct ChatRequest {
    /// The model that is to answer.
    pub model: String,
    /// The text of the one message, in the user's role.
    pub content: String,
    /// The session under which the service keeps earlier turns, if it keeps
    /// any.
    pub session: Option<String>,
}

/// A `ChatRequest` with its texts as sequences of characters.
pub struct ChatRequestView {
    pub model: Seq<char>,
    pub content: Seq<char>,
    pub session: Option<Seq<char>>,
}

impl View for ChatRequest {
    type V = ChatRequestView;

    open spec fn view(&self) -> ChatRequestView {
        ChatRequestView {
            model: self.model@,
            content: self.content@,
            session: match self.session {
                Some(session) => Some(session@),
                None => None,
            },
        }
    }
}

/// What the service's answer is taken for: its text, the backend's error
/// where it holds none, or a transport failure with the client library's
/// description.
pub open spec fn received(
    silence: BackendErrorView,
    delivery: Result<Option<Seq<char>>, Seq<char>>,
) -> Result<Seq<char>, BackendErrorView> {
    match delivery {
        Ok(Some(text)) => Ok(text),
        Ok(None) => Err(silence),
        Err(description) => Err(BackendErrorView::Transport(description)),
    }
}

/// The view of what a transmission handed back.
pub open spec fn delivery_view(delivery: Result<Option<String>, String>) -> Result<
    Option<Seq<char>>,
    Seq<char>,
> {
    match delivery {
        Ok(Some(text)) => Ok(Some(text@)),
        Ok(None) => Ok(None),
        Err(description) => Err(description@),
    }
}

/// The view of a reply or the error in its place.
pub open spec fn reply_view(reply: Result<String, BackendError>) -> Result<
    Seq<char>,
    BackendErrorView,
> {
    match reply {
        Ok(text) => Ok(text@),
        Err(error) => Err(error@),
    }
}

/// A chat backend. Sending a message is `request`, the transmission of what
/// it gives, and `receive` on what came back; the transmission itself is
/// left to the caller.
pub trait ChatProvider {
    /// The system prompt that goes before every message.
    spec fn system_prompt(&self) -> Seq<char>;

    /// The model that requests are made for.
    spec fn model(&self) -> Seq<char>;

    /// The session that requests are made in, if the service keeps one.
    spec fn session(&self) -> Option<Seq<char>>;

    /// The error by which this backend reports an answer without text.
    spec fn silence(&self) -> BackendErrorView;

    /// The text that is transmitted for `message`.
    fn render(&self, message: &str) -> (text: String)
        ensures
            text@ == rendered(self.system_prompt(), message@),
    ;

    /// The request that is transmitted for `message`.
    fn request(&self, message: &str) -> (request: ChatRequest)
        ensures
            request@ == (ChatRequestView {
                model: self.model(),
                content: rendered(self.system_prompt(), message@),
                session: self.session(),
            }),
    ;

    /// The reply in what the transmission handed back: the answer's text if
    /// it has one, `Ok(None)` if it has none, or the description of a
    /// transport failure.
    fn receive(&self, delivery: Result<Option<String>, String>) -> (reply: Result<
        String,
        BackendError,
    >)
        ensures
            reply_view(reply) == received(self.silence(), delivery_view(delivery)),
    ;
}

/// The reply in what a transmission handed back, for a backend that reports
/// an answer without text as `silence`.
pub fn receive_with(silence: BackendError, delivery: Result<Option<String>, String>) -> (reply:
    Result<String, BackendError>)
    ensures
        reply_view(reply) == received(silence@, delivery_view(delivery)),
{
    match delivery {
        Ok(Some(text)) => Ok(text),
        Ok(None) => Err(silence),
        Err(description) => Err(BackendError::Transport(description)),
    }
}

/// The backends that there are.
pub enum ChatProviders {
    Ollama(OllamaChatProvider),
    OpenRouter(OpenRouterChatProvider),
}

impl ChatProvider for ChatProviders {
    open spec fn system_prompt(&self) -> Seq<char> {
        match self {
            ChatProviders::Ollama(provider) => provider.system_prompt(),
            ChatProviders::OpenRouter(provider) => provider.system_prompt(),
        }
    }

    open spec fn model(&self) -> Seq<char> {
        match self {
            ChatProviders::Ollama(provider) => provider.model(),
            ChatProviders::OpenRouter(provider) => provider.model(),
        }
    }

    open spec fn session(&self) -> Option<Seq<char>> {
        match self {
            ChatProviders::Ollama(provider) => provider.session(),
            ChatProviders::OpenRouter(provider) => provider.session(),
        }
    }

    open spec fn silence(&self) -> BackendErrorView {
        match self {
            ChatProviders::Ollama(provider) => provider.silence(),
            ChatProviders::OpenRouter(provider) => provider.silence(),
        }
    }

    fn render(&self, message: &str) -> (text: String) {
        match self {
            ChatProviders::Ollama(provider) => provider.render(message),
            ChatProviders::OpenRouter(provider) => provider.render(message),
        }
    }

    fn request(&self, message: &str) -> (request: ChatRequest) {
        match self {
            ChatProviders::Ollama(provider) => provider.request(message),
            ChatProviders::OpenRouter(provider) => provider.request(message),
        }
    }

    fn receive(&self, delivery: Result<Option<String>, String>) -> (reply: Result<
        String,
        BackendError,
    >) {
        match self {
            ChatProviders::Ollama(provider) => provider.receive(delivery),
            ChatProviders::OpenRouter(provider) => provider.receive(delivery),
        }
    }
}

} // verus!
