//! What can go wrong: at a chat backend, while a reply is read, and in the
//! loop as a whole.

use vstd::prelude::*;
use vstd::string::StringExecFns;

verus! {

/// A failure of a chat backend, at construction or while sending.
#[derive(Debug, Clone, PartialEq, Eq)]
pub enum BackendError {
    /// The client library reported a network or protocol failure; the text
    /// is its description.
    Transport(String),
    /// The local-model service answered without a message body.
    NoReply,
    /// The hosted service answered without a choice, or with a first choice
    /// that carries no text.
    NoContent,
    /// The local-model service does not list the requested model.
    ModelNotFound(String),
    /// No API key was supplied for the hosted service.
    MissingCredential,
}

/// A `BackendError` with its texts as sequences of characters.
pub enum BackendErrorView {
    Transport(Seq<char>),
    NoReply,
    NoContent,
    ModelNotFound(Seq<char>),
    MissingCredential,
}

impl View for BackendError {
    type V = BackendErrorView;

    open spec fn view(&self) -> BackendErrorView {
        match self {
            BackendError::Transport(description) => BackendErrorView::Transport(description@),
            BackendError::NoReply => BackendErrorView::NoReply,
            BackendError::NoContent => BackendErrorView::NoContent,
            BackendError::ModelNotFound(model) => BackendErrorView::ModelNotFound(model@),
            BackendError::MissingCredential => BackendErrorView::MissingCredential,
        }
    }
}

impl BackendErrorView {
    /// The sentence that reports this error to the operator.
    pub open spec fn message(self) -> Seq<char> {
        match self {
            BackendErrorView::Transport(description) => description,
            BackendErrorView::NoReply => "no message received from Ollama"@,
            BackendErrorView::NoContent => "no content in response"@,
            BackendErrorView::ModelNotFound(model) => "model "@ + model + " not found"@,
            BackendErrorView::MissingCredential => "OPENROUTER_API_KEY not found in environment"@,
        }
    }
}

impl BackendError {
    /// The sentence that reports this error to the operator.
    pub fn message(&self) -> (text: String)
        ensures
            text@ == self@.message(),
    {
        match self {
            BackendError::Transport(description) => description.clone(),
            BackendError::NoReply => String::from_str("no message received from Ollama"),
            BackendError::NoContent => String::from_str("no content in response"),
            BackendError::ModelNotFound(model) => {
                let mut text = String::from_str("model ");
                text.append(model.as_str());
                text.append(" not found");
                text
            },
            BackendError::MissingCredential => String::from_str(
                "OPENROUTER_API_KEY not found in environment",
            ),
        }
    }
}

/// Why a reply could not be read as a directive.
#[derive(Debug, Clone, PartialEq, Eq)]
pub struct ParseError {
    /// The underlying cause, in words.
    pub cause: String,
}

impl View for ParseError {
    type V = Seq<char>;

    open spec fn view(&self) -> Seq<char> {
        self.cause@
    }
}

/// One of the two streams that a command writes to.
#[derive(Debug, Clone, Copy, PartialEq, Eq, Structural)]
pub enum Stream {
    Stdout,
    Stderr,
}

/// What ends the loop before the model asks for it.
#[derive(Debug, Clone, PartialEq, Eq)]
pub enum AgentError {
    /// The backend failed while sending.
    Backend(BackendError),
    /// A command wrote bytes that are not UTF-8 to the named stream.
    InvalidUtf8(Stream),
    /// A command's result could not be written as structured text; the text
    /// is the encoder's description.
    Encode(String),
}

/// An `AgentError` with its texts as sequences of characters.
pub enum AgentErrorView {
    Backend(BackendErrorView),
    InvalidUtf8(Stream),
    Encode(Seq<char>),
}

impl View for AgentError {
    type V = AgentErrorView;

    open spec fn view(&self) -> AgentErrorView {
        match self {
            AgentError::Backend(error) => AgentErrorView::Backend(error@),
            AgentError::InvalidUtf8(stream) => AgentErrorView::InvalidUtf8(*stream),
            AgentError::Encode(description) => AgentErrorView::Encode(description@),
        }
    }
}

impl AgentErrorView {
    /// The sentence that reports this error to the operator.
    pub open spec fn message(self) -> Seq<char> {
        match self {
            AgentErrorView::Backend(error) => error.message(),
            AgentErrorView::InvalidUtf8(Stream::Stdout) => "standard output is not valid UTF-8"@,
            AgentErrorView::InvalidUtf8(Stream::Stderr) => "standard error is not valid UTF-8"@,
            AgentErrorView::Encode(description) => description,
        }
    }
}

impl AgentError {
    /// The sentence that reports this error to the operator.
    pub fn message(&self) -> (text: String)
        ensures
            text@ == self@.message(),
    {
        match self {
            AgentError::Backend(error) => error.message(),
            AgentError::InvalidUtf8(Stream::Stdout) => String::from_str(
                "standard output is not valid UTF-8",
            ),
            AgentError::InvalidUtf8(Stream::Stderr) => String::from_str(
                "standard error is not valid UTF-8",
            ),
            AgentError::Encode(description) => description.clone(),
        }
    }
}

} // verus!
