//! The backend for a local-model service, which keeps the conversation
//! under a session identity.

use crate::error::{BackendError, BackendErrorView};
use crate::providers::{render_with, receive_with, ChatProvider, ChatRequest};
use vstd::prelude::*;

verus! {

/// The client of `ollama_rs`. A backend carries it; nothing is read from
/// it here.
#[verifier::external_type_specification]
#[verifier::external_body]
pub struct ExOllama(ollama_rs::Ollama);

/// A digit, or a letter from `a` to `f`.
pub open spec fn is_lower_hex(c: char) -> bool {
    ('0' <= c && c <= '9') || ('a' <= c && c <= 'f')
}

/// The shape of a session identity: a random UUID in its hyphenated
/// lower-case form.
pub open spec fn is_session_identity(id: Seq<char>) -> bool {
    &&& id.len() == 36
    &&& forall|i: int|
        0 <= i < 36 ==> if i == 8 || i == 13 || i == 18 || i == 23 {
            #[trigger] id[i] == '-'
        } else {
            is_lower_hex(id[i])
        }
    &&& id[14] == '4'
    &&& (id[19] == '8' || id[19] == '9' || id[19] == 'a' || id[19] == 'b')
}

/// `uuid::Uuid::new_v4` and the text of what it gives. The identity is
/// random, so the contract states its shape only: 36 characters, hyphens
/// after the 8th, 12th, 16th and 20th digit, lower-case hexadecimal digits
/// elsewhere, the version digit 4 and a variant digit from 8 to b. The call
/// panics where the operating system gives no random bytes.
#[verifier::external_body]
fn fresh_session_identity() -> (id: String)
    ensures
        is_session_identity(id@),
{
    uuid::Uuid::new_v4().to_string()
}

/// The backend for a local-model service.
pub struct OllamaChatProvider {
    /// The client through which requests are transmitted.
    pub client: ollama_rs::Ollama,
    /// The model that is to answer; the service is known to list it.
    pub model: String,
    /// The system prompt that goes before every message.
    pub system_prompt: String,
    /// The session identity under which the service keeps earlier turns.
    pub chat_id: String,
}

impl OllamaChatProvider {
    /// A backend with a fresh session identity.
    pub fn new(client: ollama_rs::Ollama, model: String, system_prompt: String) -> (provider: Self)
        ensures
            provider.client == client,
            provider.model@ == model@,
            provider.system_prompt@ == system_prompt@,
            is_session_identity(provider.chat_id@),
    {
        OllamaChatProvider::with_session(client, model, system_prompt, fresh_session_identity())
    }

    /// A backend that speaks within the session `chat_id`.
    pub fn with_session(
        client: ollama_rs::Ollama,
        model: String,
        system_prompt: String,
        chat_id: String,
    ) -> (provider: Self)
        ensures
            provider.client == client,
            provider.model@ == model@,
            provider.system_prompt@ == system_prompt@,
            provider.chat_id@ == chat_id@,
    {
        OllamaChatProvider { client, model, system_prompt, chat_id }
    }
}

impl ChatProvider for OllamaChatProvider {
    open spec fn system_prompt(&self) -> Seq<char> {
        self.system_prompt@
    }

    open spec fn model(&self) -> Seq<char> {
        self.model@
    }

    open spec fn session(&self) -> Option<Seq<char>> {
        Some(self.chat_id@)
    }

    open spec fn silence(&self) -> BackendErrorView {
        BackendErrorView::NoReply
    }

    fn render(&self, message: &str) -> (text: String) {
        render_with(self.system_prompt.as_str(), message)
    }

    fn request(&self, message: &str) -> (request: ChatRequest) {
        ChatRequest {
            model: self.model.clone(),
            content: self.render(message),
            session: Some(self.chat_id.clone()),
        }
    }

    fn receive(&self, delivery: Result<Option<String>, String>) -> (reply: Result<
        String,
        BackendError,
    >) {
        receive_with(BackendError::NoReply, delivery)
    }
}

} // verus!
