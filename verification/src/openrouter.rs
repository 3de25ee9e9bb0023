//! The backend for a hosted chat-completion service, which keeps nothing
//! between requests.

use crate::error::{BackendError, BackendErrorView};
use crate::providers::{render_with, receive_with, ChatProvider, ChatRequest};
use vstd::prelude::*;

verus! {

/// The client of `openai_api_rs`. A backend carries it; nothing is read
/// from it here.
#[verifier::external_type_specification]
#[verifier::external_body]
pub struct ExOpenAIClient(openai_api_rs::v1::api::OpenAIClient);

/// The backend for a hosted chat-completion service.
pub struct OpenRouterChatProvider {
    client: openai_api_rs::v1::api::OpenAIClient,
    model: String,
    system_prompt: String,
}

impl OpenRouterChatProvider {
    /// A backend that asks `model` through `client`.
    pub fn new(
        client: openai_api_rs::v1::api::OpenAIClient,
        model: String,
        system_prompt: String,
    ) -> (provider: Self)
        ensures
            provider.client() == client,
            provider.model() == model@,
            provider.system_prompt() == system_prompt@,
    {
        OpenRouterChatProvider { client, model, system_prompt }
    }

    /// The client through which requests are transmitted.
    pub closed spec fn client(&self) -> openai_api_rs::v1::api::OpenAIClient {
        self.client
    }

    /// The client through which requests are transmitted. The backend keeps
    /// its model and its system prompt, whatever is done to the client.
    pub fn client_mut(&mut self) -> (client: &mut openai_api_rs::v1::api::OpenAIClient)
        ensures
            *client == old(self).client(),
            final(self).client() == *final(client),
            final(self).model() == old(self).model(),
            final(self).system_prompt() == old(self).system_prompt(),
    {
        &mut self.client
    }

    /// The text of the choice that counts, the first. An answer without any
    /// choice has no text, like a first choice without text.
    pub fn first_choice(choices: Vec<Option<String>>) -> (content: Option<String>)
        ensures
            content == (if choices@.len() > 0 {
                choices@[0]
            } else {
                None::<String>
            }),
    {
        let mut choices = choices;
        if choices.len() > 0 {
            choices.swap_remove(0)
        } else {
            None
        }
    }
}

impl ChatProvider for OpenRouterChatProvider {
    closed spec fn system_prompt(&self) -> Seq<char> {
        self.system_prompt@
    }

    closed spec fn model(&self) -> Seq<char> {
        self.model@
    }

    open spec fn session(&self) -> Option<Seq<char>> {
        None
    }

    open spec fn silence(&self) -> BackendErrorView {
        BackendErrorView::NoContent
    }

    fn render(&self, message: &str) -> (text: String) {
        render_with(self.system_prompt.as_str(), message)
    }

    fn request(&self, message: &str) -> (request: ChatRequest) {
        ChatRequest { model: self.model.clone(), content: self.render(message), session: None }
    }

    fn receive(&self, delivery: Result<Option<String>, String>) -> (reply: Result<
        String,
        BackendError,
    >) {
        receive_with(BackendError::NoContent, delivery)
    }
}

} // verus!
