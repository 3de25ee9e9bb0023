use simple_agent::error::BackendError;
use simple_agent::ollama::OllamaChatProvider;
use simple_agent::openrouter::OpenRouterChatProvider;
use simple_agent::providers::{receive_with, render_with, ChatProvider, ChatProviders, ChatRequest};

fn ollama(model: &str, system_prompt: &str) -> OllamaChatProvider {
    OllamaChatProvider::new(
        ollama_rs::Ollama::default(),
        model.to_string(),
        system_prompt.to_string(),
    )
}

fn open_router(model: &str, system_prompt: &str) -> OpenRouterChatProvider {
    let client = openai_api_rs::v1::api::OpenAIClient::builder()
        .with_api_key("key")
        .with_endpoint("http://localhost:1/api/v1")
        .build()
        .unwrap();
    OpenRouterChatProvider::new(client, model.to_string(), system_prompt.to_string())
}

#[test]
fn render_puts_the_system_prompt_and_a_line_feed_first() {
    assert_eq!(
        render_with("You are an agent.", "List the files."),
        "You are an agent.\nList the files."
    );
    assert_eq!(render_with("", ""), "\n");
    assert_eq!(render_with("a\n", "\nb"), "a\n\n\nb");
}

#[test]
fn every_backend_renders_alike() {
    let expected = "system\nmessage";
    assert_eq!(ollama("m", "system").render("message"), expected);
    assert_eq!(open_router("m", "system").render("message"), expected);
    assert_eq!(ChatProviders::Ollama(ollama("m", "system")).render("message"), expected);
    assert_eq!(ChatProviders::OpenRouter(open_router("m", "system")).render("message"), expected);
}

#[test]
fn rendering_what_was_rendered_puts_the_prompt_twice() {
    let provider = open_router("m", "system");
    let first = provider.render("task");
    assert_eq!(provider.render(&first), "system\nsystem\ntask");
}

#[test]
fn a_new_local_backend_keeps_what_it_was_given() {
    let provider = ollama("llama3", "system");
    assert_eq!(provider.model, "llama3");
    assert_eq!(provider.system_prompt, "system");
}

#[test]
fn a_new_local_backend_has_a_random_uuid_as_its_session() {
    let id = ollama("m", "s").chat_id;
    let characters: Vec<char> = id.chars().collect();
    assert_eq!(characters.len(), 36);
    for (i, c) in characters.iter().enumerate() {
        if i == 8 || i == 13 || i == 18 || i == 23 {
            assert_eq!(*c, '-');
        } else {
            assert!(c.is_ascii_digit() || ('a'..='f').contains(c), "{:?} at {}", c, i);
        }
    }
    assert_eq!(characters[14], '4');
    assert!(['8', '9', 'a', 'b'].contains(&characters[19]));
}

#[test]
fn two_local_backends_have_two_sessions() {
    assert_ne!(ollama("m", "s").chat_id, ollama("m", "s").chat_id);
}

#[test]
fn a_local_backend_can_be_given_its_session() {
    let provider = OllamaChatProvider::with_session(
        ollama_rs::Ollama::default(),
        "m".to_string(),
        "s".to_string(),
        "session-1".to_string(),
    );
    assert_eq!(provider.chat_id, "session-1");
    assert_eq!(provider.model, "m");
    assert_eq!(provider.system_prompt, "s");
}

#[test]
fn the_local_backend_requests_within_its_session() {
    let provider = ollama("llama3", "system");
    let request = provider.request("message");
    assert_eq!(
        request,
        ChatRequest {
            model: "llama3".to_string(),
            content: "system\nmessage".to_string(),
            session: Some(provider.chat_id.clone()),
        }
    );
    assert_eq!(ChatProviders::Ollama(provider).request("message"), request);
}

#[test]
fn the_hosted_backend_requests_without_a_session() {
    let request = open_router("gpt", "system").request("message");
    assert_eq!(
        request,
        ChatRequest {
            model: "gpt".to_string(),
            content: "system\nmessage".to_string(),
            session: None,
        }
    );
    assert_eq!(ChatProviders::OpenRouter(open_router("gpt", "system")).request("message"), request);
}

#[test]
fn an_answer_with_text_is_the_reply() {
    let delivery = || Ok(Some("thoughts: []\nrun: ls".to_string()));
    assert_eq!(ollama("m", "s").receive(delivery()).unwrap(), "thoughts: []\nrun: ls");
    assert_eq!(open_router("m", "s").receive(delivery()).unwrap(), "thoughts: []\nrun: ls");
}

#[test]
fn an_answer_without_text_is_each_backend_s_own_error() {
    assert_eq!(ollama("m", "s").receive(Ok(None)), Err(BackendError::NoReply));
    assert_eq!(open_router("m", "s").receive(Ok(None)), Err(BackendError::NoContent));
    assert_eq!(
        ChatProviders::Ollama(ollama("m", "s")).receive(Ok(None)),
        Err(BackendError::NoReply)
    );
    assert_eq!(
        ChatProviders::OpenRouter(open_router("m", "s")).receive(Ok(None)),
        Err(BackendError::NoContent)
    );
}

#[test]
fn a_transport_failure_keeps_its_description() {
    let expected = Err(BackendError::Transport("connection refused".to_string()));
    assert_eq!(ollama("m", "s").receive(Err("connection refused".to_string())), expected);
    assert_eq!(open_router("m", "s").receive(Err("connection refused".to_string())), expected);
    assert_eq!(
        receive_with(BackendError::NoReply, Err("connection refused".to_string())),
        expected
    );
}

#[test]
fn the_first_choice_counts() {
    let choices = vec![Some("first".to_string()), None, Some("third".to_string())];
    assert_eq!(OpenRouterChatProvider::first_choice(choices), Some("first".to_string()));
    assert_eq!(OpenRouterChatProvider::first_choice(vec![None, Some("second".to_string())]), None);
    assert_eq!(
        OpenRouterChatProvider::first_choice(vec![Some("only".to_string())]),
        Some("only".to_string())
    );
}

#[test]
fn an_answer_without_any_choice_has_no_text() {
    assert_eq!(OpenRouterChatProvider::first_choice(Vec::new()), None);
}

#[test]
fn a_hosted_answer_without_any_choice_is_an_error() {
    let provider = open_router("m", "s");
    let delivery = Ok(OpenRouterChatProvider::first_choice(Vec::new()));
    assert_eq!(provider.receive(delivery), Err(BackendError::NoContent));
}

#[test]
fn the_hosted_backend_hands_out_its_client() {
    let mut provider = open_router("gpt", "system");
    provider.client_mut().response_headers = None;
    assert_eq!(provider.render("x"), "system\nx");
    assert_eq!(provider.request("x").model, "gpt");
}

#[test]
fn the_sentences_of_the_backend_errors() {
    assert_eq!(BackendError::NoReply.message(), "no message received from Ollama");
    assert_eq!(BackendError::NoContent.message(), "no content in response");
    assert_eq!(
        BackendError::ModelNotFound("llama3".to_string()).message(),
        "model llama3 not found"
    );
    assert_eq!(
        BackendError::MissingCredential.message(),
        "OPENROUTER_API_KEY not found in environment"
    );
    assert_eq!(BackendError::Transport("timed out".to_string()).message(), "timed out");
}
