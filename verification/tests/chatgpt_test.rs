use chatgpt::ChatGpt;
use chatgpt::HttpMethod;
use chatgpt::RequestBody;
use chatgpt::audio::ChatGptRequestAudioTranscriptions;
use chatgpt::audio::ChatGptRequestAudioTranslations;
use chatgpt::chat::ChatGptChatFormat;
use chatgpt::chat::ChatGptRequestChatCompletions;
use chatgpt::completions::ChatGptRequestCompletionsCreate;
use chatgpt::edits::ChatGptRequestEdits;
use chatgpt::embeddings::ChatGptRequestEmbeddingsGenerations;
use chatgpt::error::ChatGptError;
use chatgpt::form::FormPart;
use chatgpt::images::ChatGptRequestImagesGenerations;
use chatgpt::images::ChatGptRequestImagesVariation;
use chatgpt::images::ChatGptResponseImagesGenerations;
use chatgpt::json::JsonValue;

fn obj(fields: Vec<(&str, JsonValue)>) -> JsonValue {
    JsonValue::Obj(fields.into_iter().map(|(k, v)| (k.to_string(), v)).collect())
}

fn s(text: &str) -> JsonValue {
    JsonValue::Str(text.to_string())
}

#[test]
fn client_defaults() {
    let c = ChatGpt::new("key");
    assert_eq!(c.api_key, "key");
    assert_eq!(c.org_id, "");
    assert_eq!(c.base_url, "https://api.openai.com");

    let c = ChatGpt::new_org("key".to_string(), "org".to_string());
    assert_eq!(c.org_id, "org");
    assert_eq!(c.base_url, "https://api.openai.com");

    let c = ChatGpt::new_with_base_url("ollama", "http://localhost:11434");
    assert_eq!(c.api_key, "ollama");
    assert_eq!(c.base_url, "http://localhost:11434");

    let c = ChatGpt::new_org_with_base_url(
        "k".to_string(),
        "o".to_string(),
        "http://example.test".to_string(),
    );
    assert_eq!(c.org_id, "o");
    assert_eq!(c.base_url, "http://example.test");
}

#[test]
fn trim_drops_null_members_recursively() {
    let v = obj(vec![
        ("a", JsonValue::Null),
        ("b", obj(vec![("c", JsonValue::Null), ("d", JsonValue::Int(1))])),
        ("e", JsonValue::Arr(vec![JsonValue::Null, s("x")])),
    ]);
    assert_eq!(v.trim().to_json_text(), "{\"b\":{\"d\":1},\"e\":[null,\"x\"]}");
    // trimming twice changes nothing more
    assert_eq!(v.trim().trim().to_json_text(), "{\"b\":{\"d\":1},\"e\":[null,\"x\"]}");
}

#[test]
fn json_text_escapes_strings() {
    let v = s("a\"b\\c\nd\re\tf\u{1}g");
    assert_eq!(v.to_json_text(), "\"a\\\"b\\\\c\\nd\\re\\tf\\u0001g\"");
    assert_eq!(JsonValue::Bool(true).to_json_text(), "true");
    assert_eq!(JsonValue::Bool(false).to_json_text(), "false");
    assert_eq!(JsonValue::Null.to_json_text(), "null");
    assert_eq!(JsonValue::Arr(vec![]).to_json_text(), "[]");
    assert_eq!(JsonValue::Obj(vec![]).to_json_text(), "{}");
}

#[test]
fn json_text_writes_integers() {
    assert_eq!(JsonValue::Int(0).to_json_text(), "0");
    assert_eq!(JsonValue::Int(100).to_json_text(), "100");
    assert_eq!(JsonValue::Int(-123).to_json_text(), "-123");
    assert_eq!(JsonValue::Int(i64::MAX).to_json_text(), "9223372036854775807");
    assert_eq!(JsonValue::Int(i64::MIN).to_json_text(), "-9223372036854775808");
}

#[test]
fn object_lookup() {
    let v = obj(vec![("model", s("llama2")), ("n", JsonValue::Int(2))]);
    assert!(matches!(v.get("model"), Some(JsonValue::Str(m)) if m == "llama2"));
    assert!(matches!(v.get("n"), Some(JsonValue::Int(2))));
    assert!(v.get("missing").is_none());
    assert!(s("not an object").get("model").is_none());
}

#[test]
fn error_messages() {
    let e = ChatGptError::Connection("refused".to_string());
    assert_eq!(e.message(), "refused");
    let e = ChatGptError::Status(404, "not found".to_string());
    assert_eq!(e.message(), "status: 404 ,message:not found");
    let e = ChatGptError::JsonParse(obj(vec![("bad", JsonValue::Null)]));
    assert_eq!(e.message(), "{\"bad\":null}");
}

#[test]
fn embeddings_body_omits_unset_user() {
    let request = ChatGptRequestEmbeddingsGenerations::new(
        "llama3.2:latest",
        "The food was delicious and the waiter...",
    );
    assert_eq!(
        request.to_value().to_json_text(),
        "{\"model\":\"llama3.2:latest\",\"input\":[\"The food was delicious and the waiter...\"]}",
    );
    let mut request = request;
    request.user = Some("someone".to_string());
    assert_eq!(
        request.to_value().to_json_text(),
        "{\"model\":\"llama3.2:latest\",\"input\":[\"The food was delicious and the waiter...\"],\"user\":\"someone\"}",
    );
}

#[test]
fn embeddings_round_trip() {
    let request = ChatGptRequestEmbeddingsGenerations::new("llama3.2:latest", "hello");
    let back = ChatGptRequestEmbeddingsGenerations::from_value(request.to_value()).unwrap();
    assert_eq!(back.model, "llama3.2:latest");
    assert_eq!(back.input, vec!["hello".to_string()]);
    assert!(back.user.is_none());
}

#[test]
fn embeddings_from_value_rejects_bad_shapes() {
    assert!(matches!(
        ChatGptRequestEmbeddingsGenerations::from_value(JsonValue::Int(3)),
        Err(ChatGptError::JsonParse(JsonValue::Int(3)))
    ));
    let missing_input = obj(vec![("model", s("m"))]);
    assert!(ChatGptRequestEmbeddingsGenerations::from_value(missing_input).is_err());
    let bad_element = obj(vec![
        ("model", s("m")),
        ("input", JsonValue::Arr(vec![s("ok"), JsonValue::Int(7)])),
    ]);
    assert!(ChatGptRequestEmbeddingsGenerations::from_value(bad_element).is_err());
}

#[test]
fn completions_body() {
    let request = ChatGptRequestCompletionsCreate::new("llama3.2:latest", 100, "Say this is a test");
    assert_eq!(
        request.to_value().to_json_text(),
        "{\"model\":\"llama3.2:latest\",\"prompt\":[\"Say this is a test\"],\"max_tokens\":100}",
    );
}

#[test]
fn completions_from_value() {
    let v = obj(vec![
        ("model", s("llama3.2:latest")),
        ("prompt", JsonValue::Arr(vec![s("Say this is a test")])),
        ("max_tokens", JsonValue::Int(7)),
        ("temperature", JsonValue::Int(0)),
    ]);
    let req = ChatGptRequestCompletionsCreate::from_value(v).unwrap();
    assert_eq!(req.model, "llama3.2:latest");
    assert_eq!(req.prompt, vec!["Say this is a test".to_string()]);
    assert_eq!(req.max_tokens, 7);

    let no_tokens = obj(vec![
        ("model", s("m")),
        ("prompt", JsonValue::Arr(vec![s("p")])),
    ]);
    assert!(ChatGptRequestCompletionsCreate::from_value(no_tokens).is_err());
}

#[test]
fn chat_body() {
    let request = ChatGptRequestChatCompletions::new(
        "llama3.2:latest",
        vec![
            ChatGptChatFormat::new_system("helper"),
            ChatGptChatFormat::new_user("hello"),
        ],
    );
    assert_eq!(
        request.to_value().to_json_text(),
        "{\"model\":\"llama3.2:latest\",\"messages\":[{\"role\":\"system\",\"content\":\"helper\"},{\"role\":\"user\",\"content\":\"hello\"}]}",
    );
}

#[test]
fn edits_body() {
    let request = ChatGptRequestEdits::new(
        "llama2",
        "Fix the spelling mistakes",
        " day of the wek is it?",
    );
    assert_eq!(
        request.to_value().to_json_text(),
        "{\"model\":\"llama2\",\"instruction\":\"Fix the spelling mistakes\",\"input\":\" day of the wek is it?\"}",
    );
}

#[test]
fn audio_from_value_round_trip() {
    let request = ChatGptRequestAudioTranslations::new("llama2", "./001-sibutomo.mp3");
    let back = ChatGptRequestAudioTranslations::from_value(request.to_value()).unwrap();
    assert_eq!(back.model, "llama2");
    assert_eq!(back.file, "./001-sibutomo.mp3");
    assert!(back.prompt.is_none());

    let bad = obj(vec![("file", s("f.mp3")), ("model", s("m")), ("prompt", JsonValue::Int(3))]);
    assert!(ChatGptRequestAudioTranslations::from_value(bad).is_err());

    let request = ChatGptRequestAudioTranscriptions::new("whisper-1", "./clip.mp3");
    let back = ChatGptRequestAudioTranscriptions::from_value(request.to_value()).unwrap();
    assert_eq!(back.model, "whisper-1");
    assert_eq!(back.file, "./clip.mp3");
    assert!(back.language.is_none());
}

#[test]
fn images_generations_body_and_format() {
    let mut request = ChatGptRequestImagesGenerations::new("Japan Home. Wood Picture.", 1);
    assert_eq!(
        request.to_value().to_json_text(),
        "{\"prompt\":\"Japan Home. Wood Picture.\",\"n\":1}",
    );
    request.set_response_format("b64_json");
    assert_eq!(
        request.to_value().to_json_text(),
        "{\"prompt\":\"Japan Home. Wood Picture.\",\"n\":1,\"response_format\":\"b64_json\"}",
    );
}

#[test]
fn images_response_accessors() {
    let body = obj(vec![(
        "data",
        JsonValue::Arr(vec![
            obj(vec![("url", s("http://img.test/one"))]),
            obj(vec![("b64_json", s("QUJD"))]),
            obj(vec![("url", s("http://img.test/two"))]),
        ]),
    )]);
    let response = ChatGptResponseImagesGenerations::new(body);
    assert_eq!(
        response.get_urls(),
        vec!["http://img.test/one".to_string(), "http://img.test/two".to_string()],
    );
    assert_eq!(response.b64_jsons(), vec!["QUJD".to_string()]);
    let empty = ChatGptResponseImagesGenerations::new(obj(vec![]));
    assert!(empty.get_urls().is_empty());
}

#[test]
fn get_request_urls() {
    let gpt = ChatGpt::new_with_base_url("ollama", "http://localhost:11434");
    let r = gpt.models_list_request();
    assert!(matches!(r.method, HttpMethod::Get));
    assert_eq!(r.url, "http://localhost:11434/v1/models");
    assert!(matches!(r.body, RequestBody::Empty));

    let r = gpt.models_retrieve_request("llama2");
    assert_eq!(r.url, "http://localhost:11434/v1/models/llama2");
}

#[test]
fn post_request_bodies() {
    let gpt = ChatGpt::new("key");
    let request = ChatGptRequestEmbeddingsGenerations::new("m", "text");
    let r = gpt.embeddings_request(&request);
    assert!(matches!(r.method, HttpMethod::Post));
    assert_eq!(r.url, "https://api.openai.com/v1/embeddings");
    match r.body {
        RequestBody::Json(b) => {
            assert_eq!(b.to_json_text(), "{\"model\":\"m\",\"input\":[\"text\"]}");
        }
        _ => panic!("expected a JSON body"),
    }

    let request = ChatGptRequestChatCompletions::new("m", vec![ChatGptChatFormat::new_user("hi")]);
    let r = gpt.chat_completions_request(&request);
    assert_eq!(r.url, "https://api.openai.com/v1/chat/completions");
}

#[test]
fn audio_translations_form_parts() {
    let gpt = ChatGpt::new("key");
    let request = ChatGptRequestAudioTranslations::new("llama2", "./001-sibutomo.mp3");
    let r = gpt.audio_translations_request(&request);
    assert_eq!(r.url, "https://api.openai.com/v1/audio/translations");
    match r.body {
        RequestBody::Form(parts) => {
            assert_eq!(parts.len(), 2);
            match &parts[0] {
                FormPart::File { name, path } => {
                    assert_eq!(name, "file");
                    assert_eq!(path, "./001-sibutomo.mp3");
                }
                _ => panic!("the file member must become a file part"),
            }
            match &parts[1] {
                FormPart::Text { name, value } => {
                    assert_eq!(name, "model");
                    assert_eq!(value, "llama2");
                }
                _ => panic!("the model member must become a text part"),
            }
        }
        _ => panic!("expected a form body"),
    }
}

#[test]
fn audio_transcriptions_form_skips_unset_members() {
    let gpt = ChatGpt::new("key");
    let mut request = ChatGptRequestAudioTranscriptions::new("whisper-1", "./clip.mp3");
    request.language = Some("en".to_string());
    let r = gpt.audio_transcriptions_request(&request);
    match r.body {
        RequestBody::Form(parts) => {
            assert_eq!(parts.len(), 3);
            assert!(matches!(&parts[0], FormPart::File { name, .. } if name == "file"));
            assert!(matches!(&parts[1], FormPart::Text { name, .. } if name == "model"));
            assert!(
                matches!(&parts[2], FormPart::Text { name, value } if name == "language" && value == "en")
            );
        }
        _ => panic!("expected a form body"),
    }
}

#[test]
fn images_variations_form() {
    let gpt = ChatGpt::new_with_base_url("ollama", "http://localhost:11434");
    let request = ChatGptRequestImagesVariation::new("./img.png", 1);
    let r = gpt.images_variations_request(&request);
    assert_eq!(r.url, "http://localhost:11434/v1/images/variations");
    match r.body {
        RequestBody::Form(parts) => {
            assert!(matches!(&parts[0], FormPart::File { name, path } if name == "image" && path == "./img.png"));
            assert!(matches!(&parts[1], FormPart::Text { name, value } if name == "n" && value == "1"));
        }
        _ => panic!("expected a form body"),
    }
}
