use vstd::prelude::*;
use vstd::pervasive::unreached;
use vstd::string::StringExecFns;

pub mod audio;
pub mod chat;
pub mod completions;
pub mod edits;
pub mod embeddings;
pub mod error;
pub mod form;
pub mod images;
pub mod json;
pub mod models;
pub mod text;

use crate::audio::ChatGptRequestAudioTranscriptions;
use crate::audio::ChatGptRequestAudioTranslations;
use crate::audio::audio_transcriptions_json;
use crate::audio::audio_translations_json;
use crate::chat::ChatGptRequestChatCompletions;
use crate::chat::chat_json;
use crate::completions::ChatGptRequestCompletionsCreate;
use crate::completions::completions_json;
use crate::edits::ChatGptRequestEdits;
use crate::edits::edits_json;
use crate::embeddings::ChatGptRequestEmbeddingsGenerations;
use crate::embeddings::embeddings_json;
use crate::form::convert_form;
use crate::form::form_of;
use crate::form::parts_view;
use crate::images::ChatGptRequestImagesEdits;
use crate::images::ChatGptRequestImagesGenerations;
use crate::images::ChatGptRequestImagesVariation;
use crate::images::images_edits_json;
use crate::images::images_generations_json;
use crate::images::images_variation_json;

verus! {

/// How a prepared request is to be sent.
pub enum HttpMethod {
    Get,
    Post,
}

/// What a prepared request carries: nothing, a JSON document, or a
/// multipart form.
pub enum RequestBody {
    Empty,
    Json(json::JsonValue),
    Form(Vec<form::FormPart>),
}

/// Everything the transport needs to issue one call: the method, the full
/// URL, and the body.
pub struct PreparedRequest {
    pub method: HttpMethod,
    pub url: String,
    pub body: RequestBody,
}

/// Client configuration for an OpenAI-compatible REST API: the bearer key,
/// an optional organization id, and the base URL that every endpoint path
/// is appended to.
pub struct ChatGpt {
    pub api_key: String,
    pub org_id: String,
    pub base_url: String,
}

impl ChatGpt {
    /// A client for the default OpenAI endpoint, with no organization id.
    pub fn new(api_key: &str) -> (r: Self)
        ensures
            r.api_key@ == api_key@,
            r.org_id@ == Seq::<char>::empty(),
            r.base_url@ == "https://api.openai.com"@,
    {
        Self {
            api_key: api_key.to_owned(),
            org_id: String::new(),
            base_url: "https://api.openai.com".to_owned(),
        }
    }

    /// A client for the default OpenAI endpoint, on behalf of an organization.
    pub fn new_org(api_key: String, org_id: String) -> (r: Self)
        ensures
            r.api_key@ == api_key@,
            r.org_id@ == org_id@,
            r.base_url@ == "https://api.openai.com"@,
    {
        Self { api_key, org_id, base_url: "https://api.openai.com".to_owned() }
    }

    /// A client for a compatible server at another base URL.
    pub fn new_with_base_url(api_key: &str, base_url: &str) -> (r: Self)
        ensures
            r.api_key@ == api_key@,
            r.org_id@ == Seq::<char>::empty(),
            r.base_url@ == base_url@,
    {
        Self {
            api_key: api_key.to_owned(),
            org_id: String::new(),
            base_url: base_url.to_owned(),
        }
    }

    /// A client for a compatible server at another base URL, on behalf of an
    /// organization.
    pub fn new_org_with_base_url(api_key: String, org_id: String, base_url: String) -> (r: Self)
        ensures
            r.api_key@ == api_key@,
            r.org_id@ == org_id@,
            r.base_url@ == base_url@,
    {
        Self { api_key, org_id, base_url }
    }

    /// The base URL with an endpoint path appended.
    fn endpoint_url(&self, path: &str) -> (r: String)
        ensures
            r@ == self.base_url@ + path@,
    {
        let mut url = self.base_url.clone();
        url.append(path);
        url
    }

    /// The call that lists the models.
    pub fn models_list_request(&self) -> (r: PreparedRequest)
        ensures
            r.method is Get,
            r.url@ == self.base_url@ + "/v1/models"@,
            r.body is Empty,
    {
        PreparedRequest {
            method: HttpMethod::Get,
            url: self.endpoint_url("/v1/models"),
            body: RequestBody::Empty,
        }
    }

    /// The call that retrieves one model by name.
    pub fn models_retrieve_request(&self, model: &str) -> (r: PreparedRequest)
        ensures
            r.method is Get,
            r.url@ == self.base_url@ + "/v1/models/"@ + model@,
            r.body is Empty,
    {
        let mut url = self.endpoint_url("/v1/models/");
        url.append(model);
        PreparedRequest { method: HttpMethod::Get, url, body: RequestBody::Empty }
    }

    /// The call that asks for a text completion.
    pub fn completions_create_request(&self, request: &ChatGptRequestCompletionsCreate) -> (r:
        PreparedRequest)
        ensures
            r.method is Post,
            r.url@ == self.base_url@ + "/v1/completions"@,
            r.body matches RequestBody::Json(b) && b@ == completions_json(request@),
    {
        PreparedRequest {
            method: HttpMethod::Post,
            url: self.endpoint_url("/v1/completions"),
            body: RequestBody::Json(request.to_value()),
        }
    }

    /// The call that asks for a chat completion.
    pub fn chat_completions_request(&self, request: &ChatGptRequestChatCompletions) -> (r:
        PreparedRequest)
        ensures
            r.method is Post,
            r.url@ == self.base_url@ + "/v1/chat/completions"@,
            r.body matches RequestBody::Json(b) && b@ == chat_json(request@),
    {
        PreparedRequest {
            method: HttpMethod::Post,
            url: self.endpoint_url("/v1/chat/completions"),
            body: RequestBody::Json(request.to_value()),
        }
    }

    /// The call that asks for an edit.
    pub fn edits_request(&self, request: &ChatGptRequestEdits) -> (r: PreparedRequest)
        ensures
            r.method is Post,
            r.url@ == self.base_url@ + "/v1/edits"@,
            r.body matches RequestBody::Json(b) && b@ == edits_json(request@),
    {
        PreparedRequest {
            method: HttpMethod::Post,
            url: self.endpoint_url("/v1/edits"),
            body: RequestBody::Json(request.to_value()),
        }
    }

    /// The call that asks for generated images.
    pub fn images_generations_request(&self, request: &ChatGptRequestImagesGenerations) -> (r:
        PreparedRequest)
        ensures
            r.method is Post,
            r.url@ == self.base_url@ + "/v1/images/generations"@,
            r.body matches RequestBody::Json(b) && b@ == images_generations_json(request@),
    {
        PreparedRequest {
            method: HttpMethod::Post,
            url: self.endpoint_url("/v1/images/generations"),
            body: RequestBody::Json(request.to_value()),
        }
    }

    /// The call that asks for an embedding.
    pub fn embeddings_request(&self, request: &ChatGptRequestEmbeddingsGenerations) -> (r:
        PreparedRequest)
        ensures
            r.method is Post,
            r.url@ == self.base_url@ + "/v1/embeddings"@,
            r.body matches RequestBody::Json(b) && b@ == embeddings_json(request@),
    {
        PreparedRequest {
            method: HttpMethod::Post,
            url: self.endpoint_url("/v1/embeddings"),
            body: RequestBody::Json(request.to_value()),
        }
    }

    /// The call that asks for an edited image: a multipart form whose
    /// `image` and `mask` members name files to stream.
    pub fn images_edits_request(&self, request: &ChatGptRequestImagesEdits) -> (r: PreparedRequest)
        ensures
            r.method is Post,
            r.url@ == self.base_url@ + "/v1/images/edits"@,
            r.body matches RequestBody::Form(parts) && form_of(
                images_edits_json(request@),
                seq!["image"@, "mask"@],
            ) == Some(parts_view(parts@)),
    {
        let v = request.to_value();
        let mut files: Vec<String> = Vec::new();
        files.push("image".to_owned());
        files.push("mask".to_owned());
        proof {
            assert(files.deep_view() =~= seq!["image"@, "mask"@]);
            crate::images::lemma_images_edits_form_owed(request@);
        }
        let parts = match convert_form(&v, &files) {
            Ok(p) => p,
            Err(_) => unreached(),
        };
        PreparedRequest {
            method: HttpMethod::Post,
            url: self.endpoint_url("/v1/images/edits"),
            body: RequestBody::Form(parts),
        }
    }

    /// The call that asks for image variations: a multipart form whose
    /// `image` member names a file to stream.
    pub fn images_variations_request(&self, request: &ChatGptRequestImagesVariation) -> (r: PreparedRequest)
        ensures
            r.method is Post,
            r.url@ == self.base_url@ + "/v1/images/variations"@,
            r.body matches RequestBody::Form(parts) && form_of(
                images_variation_json(request@),
                seq!["image"@],
            ) == Some(parts_view(parts@)),
    {
        let v = request.to_value();
        let mut files: Vec<String> = Vec::new();
        files.push("image".to_owned());
        proof {
            assert(files.deep_view() =~= seq!["image"@]);
            crate::images::lemma_images_variation_form_owed(request@);
        }
        let parts = match convert_form(&v, &files) {
            Ok(p) => p,
            Err(_) => unreached(),
        };
        PreparedRequest {
            method: HttpMethod::Post,
            url: self.endpoint_url("/v1/images/variations"),
            body: RequestBody::Form(parts),
        }
    }

    /// The call that asks for a transcription: a multipart form whose
    /// `file` member names the audio file to stream.
    pub fn audio_transcriptions_request(&self, request: &ChatGptRequestAudioTranscriptions) -> (r: PreparedRequest)
        ensures
            r.method is Post,
            r.url@ == self.base_url@ + "/v1/audio/transcriptions"@,
            r.body matches RequestBody::Form(parts) && form_of(
                audio_transcriptions_json(request@),
                seq!["file"@],
            ) == Some(parts_view(parts@)),
    {
        let v = request.to_value();
        let mut files: Vec<String> = Vec::new();
        files.push("file".to_owned());
        proof {
            assert(files.deep_view() =~= seq!["file"@]);
            crate::audio::lemma_audio_transcriptions_form_owed(request@);
        }
        let parts = match convert_form(&v, &files) {
            Ok(p) => p,
            Err(_) => unreached(),
        };
        PreparedRequest {
            method: HttpMethod::Post,
            url: self.endpoint_url("/v1/audio/transcriptions"),
            body: RequestBody::Form(parts),
        }
    }

    /// The call that asks for a translation: a multipart form whose `file`
    /// member names the audio file to stream.
    pub fn audio_translations_request(&self, request: &ChatGptRequestAudioTranslations) -> (r: PreparedRequest)
        ensures
            r.method is Post,
            r.url@ == self.base_url@ + "/v1/audio/translations"@,
            r.body matches RequestBody::Form(parts) && form_of(
                audio_translations_json(request@),
                seq!["file"@],
            ) == Some(parts_view(parts@)),
    {
        let v = request.to_value();
        let mut files: Vec<String> = Vec::new();
        files.push("file".to_owned());
        proof {
            assert(files.deep_view() =~= seq!["file"@]);
            crate::audio::lemma_audio_translations_form_owed(request@);
        }
        let parts = match convert_form(&v, &files) {
            Ok(p) => p,
            Err(_) => unreached(),
        };
        PreparedRequest {
            method: HttpMethod::Post,
            url: self.endpoint_url("/v1/audio/translations"),
            body: RequestBody::Form(parts),
        }
    }
}

} // verus!
