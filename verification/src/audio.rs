use vstd::prelude::*;
use crate::error::ChatGptError;
use crate::json::Json;
use crate::json::JsonValue;
use crate::json::lemma_fields_view_index;
use crate::json::lookup_field;
use crate::json::obj_get;
use crate::json::opt_str_member;
use crate::json::opt_str_of;

verus! {

/// The body that the audio-transcription endpoint answered with.
pub struct ChatGptResponseAudioTranscriptions {
    value: JsonValue,
}

impl View for ChatGptResponseAudioTranscriptions {
    type V = Json;

    closed spec fn view(&self) -> Json {
        self.value@
    }
}

impl ChatGptResponseAudioTranscriptions {
    /// Wraps a parsed response body.
    pub fn new(value: JsonValue) -> (r: Self)
        ensures
            r@ == value@,
    {
        Self { value }
    }

    /// The wrapped body.
    pub fn to_value(&self) -> (r: &JsonValue)
        ensures
            r@ == self@,
    {
        &self.value
    }
}

/// A transcription request: the audio file to transcribe, the model, and
/// optional guidance.
pub struct ChatGptRequestAudioTranscriptions {
    pub file: String,
    pub model: String,
    pub prompt: Option<String>,
    pub response_format: Option<String>,
    pub language: Option<String>,
}

/// The model of a transcription request.
pub struct AudioTranscriptionsView {
    pub file: Seq<char>,
    pub model: Seq<char>,
    pub prompt: Option<Seq<char>>,
    pub response_format: Option<Seq<char>>,
    pub language: Option<Seq<char>>,
}

impl View for ChatGptRequestAudioTranscriptions {
    type V = AudioTranscriptionsView;

    open spec fn view(&self) -> AudioTranscriptionsView {
        AudioTranscriptionsView {
            file: self.file@,
            model: self.model@,
            prompt: self.prompt.deep_view(),
            response_format: self.response_format.deep_view(),
            language: self.language.deep_view(),
        }
    }
}

/// The JSON body of a transcription request: file and model always, each
/// optional member only where it is set.
pub open spec fn audio_transcriptions_json(v: AudioTranscriptionsView) -> Json {
    Json::Obj(
        seq![("file"@, Json::Str(v.file)), ("model"@, Json::Str(v.model))] + opt_str_member(
            "prompt"@,
            v.prompt,
        ) + opt_str_member("response_format"@, v.response_format) + opt_str_member(
            "language"@,
            v.language,
        ),
    )
}

impl ChatGptRequestAudioTranscriptions {
    /// A request for one audio file, with no guidance set.
    pub fn new(model: &str, file: &str) -> (r: Self)
        ensures
            r.model@ == model@,
            r.file@ == file@,
            r.prompt is None,
            r.response_format is None,
            r.language is None,
    {
        Self {
            file: file.to_owned(),
            model: model.to_owned(),
            prompt: None,
            response_format: None,
            language: None,
        }
    }

    /// The JSON body of the request, unset members omitted.
    pub fn to_value(&self) -> (r: JsonValue)
        ensures
            r@ == audio_transcriptions_json(self@),
    {
        let mut fields: Vec<(String, JsonValue)> = Vec::new();
        fields.push(("file".to_owned(), JsonValue::Str(self.file.clone())));
        fields.push(("model".to_owned(), JsonValue::Str(self.model.clone())));
        match &self.prompt {
            Option::Some(s) => {
                fields.push(("prompt".to_owned(), JsonValue::Str(s.clone())));
            },
            Option::None => {},
        }
        match &self.response_format {
            Option::Some(s) => {
                fields.push(("response_format".to_owned(), JsonValue::Str(s.clone())));
            },
            Option::None => {},
        }
        match &self.language {
            Option::Some(s) => {
                fields.push(("language".to_owned(), JsonValue::Str(s.clone())));
            },
            Option::None => {},
        }
        let r = JsonValue::Obj(fields);
        proof {
            lemma_fields_view_index(fields@);
            assert(r@ matches Json::Obj(fs) && fs =~= audio_transcriptions_json(self@)->Obj_0);
        }
        r
    }

    /// The request that a JSON document describes, the document handed back
    /// inside the error where it does not describe one.
    pub fn from_value(value: JsonValue) -> (r: Result<Self, ChatGptError>)
        ensures
            match r {
                Ok(req) => audio_transcriptions_of_json(value@) == Some(req@),
                Err(e) => {
                    &&& audio_transcriptions_of_json(value@) is None
                    &&& e matches ChatGptError::JsonParse(bad) && bad@ == value@
                },
            },
    {
        let file: String = match value.get("file") {
            Option::Some(JsonValue::Str(f)) => f.clone(),
            _ => {
                return Err(ChatGptError::JsonParse(value.clone()));
            },
        };
        let model: String = match value.get("model") {
            Option::Some(JsonValue::Str(m)) => m.clone(),
            _ => {
                return Err(ChatGptError::JsonParse(value.clone()));
            },
        };
        let prompt: Option<String> = match value.get("prompt") {
            Option::None => None,
            Option::Some(JsonValue::Str(p)) => Some(p.clone()),
            Option::Some(_) => {
                return Err(ChatGptError::JsonParse(value.clone()));
            },
        };
        let response_format: Option<String> = match value.get("response_format") {
            Option::None => None,
            Option::Some(JsonValue::Str(f)) => Some(f.clone()),
            Option::Some(_) => {
                return Err(ChatGptError::JsonParse(value.clone()));
            },
        };
        let language: Option<String> = match value.get("language") {
            Option::None => None,
            Option::Some(JsonValue::Str(l)) => Some(l.clone()),
            Option::Some(_) => {
                return Err(ChatGptError::JsonParse(value.clone()));
            },
        };
        Ok(Self { file, model, prompt, response_format, language })
    }
}

/// The transcription request that a JSON document describes: None where
/// the document is not an object, where `file` or `model` is missing or
/// not a string, or where an optional member is present but not a string.
/// Members with other names are passed over.
pub open spec fn audio_transcriptions_of_json(j: Json) -> Option<AudioTranscriptionsView> {
    match (obj_get(j, "file"@), obj_get(j, "model"@)) {
        (Option::Some(Json::Str(f)), Option::Some(Json::Str(m))) => {
            match (
                opt_str_of(obj_get(j, "prompt"@)),
                opt_str_of(obj_get(j, "response_format"@)),
                opt_str_of(obj_get(j, "language"@)),
            ) {
                (Option::Some(p), Option::Some(rf), Option::Some(l)) => Some(
                    AudioTranscriptionsView {
                        file: f,
                        model: m,
                        prompt: p,
                        response_format: rf,
                        language: l,
                    },
                ),
                _ => None,
            }
        },
        _ => None,
    }
}

/// Every member a transcription request writes holds a string.
proof fn lemma_audio_transcriptions_members_strs(v: AudioTranscriptionsView)
    ensures
        forall|i: int|
            0 <= i < (audio_transcriptions_json(v)->Obj_0).len() ==> (#[trigger] (
            audio_transcriptions_json(v)->Obj_0)[i]).1 is Str,
{
    let fs = audio_transcriptions_json(v)->Obj_0;
    let base = seq![("file"@, Json::Str(v.file)), ("model"@, Json::Str(v.model))];
    assert forall|i: int| 0 <= i < fs.len() implies (#[trigger] fs[i]).1 is Str by {
        let withp = base + opt_str_member("prompt"@, v.prompt);
        let withrf = withp + opt_str_member("response_format"@, v.response_format);
        match v.prompt {
            Option::None => {
                assert(withp =~= base);
            },
            Option::Some(p) => {
                assert(withp =~= base.push(("prompt"@, Json::Str(p))));
            },
        }
        match v.response_format {
            Option::None => {
                assert(withrf =~= withp);
            },
            Option::Some(f) => {
                assert(withrf =~= withp.push(("response_format"@, Json::Str(f))));
            },
        }
        match v.language {
            Option::None => {
                assert(fs =~= withrf);
            },
            Option::Some(l) => {
                assert(fs =~= withrf.push(("language"@, Json::Str(l))));
            },
        }
    }
}

/// Reading a transcription request back out of its own JSON body gives
/// the request: the body keeps every set field, and unset members are
/// left out rather than written as null.
pub proof fn lemma_audio_transcriptions_round_trip(v: AudioTranscriptionsView)
    ensures
        audio_transcriptions_of_json(audio_transcriptions_json(v)) == Some(v),
{
    reveal_strlit("file");
    reveal_strlit("model");
    reveal_strlit("prompt");
    reveal_strlit("response_format");
    reveal_strlit("language");
    let j = audio_transcriptions_json(v);
    let base = seq![("file"@, Json::Str(v.file)), ("model"@, Json::Str(v.model))];
    let p = opt_str_member("prompt"@, v.prompt);
    let rf = opt_str_member("response_format"@, v.response_format);
    let l = opt_str_member("language"@, v.language);
    let fs = j->Obj_0;
    assert("file"@.len() == 4 && "model"@.len() == 5 && "prompt"@.len() == 6
        && "response_format"@.len() == 15 && "language"@.len() == 8);
    assert(base.drop_first() =~= seq![("model"@, Json::Str(v.model))]);
    assert(base.drop_first().drop_first() =~= Seq::<(Seq<char>, Json)>::empty());
    assert(lookup_field(base, "file"@) == Some(Json::Str(v.file)));
    assert(lookup_field(base.drop_first(), "model"@) == Some(Json::Str(v.model)));
    assert(lookup_field(base, "model"@) == Some(Json::Str(v.model)));
    assert(lookup_field(base.drop_first().drop_first(), "prompt"@) is None);
    assert(lookup_field(base.drop_first(), "prompt"@) is None);
    assert(lookup_field(base, "prompt"@) is None);
    assert(lookup_field(base.drop_first().drop_first(), "response_format"@) is None);
    assert(lookup_field(base.drop_first(), "response_format"@) is None);
    assert(lookup_field(base, "response_format"@) is None);
    assert(lookup_field(base.drop_first().drop_first(), "language"@) is None);
    assert(lookup_field(base.drop_first(), "language"@) is None);
    assert(lookup_field(base, "language"@) is None);
    crate::json::lemma_lookup_opt_member("prompt"@, v.prompt, "file"@);
    crate::json::lemma_lookup_opt_member("prompt"@, v.prompt, "model"@);
    crate::json::lemma_lookup_opt_member("prompt"@, v.prompt, "prompt"@);
    crate::json::lemma_lookup_opt_member("prompt"@, v.prompt, "response_format"@);
    crate::json::lemma_lookup_opt_member("prompt"@, v.prompt, "language"@);
    crate::json::lemma_lookup_opt_member("response_format"@, v.response_format, "file"@);
    crate::json::lemma_lookup_opt_member("response_format"@, v.response_format, "model"@);
    crate::json::lemma_lookup_opt_member("response_format"@, v.response_format, "prompt"@);
    crate::json::lemma_lookup_opt_member(
        "response_format"@,
        v.response_format,
        "response_format"@,
    );
    crate::json::lemma_lookup_opt_member("response_format"@, v.response_format, "language"@);
    crate::json::lemma_lookup_opt_member("language"@, v.language, "file"@);
    crate::json::lemma_lookup_opt_member("language"@, v.language, "model"@);
    crate::json::lemma_lookup_opt_member("language"@, v.language, "prompt"@);
    crate::json::lemma_lookup_opt_member("language"@, v.language, "response_format"@);
    crate::json::lemma_lookup_opt_member("language"@, v.language, "language"@);
    crate::json::lemma_lookup_concat(base, p, "file"@);
    crate::json::lemma_lookup_concat(base, p, "model"@);
    crate::json::lemma_lookup_concat(base, p, "prompt"@);
    crate::json::lemma_lookup_concat(base, p, "response_format"@);
    crate::json::lemma_lookup_concat(base, p, "language"@);
    crate::json::lemma_lookup_concat(base + p, rf, "file"@);
    crate::json::lemma_lookup_concat(base + p, rf, "model"@);
    crate::json::lemma_lookup_concat(base + p, rf, "prompt"@);
    crate::json::lemma_lookup_concat(base + p, rf, "response_format"@);
    crate::json::lemma_lookup_concat(base + p, rf, "language"@);
    crate::json::lemma_lookup_concat(base + p + rf, l, "file"@);
    crate::json::lemma_lookup_concat(base + p + rf, l, "model"@);
    crate::json::lemma_lookup_concat(base + p + rf, l, "prompt"@);
    crate::json::lemma_lookup_concat(base + p + rf, l, "response_format"@);
    crate::json::lemma_lookup_concat(base + p + rf, l, "language"@);
    assert(audio_transcriptions_of_json(j) matches Some(w) && w == v);
}

/// A transcription request always has a form: its file member holds the
/// path as a string, and every other member it writes is a string too.
pub proof fn lemma_audio_transcriptions_form_owed(v: AudioTranscriptionsView)
    ensures
        crate::form::form_of(audio_transcriptions_json(v), seq!["file"@]) is Some,
{
    lemma_audio_transcriptions_members_strs(v);
    crate::form::lemma_form_parts_total(audio_transcriptions_json(v)->Obj_0, seq!["file"@]);
}

/// The JSON body of a transcription request holds no null member anywhere:
/// trimming it changes nothing, because unset members were never written.
pub proof fn lemma_audio_transcriptions_json_trimmed(v: AudioTranscriptionsView)
    ensures
        crate::json::null_free(audio_transcriptions_json(v)),
        crate::json::trim_spec(audio_transcriptions_json(v)) == audio_transcriptions_json(v),
{
    lemma_audio_transcriptions_members_strs(v);
    crate::json::lemma_null_free_fields_strs(audio_transcriptions_json(v)->Obj_0);
    crate::json::lemma_trim_identity_on_null_free(audio_transcriptions_json(v));
}

/// The body that the audio-translation endpoint answered with.
pub struct ChatGptResponseAudioTranslations {
    value: JsonValue,
}

impl View for ChatGptResponseAudioTranslations {
    type V = Json;

    closed spec fn view(&self) -> Json {
        self.value@
    }
}

impl ChatGptResponseAudioTranslations {
    /// Wraps a parsed response body.
    pub fn new(value: JsonValue) -> (r: Self)
        ensures
            r@ == value@,
    {
        Self { value }
    }

    /// The wrapped body.
    pub fn to_value(&self) -> (r: &JsonValue)
        ensures
            r@ == self@,
    {
        &self.value
    }
}

/// A translation request: the audio file to translate into English, the
/// model, and optional guidance.
pub struct ChatGptRequestAudioTranslations {
    pub file: String,
    pub model: String,
    pub prompt: Option<String>,
    pub response_format: Option<String>,
}

/// The model of a translation request.
pub struct AudioTranslationsView {
    pub file: Seq<char>,
    pub model: Seq<char>,
    pub prompt: Option<Seq<char>>,
    pub response_format: Option<Seq<char>>,
}

impl View for ChatGptRequestAudioTranslations {
    type V = AudioTranslationsView;

    open spec fn view(&self) -> AudioTranslationsView {
        AudioTranslationsView {
            file: self.file@,
            model: self.model@,
            prompt: self.prompt.deep_view(),
            response_format: self.response_format.deep_view(),
        }
    }
}

/// The JSON body of a translation request: file and model always, each
/// optional member only where it is set.
pub open spec fn audio_translations_json(v: AudioTranslationsView) -> Json {
    Json::Obj(
        seq![("file"@, Json::Str(v.file)), ("model"@, Json::Str(v.model))] + opt_str_member(
            "prompt"@,
            v.prompt,
        ) + opt_str_member("response_format"@, v.response_format),
    )
}

/// The translation request that a JSON document describes: None where the
/// document is not an object, where `file` or `model` is missing or not a
/// string, or where an optional member is present but not a string.
/// Members with other names are passed over.
pub open spec fn audio_translations_of_json(j: Json) -> Option<AudioTranslationsView> {
    match (obj_get(j, "file"@), obj_get(j, "model"@)) {
        (Option::Some(Json::Str(f)), Option::Some(Json::Str(m))) => {
            match (
                opt_str_of(obj_get(j, "prompt"@)),
                opt_str_of(obj_get(j, "response_format"@)),
            ) {
                (Option::Some(p), Option::Some(rf)) => Some(
                    AudioTranslationsView { file: f, model: m, prompt: p, response_format: rf },
                ),
                _ => None,
            }
        },
        _ => None,
    }
}

/// Every member a translation request writes holds a string.
proof fn lemma_audio_translations_members_strs(v: AudioTranslationsView)
    ensures
        forall|i: int|
            0 <= i < (audio_translations_json(v)->Obj_0).len() ==> (#[trigger] (
            audio_translations_json(v)->Obj_0)[i]).1 is Str,
{
    let fs = audio_translations_json(v)->Obj_0;
    let base = seq![("file"@, Json::Str(v.file)), ("model"@, Json::Str(v.model))];
    assert forall|i: int| 0 <= i < fs.len() implies (#[trigger] fs[i]).1 is Str by {
        let withp = base + opt_str_member("prompt"@, v.prompt);
        match v.prompt {
            Option::None => {
                assert(withp =~= base);
            },
            Option::Some(p) => {
                assert(withp =~= base.push(("prompt"@, Json::Str(p))));
            },
        }
        match v.response_format {
            Option::None => {
                assert(fs =~= withp);
            },
            Option::Some(f) => {
                assert(fs =~= withp.push(("response_format"@, Json::Str(f))));
            },
        }
    }
}

/// Reading a translation request back out of its own JSON body gives the
/// request: the body keeps every set field, and unset members are left
/// out rather than written as null.
pub proof fn lemma_audio_translations_round_trip(v: AudioTranslationsView)
    ensures
        audio_translations_of_json(audio_translations_json(v)) == Some(v),
{
    reveal_strlit("file");
    reveal_strlit("model");
    reveal_strlit("prompt");
    reveal_strlit("response_format");
    let j = audio_translations_json(v);
    let base = seq![("file"@, Json::Str(v.file)), ("model"@, Json::Str(v.model))];
    let p = opt_str_member("prompt"@, v.prompt);
    let rf = opt_str_member("response_format"@, v.response_format);
    let fs = j->Obj_0;
    assert("file"@.len() == 4 && "model"@.len() == 5 && "prompt"@.len() == 6
        && "response_format"@.len() == 15);
    assert(base.drop_first() =~= seq![("model"@, Json::Str(v.model))]);
    assert(base.drop_first().drop_first() =~= Seq::<(Seq<char>, Json)>::empty());
    assert(lookup_field(base, "file"@) == Some(Json::Str(v.file)));
    assert(lookup_field(base.drop_first(), "model"@) == Some(Json::Str(v.model)));
    assert(lookup_field(base, "model"@) == Some(Json::Str(v.model)));
    assert(lookup_field(base.drop_first().drop_first(), "prompt"@) is None);
    assert(lookup_field(base.drop_first(), "prompt"@) is None);
    assert(lookup_field(base, "prompt"@) is None);
    assert(lookup_field(base.drop_first().drop_first(), "response_format"@) is None);
    assert(lookup_field(base.drop_first(), "response_format"@) is None);
    assert(lookup_field(base, "response_format"@) is None);
    crate::json::lemma_lookup_opt_member("prompt"@, v.prompt, "file"@);
    crate::json::lemma_lookup_opt_member("prompt"@, v.prompt, "model"@);
    crate::json::lemma_lookup_opt_member("prompt"@, v.prompt, "prompt"@);
    crate::json::lemma_lookup_opt_member("prompt"@, v.prompt, "response_format"@);
    crate::json::lemma_lookup_opt_member("response_format"@, v.response_format, "file"@);
    crate::json::lemma_lookup_opt_member("response_format"@, v.response_format, "model"@);
    crate::json::lemma_lookup_opt_member("response_format"@, v.response_format, "prompt"@);
    crate::json::lemma_lookup_opt_member(
        "response_format"@,
        v.response_format,
        "response_format"@,
    );
    crate::json::lemma_lookup_concat(base, p, "file"@);
    crate::json::lemma_lookup_concat(base, p, "model"@);
    crate::json::lemma_lookup_concat(base, p, "prompt"@);
    crate::json::lemma_lookup_concat(base, p, "response_format"@);
    crate::json::lemma_lookup_concat(base + p, rf, "file"@);
    crate::json::lemma_lookup_concat(base + p, rf, "model"@);
    crate::json::lemma_lookup_concat(base + p, rf, "prompt"@);
    crate::json::lemma_lookup_concat(base + p, rf, "response_format"@);
    assert(audio_translations_of_json(j) matches Some(w) && w == v);
}

/// A translation request always has a form: its file member holds the
/// path as a string, and every other member it writes is a string too.
pub proof fn lemma_audio_translations_form_owed(v: AudioTranslationsView)
    ensures
        crate::form::form_of(audio_translations_json(v), seq!["file"@]) is Some,
{
    lemma_audio_translations_members_strs(v);
    crate::form::lemma_form_parts_total(audio_translations_json(v)->Obj_0, seq!["file"@]);
}

/// The JSON body of a translation request holds no null member anywhere:
/// trimming it changes nothing, because unset members were never written.
pub proof fn lemma_audio_translations_json_trimmed(v: AudioTranslationsView)
    ensures
        crate::json::null_free(audio_translations_json(v)),
        crate::json::trim_spec(audio_translations_json(v)) == audio_translations_json(v),
{
    lemma_audio_translations_members_strs(v);
    crate::json::lemma_null_free_fields_strs(audio_translations_json(v)->Obj_0);
    crate::json::lemma_trim_identity_on_null_free(audio_translations_json(v));
}

impl ChatGptRequestAudioTranslations {
    /// A request for one audio file, with no guidance set.
    pub fn new(model: &str, file: &str) -> (r: Self)
        ensures
            r.model@ == model@,
            r.file@ == file@,
            r.prompt is None,
            r.response_format is None,
    {
        Self {
            file: file.to_owned(),
            model: model.to_owned(),
            prompt: None,
            response_format: None,
        }
    }

    /// The JSON body of the request, unset members omitted.
    pub fn to_value(&self) -> (r: JsonValue)
        ensures
            r@ == audio_translations_json(self@),
    {
        let mut fields: Vec<(String, JsonValue)> = Vec::new();
        fields.push(("file".to_owned(), JsonValue::Str(self.file.clone())));
        fields.push(("model".to_owned(), JsonValue::Str(self.model.clone())));
        match &self.prompt {
            Option::Some(s) => {
                fields.push(("prompt".to_owned(), JsonValue::Str(s.clone())));
            },
            Option::None => {},
        }
        match &self.response_format {
            Option::Some(s) => {
                fields.push(("response_format".to_owned(), JsonValue::Str(s.clone())));
            },
            Option::None => {},
        }
        let r = JsonValue::Obj(fields);
        proof {
            lemma_fields_view_index(fields@);
            assert(r@ matches Json::Obj(fs) && fs =~= audio_translations_json(self@)->Obj_0);
        }
        r
    }

    /// The request that a JSON document describes, the document handed back
    /// inside the error where it does not describe one.
    pub fn from_value(value: JsonValue) -> (r: Result<Self, ChatGptError>)
        ensures
            match r {
                Ok(req) => audio_translations_of_json(value@) == Some(req@),
                Err(e) => {
                    &&& audio_translations_of_json(value@) is None
                    &&& e matches ChatGptError::JsonParse(bad) && bad@ == value@
                },
            },
    {
        let file: String = match value.get("file") {
            Option::Some(JsonValue::Str(f)) => f.clone(),
            _ => {
                return Err(ChatGptError::JsonParse(value.clone()));
            },
        };
        let model: String = match value.get("model") {
            Option::Some(JsonValue::Str(m)) => m.clone(),
            _ => {
                return Err(ChatGptError::JsonParse(value.clone()));
            },
        };
        let prompt: Option<String> = match value.get("prompt") {
            Option::None => None,
            Option::Some(JsonValue::Str(p)) => Some(p.clone()),
            Option::Some(_) => {
                return Err(ChatGptError::JsonParse(value.clone()));
            },
        };
        let response_format: Option<String> = match value.get("response_format") {
            Option::None => None,
            Option::Some(JsonValue::Str(f)) => Some(f.clone()),
            Option::Some(_) => {
                return Err(ChatGptError::JsonParse(value.clone()));
            },
        };
        Ok(Self { file, model, prompt, response_format })
    }
}

} // verus!
