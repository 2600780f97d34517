use vstd::prelude::*;
use crate::json::Json;
use crate::json::JsonValue;
use crate::json::lemma_fields_view_index;
use crate::json::lemma_vals_view_push;
use crate::json::vals_view;

verus! {

/// One chat message: who speaks, and what is said.
pub struct ChatGptChatFormat {
    pub role: String,
    pub content: String,
}

/// The model of a chat message.
pub struct ChatFormatView {
    pub role: Seq<char>,
    pub content: Seq<char>,
}

impl View for ChatGptChatFormat {
    type V = ChatFormatView;

    open spec fn view(&self) -> ChatFormatView {
        ChatFormatView { role: self.role@, content: self.content@ }
    }
}

impl DeepView for ChatGptChatFormat {
    type V = ChatFormatView;

    open spec fn deep_view(&self) -> ChatFormatView {
        self.view()
    }
}

/// The JSON object for one chat message.
pub open spec fn chat_msg_json(v: ChatFormatView) -> Json {
    Json::Obj(seq![("role"@, Json::Str(v.role)), ("content"@, Json::Str(v.content))])
}

impl ChatGptChatFormat {
    /// A message spoken in the given role.
    pub fn new(role: &str, content: &str) -> (r: Self)
        ensures
            r.role@ == role@,
            r.content@ == content@,
    {
        Self { role: role.to_owned(), content: content.to_owned() }
    }

    /// A system message.
    pub fn new_system(content: &str) -> (r: Self)
        ensures
            r.role@ == "system"@,
            r.content@ == content@,
    {
        Self::new("system", content)
    }

    /// A user message.
    pub fn new_user(content: &str) -> (r: Self)
        ensures
            r.role@ == "user"@,
            r.content@ == content@,
    {
        Self::new("user", content)
    }

    /// The JSON object of the message.
    pub fn to_value(&self) -> (r: JsonValue)
        ensures
            r@ == chat_msg_json(self@),
    {
        let mut fields: Vec<(String, JsonValue)> = Vec::new();
        fields.push(("role".to_owned(), JsonValue::Str(self.role.clone())));
        fields.push(("content".to_owned(), JsonValue::Str(self.content.clone())));
        let r = JsonValue::Obj(fields);
        proof {
            lemma_fields_view_index(fields@);
            assert(r@ matches Json::Obj(fs) && fs =~= chat_msg_json(self@)->Obj_0);
        }
        r
    }
}

/// A chat-completion request: the model and the conversation so far.
pub struct ChatGptRequestChatCompletions {
    pub model: String,
    pub messages: Vec<ChatGptChatFormat>,
}

/// The model of a chat-completion request.
pub struct ChatCompletionsView {
    pub model: Seq<char>,
    pub messages: Seq<ChatFormatView>,
}

impl View for ChatGptRequestChatCompletions {
    type V = ChatCompletionsView;

    open spec fn view(&self) -> ChatCompletionsView {
        ChatCompletionsView { model: self.model@, messages: self.messages.deep_view() }
    }
}

/// The JSON body of a chat-completion request.
pub open spec fn chat_json(v: ChatCompletionsView) -> Json {
    Json::Obj(
        seq![
            ("model"@, Json::Str(v.model)),
            (
                "messages"@,
                Json::Arr(Seq::new(v.messages.len(), |i: int| chat_msg_json(v.messages[i]))),
            ),
        ],
    )
}

impl ChatGptRequestChatCompletions {
    /// A request carrying the given conversation.
    pub fn new(model: &str, messages: Vec<ChatGptChatFormat>) -> (r: Self)
        ensures
            r.model@ == model@,
            r.messages == messages,
    {
        Self { model: model.to_owned(), messages }
    }

    /// The JSON body of the request.
    pub fn to_value(&self) -> (r: JsonValue)
        ensures
            r@ == chat_json(self@),
    {
        let mut fields: Vec<(String, JsonValue)> = Vec::new();
        fields.push(("model".to_owned(), JsonValue::Str(self.model.clone())));
        let mut items: Vec<JsonValue> = Vec::new();
        let mut i: usize = 0;
        while i < self.messages.len()
            invariant
                i <= self.messages.len(),
                vals_view(items@) =~= Seq::new(
                    i as nat,
                    |k: int| chat_msg_json(self.messages.deep_view()[k]),
                ),
            decreases self.messages.len() - i,
        {
            let m = self.messages[i].to_value();
            proof {
                lemma_vals_view_push(items@, m);
                assert(vals_view(items@.push(m)) =~= Seq::new(
                    (i + 1) as nat,
                    |k: int| chat_msg_json(self.messages.deep_view()[k]),
                ));
            }
            items.push(m);
            i = i + 1;
        }
        fields.push(("messages".to_owned(), JsonValue::Arr(items)));
        let r = JsonValue::Obj(fields);
        proof {
            lemma_fields_view_index(fields@);
            assert(r@ matches Json::Obj(fs) && fs =~= chat_json(self@)->Obj_0);
        }
        r
    }
}

/// The body that the chat-completion endpoint answered with.
pub struct ChatGptResponseChatCompletions {
    value: JsonValue,
}

impl View for ChatGptResponseChatCompletions {
    type V = Json;

    closed spec fn view(&self) -> Json {
        self.value@
    }
}

impl ChatGptResponseChatCompletions {
    /// Wraps a parsed response body.
    pub fn new(value: JsonValue) -> (r: Self)
        ensures
            r@ == value@,
    {
        Self { value }
    }

    /// The wrapped body.
    pub fn to_value(&self) -> (r: &JsonValue)
        ensures
            r@ == self@,
    {
        &self.value
    }
}

} // verus!
