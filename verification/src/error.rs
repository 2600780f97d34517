use vstd::prelude::*;
use vstd::string::StringExecFns;
use crate::json::JsonValue;
use crate::json::json_text;
use crate::text::dec_str;
use crate::text::u64_to_string;

verus! {

/// What can go wrong when calling the remote API: the transport failed, the
/// server answered with a non-success status, or a body did not have the
/// JSON shape that was expected.
#[derive(Clone, Debug)]
pub enum ChatGptError {
    Connection(String),
    Status(u16, String),
    JsonParse(JsonValue),
}

/// The text that `message` returns for each error.
pub open spec fn error_message(e: ChatGptError) -> Seq<char> {
    match e {
        ChatGptError::Connection(s) => s@,
        ChatGptError::Status(code, body) => "status: "@ + dec_str(code as nat) + " ,message:"@
            + body@,
        ChatGptError::JsonParse(v) => json_text(v@),
    }
}

impl ChatGptError {
    /// The error as one line of text, as it is shown to a caller.
    pub fn message(&self) -> (r: String)
        ensures
            r@ == error_message(*self),
    {
        match self {
            ChatGptError::Connection(s) => s.clone(),
            ChatGptError::Status(code, body) => {
                let mut r = "status: ".to_owned();
                let n = u64_to_string(*code as u64);
                r.append(n.as_str());
                r.append(" ,message:");
                r.append(body.as_str());
                proof {
                    assert(r@ =~= error_message(*self));
                }
                r
            },
            ChatGptError::JsonParse(v) => v.to_json_text(),
        }
    }
}

} // verus!
