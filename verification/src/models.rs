use vstd::prelude::*;
use crate::json::Json;
use crate::json::JsonValue;

verus! {

/// The body that the model-list endpoint answered with.
pub struct ChatGptResponseModelList {
    value: JsonValue,
}

impl View for ChatGptResponseModelList {
    type V = Json;

    closed spec fn view(&self) -> Json {
        self.value@
    }
}

impl ChatGptResponseModelList {
    /// Wraps a parsed response body.
    pub fn new(value: JsonValue) -> (r: Self)
        ensures
            r@ == value@,
    {
        Self { value }
    }

    /// The wrapped body.
    pub fn to_value(&self) -> (r: &JsonValue)
        ensures
            r@ == self@,
    {
        &self.value
    }
}

/// The body that the model-retrieve endpoint answered with.
pub struct ChatGptResponseModelRetrieve {
    value: JsonValue,
}

impl View for ChatGptResponseModelRetrieve {
    type V = Json;

    closed spec fn view(&self) -> Json {
        self.value@
    }
}

impl ChatGptResponseModelRetrieve {
    /// Wraps a parsed response body.
    pub fn new(value: JsonValue) -> (r: Self)
        ensures
            r@ == value@,
    {
        Self { value }
    }

    /// The wrapped body.
    pub fn to_value(&self) -> (r: &JsonValue)
        ensures
            r@ == self@,
    {
        &self.value
    }
}

} // verus!
