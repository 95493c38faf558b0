//! The request and response shapes of the OpenAI chat-completion API.
//! The transport itself (credentials, HTTP, JSON encoding) lives with
//! the driver; the library owns the values and what is read out of
//! them.

use vstd::prelude::*;

verus! {

/// The role a message is sent under.
#[derive(Debug, Clone, Copy, PartialEq, Eq, Structural)]
pub enum Role {
    User,
    System,
}

/// One message of a chat-completion request.
#[derive(Debug, Clone)]
pub struct Message {
    pub role: Role,
    pub content: String,
}

/// The model asked for. [`Self::api_name`] is the identifier the API
/// expects on the wire.
#[derive(Debug, Clone, Copy, PartialEq, Eq, Structural)]
pub enum Model {
    GPT_5_2,
    GPT_5_2_Pro,
    GPT_5,
    GPT_5_Mini,
    GPT_5_Nano,
}

impl Model {
    /// The wire name of the model.
    pub fn api_name(&self) -> (s: &'static str)
        ensures
            (*self is GPT_5_2) ==> s@ == "gpt-5.2"@,
            (*self is GPT_5_2_Pro) ==> s@ == "gpt-5.2-pro"@,
            (*self is GPT_5) ==> s@ == "gpt-5"@,
            (*self is GPT_5_Mini) ==> s@ == "gpt-5-mini"@,
            (*self is GPT_5_Nano) ==> s@ == "gpt-5-nano"@,
    {
        match self {
            Model::GPT_5_2 => "gpt-5.2",
            Model::GPT_5_2_Pro => "gpt-5.2-pro",
            Model::GPT_5 => "gpt-5",
            Model::GPT_5_Mini => "gpt-5-mini",
            Model::GPT_5_Nano => "gpt-5-nano",
        }
    }
}

/// The message inside one answer choice.
#[derive(Debug, Clone)]
pub struct APIMessage {
    pub content: String,
}

/// One answer choice of a chat completion.
#[derive(Debug, Clone)]
pub struct APIChoice {
    pub message: APIMessage,
}

/// A decoded chat-completion response.
#[derive(Debug, Clone)]
pub struct APIResponse {
    pub choices: Vec<APIChoice>,
}

impl APIResponse {
    /// The text of the first answer choice, if the oracle answered at
    /// all.
    pub fn first_choice_content(&self) -> (r: Option<String>)
        ensures
            self.choices@.len() == 0 ==> r is None,
            self.choices@.len() > 0 ==> r == Some(self.choices@[0].message.content),
    {
        if self.choices.len() == 0 {
            None
        } else {
            Some(self.choices[0].message.content.clone())
        }
    }
}

} // verus!
