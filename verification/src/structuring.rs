//! The request sent to the structuring service, and what is made of its
//! reply.

use crate::failure::StructuringError;
use crate::json::parse_document;
use crate::json::json_document;
use vstd::prelude::*;

verus! {

/// The model that structures documents.
pub const OPENAI_MODEL: &'static str = "gpt-5-nano";

/// One message of a conversation.
pub struct Message {
    pub role: String,
    pub content: String,
}

pub struct MessageView {
    pub role: Seq<char>,
    pub content: Seq<char>,
}

impl View for Message {
    type V = MessageView;

    open spec fn view(&self) -> MessageView {
        MessageView { role: self.role@, content: self.content@ }
    }
}

/// A named JSON schema that the reply is asked to follow.
pub struct JsonSchemaDefinition {
    pub name: String,
    pub strict: bool,
    pub schema: serde_json::Value,
}

pub struct JsonSchemaDefinitionView {
    pub name: Seq<char>,
    pub strict: bool,
    pub schema: serde_json::Value,
}

impl View for JsonSchemaDefinition {
    type V = JsonSchemaDefinitionView;

    open spec fn view(&self) -> JsonSchemaDefinitionView {
        JsonSchemaDefinitionView { name: self.name@, strict: self.strict, schema: self.schema }
    }
}

/// The form in which the service is asked to reply: bound to a schema, or
/// free text.
pub enum ResponseFormat {
    JsonSchema { json_schema: JsonSchemaDefinition },
    Text,
}

pub enum ResponseFormatView {
    JsonSchema { json_schema: JsonSchemaDefinitionView },
    Text,
}

impl View for ResponseFormat {
    type V = ResponseFormatView;

    open spec fn view(&self) -> ResponseFormatView {
        match self {
            ResponseFormat::JsonSchema { json_schema } => ResponseFormatView::JsonSchema {
                json_schema: json_schema@,
            },
            ResponseFormat::Text => ResponseFormatView::Text,
        }
    }
}

/// A structuring request: the model, a system message and a user message,
/// and the form of the reply.
pub struct LLMRequest {
    pub model: String,
    pub messages: [Message; 2],
    pub response_format: ResponseFormat,
}

pub struct LLMRequestView {
    pub model: Seq<char>,
    pub system: MessageView,
    pub user: MessageView,
    pub response_format: ResponseFormatView,
}

impl View for LLMRequest {
    type V = LLMRequestView;

    open spec fn view(&self) -> LLMRequestView {
        LLMRequestView {
            model: self.model@,
            system: self.messages[0]@,
            user: self.messages[1]@,
            response_format: self.response_format@,
        }
    }
}

/// One candidate of a reply.
pub struct Choice {
    pub message: Message,
}

/// The reply of the structuring service.
pub struct ChatCompletionResponse {
    pub choices: Vec<Choice>,
}

impl ChatCompletionResponse {
    /// The content of each candidate message, in order.
    pub open spec fn contents(&self) -> Seq<Seq<char>> {
        self.choices@.map_values(|c: Choice| c.message.content@)
    }
}

/// The instruction given to the model with every document.
pub open spec fn system_prompt() -> Seq<char> {
    "You are a resume conversion assistant. Extract information from the user's resume text and format it into the given structure."@
}

/// The request that asks for `resume_text` to be structured after `schema`.
pub open spec fn structuring_request(
    resume_text: Seq<char>,
    schema: serde_json::Value,
) -> LLMRequestView {
    LLMRequestView {
        model: OPENAI_MODEL@,
        system: MessageView { role: "system"@, content: system_prompt() },
        user: MessageView { role: "user"@, content: resume_text },
        response_format: ResponseFormatView::JsonSchema {
            json_schema: JsonSchemaDefinitionView {
                name: "resume_data_structuring"@,
                strict: false,
                schema,
            },
        },
    }
}

/// Builds the one request of a structuring round trip: the system prompt,
/// the document text as the user's message, and a reply bound, loosely, to
/// `schema`.
pub fn generate_structure_from_pdf(resume_text: &str, schema: serde_json::Value) -> (request:
    LLMRequest)
    ensures
        request@ == structuring_request(resume_text@, schema),
{
    let system = Message {
        role: "system".to_owned(),
        content: "You are a resume conversion assistant. Extract information from the user's resume text and format it into the given structure.".to_owned(),
    };
    let user = Message { role: "user".to_owned(), content: resume_text.to_owned() };
    LLMRequest {
        model: OPENAI_MODEL.to_owned(),
        messages: [system, user],
        response_format: ResponseFormat::JsonSchema {
            json_schema: JsonSchemaDefinition {
                name: "resume_data_structuring".to_owned(),
                strict: false,
                schema,
            },
        },
    }
}

/// What the first candidate of a reply yields. `first` is `None` for a reply
/// without candidates, and else what parsing the candidate's content gave:
/// the document, or nothing where the content is not valid JSON.
pub open spec fn chosen_document(first: Option<Option<serde_json::Value>>) -> Result<
    serde_json::Value,
    StructuringError,
> {
    match first {
        None => Err(StructuringError::NoCandidates),
        Some(None) => Err(StructuringError::InvalidJson),
        Some(Some(value)) => Ok(value),
    }
}

/// What a reply with candidate contents `contents` yields: the document of
/// the first candidate, or the reason there is none.
pub open spec fn structured_document(contents: Seq<Seq<char>>) -> Result<
    serde_json::Value,
    StructuringError,
> {
    chosen_document(
        if contents.len() == 0 {
            None
        } else {
            Some(json_document(contents[0]))
        },
    )
}

/// Decides what a reply yields from what parsing its first candidate gave.
/// `first` is `None` for a reply without candidates, and else the parsed
/// document or the parser's complaint.
pub fn choose_document(first: Option<Result<serde_json::Value, String>>) -> (r: Result<
    serde_json::Value,
    StructuringError,
>)
    ensures
        r == chosen_document(
            match first {
                None => None,
                Some(Ok(value)) => Some(Some(value)),
                Some(Err(_)) => Some(None),
            },
        ),
{
    match first {
        None => Err(StructuringError::NoCandidates),
        Some(Ok(value)) => Ok(value),
        Some(Err(_)) => Err(StructuringError::InvalidJson),
    }
}

/// Takes the structured document out of a reply: the first candidate's
/// content, parsed as JSON. A reply without candidates and a first candidate
/// that is not valid JSON are both failures; later candidates are not
/// consulted.
pub fn interpret_response(response: &ChatCompletionResponse) -> (r: Result<
    serde_json::Value,
    StructuringError,
>)
    ensures
        r == structured_document(response.contents()),
{
    if response.choices.len() == 0 {
        choose_document(None)
    } else {
        choose_document(Some(parse_document(response.choices[0].message.content.as_str())))
    }
}

} // verus!
