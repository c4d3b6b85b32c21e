//! The error taxonomy of the runtime, with the HTTP status and the message
//! that each kind surfaces as.

use vstd::prelude::*;
use vstd::string::StringExecFns;
use crate::text::{concat2, concat3, concat5};

verus! {

/// Everything that can go wrong between a request and its answer.
#[derive(Debug, PartialEq)]
pub enum AppError {
    /// No alias of that name is registered.
    AliasNotFound(String),
    /// An alias of that name is registered already.
    AliasExists(String),
    /// A model alias of that name is registered already, and `create` was
    /// not told to overwrite it.
    ModelAliasExists(String),
    /// A model or tokenizer file is absent from the hub cache.
    FileMissing { filename: String, dirname: String },
    /// The tokenizer configuration offers no usable chat template.
    TemplateMissing,
    /// The template engine rejected the template or failed while rendering.
    TemplateRender(String),
    /// A message holds content that cannot be flattened to text.
    UnsupportedContent,
    /// A message has a role that the renderer does not take.
    UnsupportedRole,
    /// A completion was asked for while no engine is live.
    EngineNotLoaded,
    /// The native engine failed to initialise.
    EngineInit(String),
    /// The native engine failed during a completion.
    EngineCompletion(String),
    /// The native engine failed to stop.
    EngineStop(String),
    /// The request is malformed or out of range.
    BadRequest(String),
    /// A command was asked to act as another one.
    ConvertCommand(String, String),
    /// A chunk that should have been JSON was not.
    Json { source: String, value: String },
    /// Anything else.
    InternalServer(String),
}

/// The HTTP status under which an error surfaces.
pub open spec fn status_of(e: AppError) -> u16 {
    match e {
        AppError::AliasNotFound(_) => 404,
        AppError::AliasExists(_) => 409,
        AppError::ModelAliasExists(_) => 409,
        AppError::FileMissing { .. } => 404,
        AppError::TemplateMissing => 400,
        AppError::TemplateRender(_) => 400,
        AppError::UnsupportedContent => 400,
        AppError::UnsupportedRole => 400,
        AppError::EngineNotLoaded => 503,
        AppError::EngineInit(_) => 500,
        AppError::EngineCompletion(_) => 500,
        AppError::EngineStop(_) => 500,
        AppError::BadRequest(_) => 400,
        AppError::ConvertCommand(_, _) => 400,
        AppError::Json { .. } => 500,
        AppError::InternalServer(_) => 500,
    }
}

/// The `type` field of the OpenAI-shaped error body.
pub open spec fn type_of(e: AppError) -> Seq<char> {
    let status = status_of(e);
    if status == 404 {
        "not_found_error"@
    } else if status == 409 {
        "conflict_error"@
    } else if status == 400 {
        "invalid_request_error"@
    } else if status == 503 {
        "service_unavailable_error"@
    } else {
        "internal_server_error"@
    }
}

/// The character of a hexadecimal digit, in lower case.
pub open spec fn hex_digit(d: nat) -> char {
    if d < 10 {
        ((48 + d) as u8) as char
    } else {
        ((87 + d) as u8) as char
    }
}

/// What a character is written as inside a JSON string: the quote and the
/// backslash behind a backslash; a control character below `0x20` by its
/// letter where it has one, else as `\u00` and two hexadecimal digits;
/// every other character as it is.
pub open spec fn json_escaped_char(c: char) -> Seq<char> {
    let n = c as u32;
    if c == '"' {
        seq!['\\', '"']
    } else if c == '\\' {
        seq!['\\', '\\']
    } else if n == 0x08 {
        seq!['\\', 'b']
    } else if n == 0x09 {
        seq!['\\', 't']
    } else if n == 0x0a {
        seq!['\\', 'n']
    } else if n == 0x0c {
        seq!['\\', 'f']
    } else if n == 0x0d {
        seq!['\\', 'r']
    } else if n < 0x20 {
        seq!['\\', 'u', '0', '0', hex_digit((n / 16) as nat), hex_digit((n % 16) as nat)]
    } else {
        seq![c]
    }
}

/// The characters of a text as they are written inside a JSON string.
pub open spec fn json_escaped(text: Seq<char>) -> Seq<char>
    decreases text.len(),
{
    if text.len() == 0 {
        Seq::empty()
    } else {
        json_escaped(text.drop_last()) + json_escaped_char(text.last())
    }
}

/// The JSON string for a text: the escaped text between double quotes.
pub open spec fn json_quoted(text: Seq<char>) -> Seq<char> {
    seq!['"'] + json_escaped(text) + seq!['"']
}

/// Is the character written as it is inside a JSON string?
pub open spec fn is_plain(c: char) -> bool {
    c != '"' && c != '\\' && c as u32 >= 0x20
}

/// A text without quotes, backslashes and control characters is written
/// as it is, between the quotes.
pub proof fn lemma_plain_text_is_quoted_as_it_is(text: Seq<char>)
    requires
        forall|i: int| 0 <= i < text.len() ==> is_plain(#[trigger] text[i]),
    ensures
        json_escaped(text) == text,
        json_quoted(text) == seq!['"'] + text + seq!['"'],
    decreases text.len(),
{
    if text.len() > 0 {
        assert forall|i: int| 0 <= i < text.drop_last().len() implies is_plain(
            #[trigger] text.drop_last()[i],
        ) by {
            assert(text.drop_last()[i] == text[i]);
        }
        lemma_plain_text_is_quoted_as_it_is(text.drop_last());
        assert(is_plain(text[text.len() - 1]));
        assert(text.drop_last() + seq![text.last()] =~= text);
    }
}

/// `serde_json::Value::String`, written out by its `Display`: the JSON
/// string literal for `text`.
///
/// Trusted: the serialiser puts the text between double quotes and
/// escapes the quote, the backslash and the control characters below
/// `0x20`, as [`json_quoted`] states.
#[verifier::external_body]
pub(crate) fn json_string(text: &str) -> (literal: String)
    ensures
        literal@ == json_quoted(text@),
{
    serde_json::Value::String(text.to_string()).to_string()
}

/// The OpenAI-shaped body of an error: its message and its type under
/// `error`.
pub open spec fn body_of(e: AppError) -> Seq<char> {
    "{\"error\":{\"message\":"@ + json_quoted(message_of(e)) + ",\"type\":"@ + json_quoted(
        type_of(e),
    ) + "}}"@
}

/// The message that an error surfaces with.
pub open spec fn message_of(e: AppError) -> Seq<char> {
    match e {
        AppError::AliasNotFound(alias) => "alias '"@ + alias@ + "' not found"@,
        AppError::AliasExists(alias) => "alias '"@ + alias@
            + "' already exists. Use --force to overwrite the alias config"@,
        AppError::ModelAliasExists(alias) => "model alias '"@ + alias@
            + "' already exists. Use --force to overwrite the model alias config"@,
        AppError::FileMissing { filename, dirname } => "file '"@ + filename@
            + "' not found in $HF_HOME"@ + dirname@
            + ".\nCheck Huggingface Home is set correctly using environment variable $HF_HOME or using command-line or settings file."@,
        AppError::TemplateMissing => "chat_template not found in tokenizer_config.json"@,
        AppError::TemplateRender(detail) => detail@,
        AppError::UnsupportedContent => "image content is not supported in chat messages"@,
        AppError::UnsupportedRole => "tool and function messages are not supported"@,
        AppError::EngineNotLoaded => "model is not loaded"@,
        AppError::EngineInit(detail) => "engine failed to initialize: "@ + detail@,
        AppError::EngineCompletion(detail) => "engine failed during completion: "@ + detail@,
        AppError::EngineStop(detail) => "engine failed to stop: "@ + detail@,
        AppError::BadRequest(detail) => detail@,
        AppError::ConvertCommand(from, to) => "Command '"@ + from@
            + "' cannot be converted into command '"@ + to@ + "'"@,
        AppError::Json { source, value } => source@ + ", value: "@ + value@,
        AppError::InternalServer(detail) => detail@,
    }
}

impl AppError {
    /// The HTTP status under which this error surfaces.
    pub fn status(&self) -> (code: u16)
        ensures
            code == status_of(*self),
            400 <= code < 600,
    {
        match self {
            AppError::AliasNotFound(_) => 404,
            AppError::AliasExists(_) => 409,
            AppError::ModelAliasExists(_) => 409,
            AppError::FileMissing { .. } => 404,
            AppError::TemplateMissing => 400,
            AppError::TemplateRender(_) => 400,
            AppError::UnsupportedContent => 400,
            AppError::UnsupportedRole => 400,
            AppError::EngineNotLoaded => 503,
            AppError::EngineInit(_) => 500,
            AppError::EngineCompletion(_) => 500,
            AppError::EngineStop(_) => 500,
            AppError::BadRequest(_) => 400,
            AppError::ConvertCommand(_, _) => 400,
            AppError::Json { .. } => 500,
            AppError::InternalServer(_) => 500,
        }
    }

    /// The `type` field of the OpenAI-shaped error body.
    pub fn error_type(&self) -> (t: String)
        ensures
            t@ == type_of(*self),
    {
        let status = self.status();
        if status == 404 {
            String::from_str("not_found_error")
        } else if status == 409 {
            String::from_str("conflict_error")
        } else if status == 400 {
            String::from_str("invalid_request_error")
        } else if status == 503 {
            String::from_str("service_unavailable_error")
        } else {
            String::from_str("internal_server_error")
        }
    }

    /// The OpenAI-shaped body of this error.
    pub fn body(&self) -> (b: String)
        ensures
            b@ == body_of(*self),
    {
        let message = json_string(self.to_string().as_str());
        let kind = json_string(self.error_type().as_str());
        concat5("{\"error\":{\"message\":", message.as_str(), ",\"type\":", kind.as_str(), "}}")
    }

    /// The message that this error surfaces with.
    pub fn to_string(&self) -> (m: String)
        ensures
            m@ == message_of(*self),
    {
        match self {
            AppError::AliasNotFound(alias) => concat3("alias '", alias.as_str(), "' not found"),
            AppError::AliasExists(alias) => concat3(
                "alias '",
                alias.as_str(),
                "' already exists. Use --force to overwrite the alias config",
            ),
            AppError::ModelAliasExists(alias) => concat3(
                "model alias '",
                alias.as_str(),
                "' already exists. Use --force to overwrite the model alias config",
            ),
            AppError::FileMissing { filename, dirname } => concat5(
                "file '",
                filename.as_str(),
                "' not found in $HF_HOME",
                dirname.as_str(),
                ".\nCheck Huggingface Home is set correctly using environment variable $HF_HOME or using command-line or settings file.",
            ),
            AppError::TemplateMissing => String::from_str(
                "chat_template not found in tokenizer_config.json",
            ),
            AppError::TemplateRender(detail) => detail.clone(),
            AppError::UnsupportedContent => String::from_str(
                "image content is not supported in chat messages",
            ),
            AppError::UnsupportedRole => String::from_str(
                "tool and function messages are not supported",
            ),
            AppError::EngineNotLoaded => String::from_str("model is not loaded"),
            AppError::EngineInit(detail) => concat2("engine failed to initialize: ", detail.as_str()),
            AppError::EngineCompletion(detail) => concat2(
                "engine failed during completion: ",
                detail.as_str(),
            ),
            AppError::EngineStop(detail) => concat2("engine failed to stop: ", detail.as_str()),
            AppError::BadRequest(detail) => detail.clone(),
            AppError::ConvertCommand(from, to) => concat5(
                "Command '",
                from.as_str(),
                "' cannot be converted into command '",
                to.as_str(),
                "'",
            ),
            AppError::Json { source, value } => concat3(source.as_str(), ", value: ", value.as_str()),
            AppError::InternalServer(detail) => detail.clone(),
        }
    }
}

} // verus!
