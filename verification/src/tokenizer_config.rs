//! The prompt renderer: chat messages, the tokenizer configuration, and the
//! evaluation of its chat template.

use minijinja::{Environment, Value};
use vstd::prelude::*;
use vstd::string::StringExecFns;
use crate::error::AppError;
use crate::text::{outcome_view, replace_all, replace_text};

verus! {

/// The error type of the template engine.
#[verifier::external_type_specification]
#[verifier::external_body]
pub struct ExTemplateError(minijinja::Error);

/// What the template engine returns for a template source, a context and the
/// name under which [`raise_exception`] is offered to the template: the
/// rendered text, or the engine's error message.
///
/// The context has three parts, each a list of named entries: texts (absent
/// ones are the engine's `none`), flags, and lists of records, a record being
/// a list of named texts.
pub uninterp spec fn jinja_render(
    source: Seq<char>,
    texts: Seq<(Seq<char>, Option<Seq<char>>)>,
    flags: Seq<(Seq<char>, bool)>,
    lists: Seq<(Seq<char>, Seq<Seq<(Seq<char>, Option<Seq<char>>)>>)>,
    raiser: Seq<char>,
) -> Result<Seq<char>, Seq<char>>;

/// The error that the template engine makes of the kind `SyntaxError` and
/// of a detail: the one that reads `syntax error: ` and then the detail.
pub uninterp spec fn syntax_error_of(detail: Seq<char>) -> minijinja::Error;

/// `minijinja::Error::new` with the kind `SyntaxError`: the error that a
/// template raises on purpose, carrying `detail`.
///
/// Trusted: the error is the engine's, a function of the detail alone.
#[verifier::external_body]
fn syntax_error(detail: String) -> (e: minijinja::Error)
    ensures
        e == syntax_error_of(detail@),
{
    minijinja::Error::new(minijinja::ErrorKind::SyntaxError, detail)
}

/// The function that templates call to reject a conversation: it always
/// fails, with the engine's syntax error that carries `err_text`.
pub fn raise_exception(err_text: String) -> (r: Result<String, minijinja::Error>)
    ensures
        r == Err::<String, minijinja::Error>(syntax_error_of(err_text@)),
{
    Err(syntax_error(err_text))
}

/// `minijinja::Environment::render_str` on a fresh environment in which
/// [`raise_exception`] is registered under the name `raiser`
/// (`Environment::add_function`), with a context made of the given entries
/// (`Value::from_iter`); an engine error is turned into its message.
///
/// Trusted: the outcome is the engine's, a function of these arguments alone.
#[verifier::external_body]
fn render_str(
    source: &str,
    texts: &Vec<(String, Option<String>)>,
    flags: &Vec<(String, bool)>,
    lists: &Vec<(String, Vec<Vec<(String, Option<String>)>>)>,
    raiser: &str,
) -> (r: Result<String, String>)
    ensures
        outcome_view(r) == jinja_render(
            source@,
            texts.deep_view(),
            flags.deep_view(),
            lists.deep_view(),
            raiser@,
        ),
{
    let mut env = Environment::new();
    env.add_function(raiser.to_string(), raise_exception);
    let texts = texts.iter().cloned().map(|(k, v)| (k, Value::from(v)));
    let flags = flags.iter().cloned().map(|(k, v)| (k, Value::from(v)));
    let lists = lists.iter().cloned().map(|(k, v)| (k, v.into_iter().map(Value::from_iter).collect()));
    let context: Value = texts.chain(flags).chain(lists).collect();
    env.render_str(source, context).map_err(|e| e.to_string())
}

/// One turn of a conversation, as the template sees it.
#[derive(Debug, PartialEq, Default)]
pub struct ChatMessage {
    pub role: Option<String>,
    pub content: Option<String>,
}

impl Clone for ChatMessage {
    fn clone(&self) -> (r: Self)
        ensures
            r == *self,
    {
        let role = match &self.role {
            Some(s) => Some(s.clone()),
            None => None,
        };
        let content = match &self.content {
            Some(s) => Some(s.clone()),
            None => None,
        };
        ChatMessage { role, content }
    }
}

/// One part of a user message that is given in parts.
#[derive(Debug, PartialEq)]
pub enum ContentPart {
    /// A piece of text.
    Text(String),
    /// A reference to an image.
    Image(String),
}

/// What a user message holds.
#[derive(Debug, PartialEq)]
pub enum UserContent {
    Text(String),
    Array(Vec<ContentPart>),
}

/// A message of a chat-completion request, by the role that sent it.
#[derive(Debug, PartialEq)]
pub enum RequestMessage {
    System(String),
    User(UserContent),
    Assistant(Option<String>),
    Tool,
    Function,
}

/// Does any of the parts hold an image?
pub open spec fn has_image(parts: Seq<ContentPart>) -> bool {
    exists|i: int| 0 <= i < parts.len() && #[trigger] parts[i] is Image
}

/// The texts of the parts, one after the other; an image adds nothing.
pub open spec fn joined_text(parts: Seq<ContentPart>) -> Seq<char>
    decreases parts.len(),
{
    if parts.len() == 0 {
        Seq::empty()
    } else {
        joined_text(parts.drop_last()) + match parts.last() {
            ContentPart::Text(t) => t@,
            ContentPart::Image(_) => Seq::empty(),
        }
    }
}

/// The role and the content under which the template sees a request message,
/// where it can see it at all.
pub open spec fn flattened(m: RequestMessage) -> Result<(Seq<char>, Option<Seq<char>>), AppError> {
    match m {
        RequestMessage::System(content) => Ok(("system"@, Some(content@))),
        RequestMessage::User(UserContent::Text(text)) => Ok(("user"@, Some(text@))),
        RequestMessage::User(UserContent::Array(parts)) => if has_image(parts@) {
            Err(AppError::UnsupportedContent)
        } else {
            Ok(("user"@, Some(joined_text(parts@))))
        },
        RequestMessage::Assistant(content) => Ok(
            (
                "assistant"@,
                match content {
                    Some(text) => Some(text@),
                    None => None,
                },
            ),
        ),
        RequestMessage::Tool => Err(AppError::UnsupportedRole),
        RequestMessage::Function => Err(AppError::UnsupportedRole),
    }
}

/// `out` is what the template sees of the request message `m`.
pub open spec fn flattens_to(m: RequestMessage, out: ChatMessage) -> bool {
    flattened(m) matches Ok((role, content)) && message_view(out) == (Some(role), content)
}

/// The role and the content of a message, by their characters.
pub open spec fn message_view(m: ChatMessage) -> (Option<Seq<char>>, Option<Seq<char>>) {
    (m.role.deep_view(), m.content.deep_view())
}

/// Joins the text parts of a user message, or reports the first image.
pub fn flatten_parts(parts: &Vec<ContentPart>) -> (r: Option<String>)
    ensures
        r is None <==> has_image(parts@),
        r matches Some(text) ==> text@ == joined_text(parts@),
{
    let mut text = String::new();
    let mut i: usize = 0;
    while i < parts.len()
        invariant
            i <= parts@.len(),
            !has_image(parts@.take(i as int)),
            text@ == joined_text(parts@.take(i as int)),
        decreases parts@.len() - i,
    {
        assert(parts@.take(i + 1).drop_last() =~= parts@.take(i as int));
        match &parts[i] {
            ContentPart::Text(t) => {
                text.append(t.as_str());
                assert forall|j: int| 0 <= j < i + 1 implies !(#[trigger] parts@.take(i + 1)[j]
                    is Image) by {
                    if j < i {
                        assert(parts@.take(i as int)[j] == parts@[j]);
                    }
                }
            },
            ContentPart::Image(_) => {
                assert(parts@[i as int] is Image);
                return None;
            },
        }
        i += 1;
    }
    assert(parts@.take(parts@.len() as int) =~= parts@);
    Some(text)
}

impl ChatMessage {
    /// A message with the given role and content.
    pub fn new(role: String, content: String) -> (m: Self)
        ensures
            m.role == Some(role),
            m.content == Some(content),
    {
        ChatMessage { role: Some(role), content: Some(content) }
    }

    /// Flattens a request message to what the template sees: a user message
    /// given in parts becomes the concatenation of its text parts; a message
    /// with an image, or from a tool or a function, is refused.
    pub fn from_request(message: &RequestMessage) -> (r: Result<ChatMessage, AppError>)
        ensures
            match flattened(*message) {
                Ok(_) => r matches Ok(m) && flattens_to(*message, m),
                Err(e) => r == Err::<ChatMessage, AppError>(e),
            },
    {
        match message {
            RequestMessage::System(content) => Ok(
                ChatMessage { role: Some(String::from_str("system")), content: Some(content.clone()) },
            ),
            RequestMessage::User(content) => match content {
                UserContent::Text(text) => Ok(
                    ChatMessage { role: Some(String::from_str("user")), content: Some(text.clone()) },
                ),
                UserContent::Array(parts) => match flatten_parts(parts) {
                    Some(text) => Ok(
                        ChatMessage { role: Some(String::from_str("user")), content: Some(text) },
                    ),
                    None => Err(AppError::UnsupportedContent),
                },
            },
            RequestMessage::Assistant(content) => {
                let content = match content {
                    Some(text) => Some(text.clone()),
                    None => None,
                };
                Ok(ChatMessage { role: Some(String::from_str("assistant")), content })
            },
            RequestMessage::Tool => Err(AppError::UnsupportedRole),
            RequestMessage::Function => Err(AppError::UnsupportedRole),
        }
    }
}

/// The error of the first message that cannot be flattened, if there is
/// one.
pub open spec fn flat_error(messages: Seq<RequestMessage>) -> Option<AppError>
    decreases messages.len(),
{
    if messages.len() == 0 {
        None
    } else {
        match flattened(messages[0]) {
            Err(e) => Some(e),
            Ok(_) => flat_error(messages.skip(1)),
        }
    }
}

/// The record under which the template sees a request message that can be
/// flattened.
pub open spec fn flat_record(message: RequestMessage) -> Seq<(Seq<char>, Option<Seq<char>>)> {
    match flattened(message) {
        Ok((role, content)) => seq![("role"@, Some(role)), ("content"@, content)],
        Err(_) => Seq::empty(),
    }
}

/// The records of the request messages, in order.
pub open spec fn flat_records(messages: Seq<RequestMessage>) -> Seq<
    Seq<(Seq<char>, Option<Seq<char>>)>,
> {
    Seq::new(messages.len(), |i: int| flat_record(messages[i]))
}

/// Flattens every message of a request, in order; the first message that
/// cannot be flattened decides the error.
pub fn flatten_messages(messages: &Vec<RequestMessage>) -> (r: Result<Vec<ChatMessage>, AppError>)
    ensures
        match flat_error(messages@) {
            Some(e) => r == Err::<Vec<ChatMessage>, AppError>(e),
            None => r matches Ok(flat) && flat@.len() == messages@.len() && (forall|i: int|
                0 <= i < flat@.len() ==> flattens_to(messages@[i], #[trigger] flat@[i]))
                && message_records(flat@) == flat_records(messages@),
        },
{
    let mut flat: Vec<ChatMessage> = Vec::new();
    let mut i: usize = 0;
    assert(messages@.skip(0) =~= messages@);
    while i < messages.len()
        invariant
            i <= messages@.len(),
            flat@.len() == i,
            flat_error(messages@) == flat_error(messages@.skip(i as int)),
            forall|k: int| 0 <= k < i ==> flattens_to(messages@[k], #[trigger] flat@[k]),
        decreases messages@.len() - i,
    {
        assert(messages@.skip(i as int).skip(1) =~= messages@.skip(i + 1));
        assert(messages@.skip(i as int)[0] == messages@[i as int]);
        match ChatMessage::from_request(&messages[i]) {
            Ok(m) => {
                flat.push(m);
            },
            Err(e) => {
                return Err(e);
            },
        }
        i += 1;
    }
    assert(message_records(flat@) =~= flat_records(messages@)) by {
        assert forall|k: int| 0 <= k < flat@.len() implies message_record(flat@[k]) == flat_record(
            messages@[k],
        ) by {
            assert(flattens_to(messages@[k], flat@[k]));
            assert(message_record(flat@[k]) =~= flat_record(messages@[k]));
        }
    }
    Ok(flat)
}

/// A chat template under a name.
#[derive(Debug, Clone, PartialEq)]
pub struct ChatTemplate {
    pub name: String,
    pub template: String,
}

/// The chat template of a tokenizer configuration: one template, or several
/// under their names.
#[derive(Debug, Clone, PartialEq)]
pub enum ChatTemplateVersions {
    Single(String),
    Multiple(Vec<ChatTemplate>),
}

/// What `tokenizer_config.json` says of the chat template and of the tokens
/// that begin and end a sequence.
#[derive(Debug, Clone, PartialEq, Default)]
pub struct TokenizerConfig {
    pub chat_template: Option<ChatTemplateVersions>,
    pub bos_token: Option<String>,
    pub eos_token: Option<String>,
}

/// The template of the first entry named `default`.
pub open spec fn default_template(templates: Seq<ChatTemplate>) -> Option<Seq<char>>
    decreases templates.len(),
{
    if templates.len() == 0 {
        None
    } else if templates[0].name@ == "default"@ {
        Some(templates[0].template@)
    } else {
        default_template(templates.skip(1))
    }
}

/// The template that a configuration selects: its single template, or of
/// several the one named `default`.
pub open spec fn selected_template(config: TokenizerConfig) -> Option<Seq<char>> {
    match config.chat_template {
        None => None,
        Some(ChatTemplateVersions::Single(template)) => Some(template@),
        Some(ChatTemplateVersions::Multiple(templates)) => default_template(templates@),
    }
}

/// A template with the two method calls of Python rewritten as filters:
/// `.strip()` becomes ` | trim`, then `.title()` becomes ` | title`.
pub open spec fn normalized(template: Seq<char>) -> Seq<char> {
    replace_all(replace_all(template, ".strip()"@, " | trim"@), ".title()"@, " | title"@)
}

/// The value of the last `content` key among the entries of an object, where
/// that value is a string.
pub open spec fn content_of(entries: Seq<(String, Option<String>)>) -> Option<Seq<char>>
    decreases entries.len(),
{
    if entries.len() == 0 {
        None
    } else if entries.last().0@ == "content"@ {
        entries.last().1.deep_view()
    } else {
        content_of(entries.drop_last())
    }
}

/// The record under which the template sees a message.
pub open spec fn message_record(m: ChatMessage) -> Seq<(Seq<char>, Option<Seq<char>>)> {
    seq![("role"@, m.role.deep_view()), ("content"@, m.content.deep_view())]
}

/// The records of the messages, in order.
pub open spec fn message_records(messages: Seq<ChatMessage>) -> Seq<
    Seq<(Seq<char>, Option<Seq<char>>)>,
> {
    Seq::new(messages.len(), |i: int| message_record(messages[i]))
}

/// What the engine returns for a normalized template and the inputs of a
/// chat template: `messages`, given by their records, `bos_token`,
/// `eos_token`, and `add_generation_prompt`, which is true.
pub open spec fn rendered_records(
    template: Seq<char>,
    records: Seq<Seq<(Seq<char>, Option<Seq<char>>)>>,
    bos_token: Option<Seq<char>>,
    eos_token: Option<Seq<char>>,
) -> Result<Seq<char>, Seq<char>> {
    jinja_render(
        normalized(template),
        seq![("bos_token"@, bos_token), ("eos_token"@, eos_token)],
        seq![("add_generation_prompt"@, true)],
        seq![("messages"@, records)],
        "raise_exception"@,
    )
}

/// What the engine returns for a normalized template over a conversation.
pub open spec fn rendered(
    template: Seq<char>,
    messages: Seq<ChatMessage>,
    bos_token: Option<Seq<char>>,
    eos_token: Option<Seq<char>>,
) -> Result<Seq<char>, Seq<char>> {
    rendered_records(template, message_records(messages), bos_token, eos_token)
}

/// Finds the first template named `default`.
pub fn find_default(templates: &Vec<ChatTemplate>) -> (r: Option<usize>)
    ensures
        match r {
            Some(at) => at < templates@.len() && default_template(templates@) == Some(
                templates@[at as int].template@,
            ),
            None => default_template(templates@) is None,
        },
{
    let key = String::from_str("default");
    let mut i: usize = 0;
    assert(templates@.skip(0) =~= templates@);
    while i < templates.len()
        invariant
            i <= templates@.len(),
            key@ == "default"@,
            default_template(templates@) == default_template(templates@.skip(i as int)),
        decreases templates@.len() - i,
    {
        assert(templates@.skip(i as int).skip(1) =~= templates@.skip(i + 1));
        if templates[i].name == key {
            return Some(i);
        }
        i += 1;
    }
    None
}

/// The token that an object of the configuration stands for, given its
/// keys in order, each with its value where that value is a string: the
/// value of the last `content` key.
pub fn token_content(entries: &Vec<(String, Option<String>)>) -> (r: Option<String>)
    ensures
        r.deep_view() == content_of(entries@),
{
    let key = String::from_str("content");
    let mut i: usize = entries.len();
    assert(entries@.take(entries@.len() as int) =~= entries@);
    while i > 0
        invariant
            i <= entries@.len(),
            key@ == "content"@,
            content_of(entries@) == content_of(entries@.take(i as int)),
        decreases i,
    {
        i -= 1;
        assert(entries@.take(i + 1).drop_last() =~= entries@.take(i as int));
        assert(entries@.take(i + 1).last() == entries@[i as int]);
        if entries[i].0 == key {
            return match &entries[i].1 {
                Some(text) => Some(text.clone()),
                None => None,
            };
        }
    }
    None
}

/// Maps the outcome of a rendering to the prompt or to a render error.
pub fn prompt_from(outcome: Result<String, String>) -> (r: Result<String, AppError>)
    ensures
        match outcome {
            Ok(text) => r == Ok::<String, AppError>(text),
            Err(detail) => r == Err::<String, AppError>(AppError::TemplateRender(detail)),
        },
{
    match outcome {
        Ok(text) => Ok(text),
        Err(detail) => Err(AppError::TemplateRender(detail)),
    }
}

impl TokenizerConfig {
    /// A configuration with the given template and tokens.
    pub fn new(
        chat_template: Option<ChatTemplateVersions>,
        bos_token: Option<String>,
        eos_token: Option<String>,
    ) -> (config: Self)
        ensures
            config == (TokenizerConfig { chat_template, bos_token, eos_token }),
    {
        TokenizerConfig { chat_template, bos_token, eos_token }
    }

    /// The template that this configuration selects, normalized for the
    /// engine.
    pub fn select_template(&self) -> (r: Option<String>)
        ensures
            r.deep_view() == match selected_template(*self) {
                Some(template) => Some(normalized(template)),
                None => None,
            },
    {
        let template: &String = match &self.chat_template {
            None => {
                return None;
            },
            Some(ChatTemplateVersions::Single(template)) => template,
            Some(ChatTemplateVersions::Multiple(templates)) => match find_default(templates) {
                Some(at) => &templates[at].template,
                None => {
                    return None;
                },
            },
        };
        let source = replace_text(template.as_str(), ".strip()", " | trim");
        Some(replace_text(source.as_str(), ".title()", " | title"))
    }

    /// Renders the prompt for a conversation: selects the template, rewrites
    /// it for the engine, and evaluates it over `messages`, the two tokens
    /// and `add_generation_prompt = true`.
    ///
    /// Fails with `TemplateMissing` exactly when no template is selected, and
    /// with `TemplateRender`, carrying the engine's message, exactly when the
    /// engine fails.
    pub fn apply_chat_template(&self, messages: &Vec<ChatMessage>) -> (r: Result<String, AppError>)
        ensures
            match selected_template(*self) {
                None => r == Err::<String, AppError>(AppError::TemplateMissing),
                Some(template) => match rendered(
                    template,
                    messages@,
                    self.bos_token.deep_view(),
                    self.eos_token.deep_view(),
                ) {
                    Ok(prompt) => r matches Ok(text) && text@ == prompt,
                    Err(detail) => r matches Err(AppError::TemplateRender(m)) && m@ == detail,
                },
            },
    {
        let source = match self.select_template() {
            Some(source) => source,
            None => {
                return Err(AppError::TemplateMissing);
            },
        };
        let mut records: Vec<Vec<(String, Option<String>)>> = Vec::new();
        let mut i: usize = 0;
        while i < messages.len()
            invariant
                i <= messages@.len(),
                records.deep_view() == message_records(messages@.take(i as int)),
            decreases messages@.len() - i,
        {
            let m = messages[i].clone();
            let ghost before = records.deep_view();
            let mut record: Vec<(String, Option<String>)> = Vec::new();
            record.push((String::from_str("role"), m.role));
            record.push((String::from_str("content"), m.content));
            assert(record.deep_view() =~= message_record(messages@[i as int]));
            records.push(record);
            assert(records.deep_view() =~= before.push(message_record(messages@[i as int])));
            assert(records.deep_view() =~= message_records(messages@.take(i + 1)));
            i += 1;
        }
        assert(messages@.take(messages@.len() as int) =~= messages@);
        let mut texts: Vec<(String, Option<String>)> = Vec::new();
        texts.push((String::from_str("bos_token"), self.bos_token.clone()));
        texts.push((String::from_str("eos_token"), self.eos_token.clone()));
        let mut flags: Vec<(String, bool)> = Vec::new();
        flags.push((String::from_str("add_generation_prompt"), true));
        let mut lists: Vec<(String, Vec<Vec<(String, Option<String>)>>)> = Vec::new();
        lists.push((String::from_str("messages"), records));
        assert(texts.deep_view() =~= seq![
            ("bos_token"@, self.bos_token.deep_view()),
            ("eos_token"@, self.eos_token.deep_view()),
        ]);
        assert(flags.deep_view() =~= seq![("add_generation_prompt"@, true)]);
        assert(lists.deep_view() =~= seq![("messages"@, message_records(messages@))]);
        prompt_from(render_str(source.as_str(), &texts, &flags, &lists, "raise_exception"))
    }
}

} // verus!
