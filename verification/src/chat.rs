//! The chat-completion pipeline: from a request to a rendered prompt and a
//! decision for the engine, and from the engine's chunks to the body or the
//! events of the answer.

use vstd::prelude::*;
use vstd::string::StringExecFns;
use crate::error::AppError;
use crate::objs::{
    cache_path, engine_params, Alias, ChatTemplate, ChatTemplateId, LocalModelFile,
    OAIRequestParams, Repo,
};
use crate::service::AppServiceFn;
use crate::shared_rw::{decision, GptParams, ReloadDecision, SharedContextRw};
use crate::text::{
    chars_of, last_index_of, rfind, slice_of, string_of, strip_prefix, strip_prefix_exec,
    strip_suffix, strip_suffix_exec, text_views,
};
use crate::tokenizer_config::{
    flat_error, flat_records, flatten_messages, rendered_records, selected_template, RequestMessage,
    TokenizerConfig,
};

verus! {

/// A chat-completion request: the alias to serve it, the conversation, the
/// wish to stream, and what overrides the defaults of the alias.
#[derive(Debug, PartialEq)]
pub struct ChatRequest {
    pub model: String,
    pub messages: Vec<RequestMessage>,
    pub stream: Option<bool>,
    pub params: OAIRequestParams,
}

/// What the pipeline hands to the engine for one request.
#[derive(Debug, PartialEq)]
pub struct PreparedCompletion {
    /// The rendered prompt.
    pub prompt: String,
    /// The request's parameters over the defaults of the alias.
    pub params: OAIRequestParams,
    /// The parameters of the engine that must serve the request.
    pub gpt_params: GptParams,
    /// What the engine must be told before the completion.
    pub decision: ReloadDecision,
    /// Is the answer streamed?
    pub stream: bool,
}

/// The first value where there is one, else the second.
pub open spec fn pick<T>(first: Option<T>, second: Option<T>) -> Option<T> {
    if first is Some {
        first
    } else {
        second
    }
}

/// The request's parameters over the defaults: for each field the
/// request's value where it is present, else the default; the stop
/// sequences of the request where it names any.
pub open spec fn merged(
    request: OAIRequestParams,
    defaults: OAIRequestParams,
    result: OAIRequestParams,
) -> bool {
    &&& result.frequency_penalty.deep_view() == pick(
        request.frequency_penalty.deep_view(),
        defaults.frequency_penalty.deep_view(),
    )
    &&& result.max_tokens == pick(request.max_tokens, defaults.max_tokens)
    &&& result.presence_penalty.deep_view() == pick(
        request.presence_penalty.deep_view(),
        defaults.presence_penalty.deep_view(),
    )
    &&& result.response_format == pick(request.response_format, defaults.response_format)
    &&& result.seed == pick(request.seed, defaults.seed)
    &&& text_views(result.stop@) == (if request.stop@.len() > 0 {
        text_views(request.stop@)
    } else {
        text_views(defaults.stop@)
    })
    &&& result.temperature.deep_view() == pick(
        request.temperature.deep_view(),
        defaults.temperature.deep_view(),
    )
    &&& result.top_p.deep_view() == pick(request.top_p.deep_view(), defaults.top_p.deep_view())
    &&& result.user.deep_view() == pick(request.user.deep_view(), defaults.user.deep_view())
}

fn pick_text(first: Option<String>, second: &Option<String>) -> (r: Option<String>)
    ensures
        r.deep_view() == pick(first.deep_view(), second.deep_view()),
{
    match first {
        Some(text) => Some(text),
        None => match second {
            Some(text) => Some(text.clone()),
            None => None,
        },
    }
}

fn pick_value<T: Copy>(first: Option<T>, second: Option<T>) -> (r: Option<T>)
    ensures
        r == pick(first, second),
{
    match first {
        Some(value) => Some(value),
        None => second,
    }
}

/// A copy of the texts.
pub fn clone_texts(texts: &Vec<String>) -> (r: Vec<String>)
    ensures
        text_views(r@) == text_views(texts@),
{
    let mut r: Vec<String> = Vec::new();
    let mut i: usize = 0;
    while i < texts.len()
        invariant
            i <= texts@.len(),
            r@.len() == i,
            forall|j: int| 0 <= j < i ==> r@[j]@ == texts@[j]@,
        decreases texts@.len() - i,
    {
        r.push(texts[i].clone());
        i += 1;
    }
    assert(text_views(r@) =~= text_views(texts@));
    r
}

/// Lays the parameters of a request over the defaults of its alias.
pub fn merge_params(request: OAIRequestParams, defaults: &OAIRequestParams) -> (r: OAIRequestParams)
    ensures
        merged(request, *defaults, r),
{
    let stop = if request.stop.len() > 0 {
        request.stop
    } else {
        clone_texts(&defaults.stop)
    };
    OAIRequestParams {
        frequency_penalty: pick_text(request.frequency_penalty, &defaults.frequency_penalty),
        max_tokens: pick_value(request.max_tokens, defaults.max_tokens),
        presence_penalty: pick_text(request.presence_penalty, &defaults.presence_penalty),
        response_format: pick_value(request.response_format, defaults.response_format),
        seed: pick_value(request.seed, defaults.seed),
        stop,
        temperature: pick_text(request.temperature, &defaults.temperature),
        top_p: pick_text(request.top_p, &defaults.top_p),
        user: pick_text(request.user, &defaults.user),
    }
}

/// The alias that serves a request, or `AliasNotFound` with the name that
/// was asked for.
pub fn resolve_alias(model: &String, found: Option<Alias>) -> (r: Result<Alias, AppError>)
    ensures
        r == (match found {
            Some(alias) => Ok::<Alias, AppError>(alias),
            None => Err(AppError::AliasNotFound(*model)),
        }),
{
    match found {
        Some(alias) => Ok(alias),
        None => Err(AppError::AliasNotFound(model.clone())),
    }
}

/// The file name and the directory that a missing file is reported with:
/// the path is split at its last `/`, and the directory is given relative
/// to the hub home where it lies under it.
pub open spec fn missing_file_parts(filepath: Seq<char>, hf_home: Seq<char>) -> (
    Seq<char>,
    Seq<char>,
) {
    let (dirname, filename) = match last_index_of(filepath, '/') {
        Some(at) => (filepath.take(at), filepath.skip(at + 1)),
        None => (Seq::empty(), filepath),
    };
    let relative = match strip_prefix(dirname, hf_home) {
        Some(rest) => rest,
        None => dirname,
    };
    (filename, relative)
}

/// The error for a file that should lie at `filepath` and does not.
pub fn missing_file(filepath: &str, hf_home: &str) -> (e: AppError)
    ensures
        e matches AppError::FileMissing { filename, dirname } && (filename@, dirname@)
            == missing_file_parts(filepath@, hf_home@),
{
    let path = chars_of(filepath);
    let home = chars_of(hf_home);
    let n: usize = path.len();
    let (dirname, filename) = match rfind(&path, '/') {
        Some(at) => {
            let dirname = slice_of(&path, 0, at);
            let filename = slice_of(&path, at + 1, n);
            assert(dirname@ =~= path@.take(at as int));
            assert(filename@ =~= path@.skip(at + 1));
            (dirname, filename)
        },
        None => (Vec::new(), path),
    };
    let relative = match strip_prefix_exec(&dirname, &home) {
        Some(rest) => rest,
        None => dirname,
    };
    AppError::FileMissing { filename: string_of(&filename), dirname: string_of(&relative) }
}

/// The model file of an alias, or `FileMissing` where the cache does not
/// hold it.
pub fn resolve_file(found: Option<LocalModelFile>, filepath: &str, hf_home: &str) -> (r: Result<
    LocalModelFile,
    AppError,
>)
    ensures
        match found {
            Some(file) => r == Ok::<LocalModelFile, AppError>(file),
            None => r matches Err(AppError::FileMissing { filename, dirname }) && (
                filename@,
                dirname@,
            ) == missing_file_parts(filepath@, hf_home@),
        },
{
    match found {
        Some(file) => Ok(file),
        None => Err(missing_file(filepath, hf_home)),
    }
}

/// Is the answer to be streamed? Only where the request says so.
pub fn wants_stream(stream: Option<bool>) -> (b: bool)
    ensures
        b == (stream == Some(true)),
{
    match stream {
        Some(b) => b,
        None => false,
    }
}

/// The kinds of chunk that the engine emits.
#[derive(Debug, Clone, Copy, PartialEq, Eq, Structural)]
pub enum FrameKind {
    /// `data: <json>\n\n`: a token delta, or the whole answer.
    Data,
    /// `error: <json>\n\n`: an error on the engine's side.
    Error,
    /// Anything else.
    Unknown,
}

/// The kind of a chunk, by its prefix.
pub open spec fn frame_kind(chunk: Seq<char>) -> FrameKind {
    if strip_prefix(chunk, "data: "@) is Some {
        FrameKind::Data
    } else if strip_prefix(chunk, "error: "@) is Some {
        FrameKind::Error
    } else {
        FrameKind::Unknown
    }
}

/// `s` without its trailing blank line, where it has one.
pub open spec fn without_terminator(s: Seq<char>) -> Seq<char> {
    match strip_suffix(s, "\n\n"@) {
        Some(rest) => rest,
        None => s,
    }
}

/// What a chunk carries: the text between its `data: ` or `error: ` prefix
/// and its trailing blank line; a chunk of another kind carries itself.
pub open spec fn frame_payload(chunk: Seq<char>) -> Seq<char> {
    match frame_kind(chunk) {
        FrameKind::Data => without_terminator(strip_prefix(chunk, "data: "@).unwrap()),
        FrameKind::Error => without_terminator(strip_prefix(chunk, "error: "@).unwrap()),
        FrameKind::Unknown => chunk,
    }
}

/// The status and the body of the answer that is not streamed: the payload
/// of the first chunk, under 200 for a data chunk and under 500 for an
/// error chunk.
pub open spec fn single_body(chunk: Seq<char>) -> (u16, Seq<char>) {
    (
        if frame_kind(chunk) == FrameKind::Error {
            500u16
        } else {
            200u16
        },
        frame_payload(chunk),
    )
}

/// The chunk that carries `body` as data.
pub open spec fn data_frame(body: Seq<char>) -> Seq<char> {
    "data: "@ + body + "\n\n"@
}

/// The chunk that carries `body` as an error.
pub open spec fn error_frame(body: Seq<char>) -> Seq<char> {
    "error: "@ + body + "\n\n"@
}

/// A chunk gives back what it was made to carry, under the kind that it
/// was made with.
pub proof fn lemma_frames_carry_their_body(body: Seq<char>)
    ensures
        frame_kind(data_frame(body)) == FrameKind::Data,
        frame_payload(data_frame(body)) == body,
        frame_kind(error_frame(body)) == FrameKind::Error,
        frame_payload(error_frame(body)) == body,
        single_body(data_frame(body)) == (200u16, body),
        single_body(error_frame(body)) == (500u16, body),
{
    reveal_strlit("data: ");
    reveal_strlit("error: ");
    reveal_strlit("\n\n");
    let d = data_frame(body);
    let e = error_frame(body);
    assert(d.subrange(0, 6) =~= "data: "@);
    assert(d.skip(6) =~= body + "\n\n"@);
    assert(d.skip(6).subrange(d.skip(6).len() - 2, d.skip(6).len() as int) =~= "\n\n"@);
    assert(d.skip(6).take(d.skip(6).len() - 2) =~= body);
    assert(e[0] == 'e' && "data: "@[0] == 'd');
    assert(e.len() >= 6 ==> e.subrange(0, 6)[0] == 'e');
    assert(e.subrange(0, 7) =~= "error: "@);
    assert(e.skip(7) =~= body + "\n\n"@);
    assert(e.skip(7).subrange(e.skip(7).len() - 2, e.skip(7).len() as int) =~= "\n\n"@);
    assert(e.skip(7).take(e.skip(7).len() - 2) =~= body);
}

/// Splits a chunk into its kind and what it carries.
pub fn read_frame(chunk: &str) -> (r: (FrameKind, String))
    ensures
        r.0 == frame_kind(chunk@),
        r.1@ == frame_payload(chunk@),
{
    let chars = chars_of(chunk);
    let data = chars_of("data: ");
    let error = chars_of("error: ");
    let terminator = chars_of("\n\n");
    let (kind, rest) = match strip_prefix_exec(&chars, &data) {
        Some(rest) => (FrameKind::Data, rest),
        None => match strip_prefix_exec(&chars, &error) {
            Some(rest) => (FrameKind::Error, rest),
            None => {
                return (FrameKind::Unknown, string_of(&chars));
            },
        },
    };
    let payload = match strip_suffix_exec(&rest, &terminator) {
        Some(payload) => payload,
        None => rest,
    };
    (kind, string_of(&payload))
}

/// The data of the server-sent event for a chunk.
pub fn sse_data(chunk: &str) -> (data: String)
    ensures
        data@ == frame_payload(chunk@),
{
    read_frame(chunk).1
}

/// How many of the chunks a stream passes on: all of them up to and with
/// the first error chunk, after which the stream closes.
pub open spec fn stream_length(chunks: Seq<String>) -> nat
    decreases chunks.len(),
{
    if chunks.len() == 0 {
        0
    } else if frame_kind(chunks[0]@) == FrameKind::Error {
        1
    } else {
        1 + stream_length(chunks.skip(1))
    }
}

/// A stream of server-sent events: open until an error chunk has passed.
#[derive(Debug, Clone, Copy, PartialEq, Eq, Structural)]
pub struct SseStream {
    pub closed: bool,
}

impl SseStream {
    /// A stream that is open.
    pub fn new() -> (stream: Self)
        ensures
            !stream.closed,
    {
        SseStream { closed: false }
    }

    /// The data of the event for the next chunk, or `None` once the stream
    /// has closed. An error chunk is passed on and closes the stream.
    pub fn event(&mut self, chunk: &str) -> (data: Option<String>)
        ensures
            old(self).closed ==> data is None && final(self).closed,
            !old(self).closed ==> (data matches Some(text) && text@ == frame_payload(chunk@))
                && final(self).closed == (frame_kind(chunk@) == FrameKind::Error),
    {
        if self.closed {
            return None;
        }
        let (kind, payload) = read_frame(chunk);
        self.closed = kind == FrameKind::Error;
        Some(payload)
    }
}

/// The data of the events for the chunks of a stream: one event for each
/// chunk that the stream passes on, in the order in which the engine
/// emitted them.
pub fn sse_events(chunks: &Vec<String>) -> (events: Vec<String>)
    ensures
        events@.len() == stream_length(chunks@),
        events@.len() <= chunks@.len(),
        forall|i: int| 0 <= i < events@.len() ==> (#[trigger] events@[i])@ == frame_payload(chunks@[i]@),
{
    let mut stream = SseStream::new();
    let mut events: Vec<String> = Vec::new();
    let mut i: usize = 0;
    assert(chunks@.skip(0) =~= chunks@);
    while i < chunks.len() && !stream.closed
        invariant
            i <= chunks@.len(),
            events@.len() == i,
            stream.closed ==> stream_length(chunks@) == i,
            !stream.closed ==> stream_length(chunks@) == i + stream_length(chunks@.skip(i as int)),
            forall|j: int| 0 <= j < i ==> (#[trigger] events@[j])@ == frame_payload(chunks@[j]@),
        decreases chunks@.len() - i,
    {
        assert(chunks@.skip(i as int).skip(1) =~= chunks@.skip(i + 1));
        assert(chunks@.skip(i as int)[0] == chunks@[i as int]);
        match stream.event(chunks[i].as_str()) {
            Some(data) => {
                events.push(data);
            },
            None => {},
        }
        i += 1;
    }
    events
}

/// The answer that is not streamed, from the first chunk of the engine:
/// status and body. Where the engine closed the channel without a chunk the
/// answer is an internal error.
pub fn single_response(first: Option<String>) -> (r: Result<(u16, String), AppError>)
    ensures
        match first {
            Some(chunk) => r matches Ok((status, body)) && (status, body@) == single_body(chunk@),
            None => r matches Err(AppError::InternalServer(m)) && m@
                == "receiver stream abruptly closed"@,
        },
{
    match first {
        Some(chunk) => {
            let (kind, body) = read_frame(chunk.as_str());
            let status: u16 = match kind {
                FrameKind::Error => 500,
                _ => 200,
            };
            Ok((status, body))
        },
        None => Err(AppError::InternalServer(String::from_str("receiver stream abruptly closed"))),
    }
}

/// The media type of an answer: an event stream for a streamed answer,
/// JSON for every other, errors among them.
pub fn media_type(stream: bool) -> (media: &'static str)
    ensures
        media@ == (if stream {
            "text/event-stream"@
        } else {
            "application/json"@
        }),
{
    if stream {
        "text/event-stream"
    } else {
        "application/json"
    }
}

/// What answers a request that is not streamed: the first chunk of the
/// engine as [`single_body`] states it; where no chunk came, the error
/// that the pipeline ended with, or the abrupt end where it ended well.
pub fn answer(first: Option<String>, outcome: Result<(), AppError>) -> (r: Result<
    (u16, String),
    AppError,
>)
    ensures
        match (first, outcome) {
            (Some(chunk), _) => r matches Ok((status, body)) && (status, body@) == single_body(
                chunk@,
            ),
            (None, Err(e)) => r == Err::<(u16, String), AppError>(e),
            (None, Ok(())) => r matches Err(AppError::InternalServer(m)) && m@
                == "receiver stream abruptly closed"@,
        },
{
    match first {
        Some(chunk) => single_response(Some(chunk)),
        None => match outcome {
            Err(e) => Err(e),
            Ok(()) => single_response(None),
        },
    }
}

/// How a streamed answer opens: with the first chunk of the engine; where
/// no chunk came, with the error that the pipeline ended with, or as a
/// stream without events where it ended well.
pub fn stream_opening(first: Option<String>, outcome: Result<(), AppError>) -> (r: Result<
    Option<String>,
    AppError,
>)
    ensures
        r == (match (first, outcome) {
            (Some(chunk), _) => Ok::<Option<String>, AppError>(Some(chunk)),
            (None, Err(e)) => Err(e),
            (None, Ok(())) => Ok(None),
        }),
{
    match first {
        Some(chunk) => Ok(Some(chunk)),
        None => match outcome {
            Err(e) => Err(e),
            Ok(()) => Ok(None),
        },
    }
}

/// The outcome of preparing a completion once the alias, its model file
/// and its tokenizer configuration are at hand. The messages are
/// flattened, and the first that cannot be decides the error; the prompt
/// is rendered from the configuration's template; the request's
/// parameters are laid over the defaults of the alias; the engine
/// parameters are the path of the model file with the context defaults of
/// the alias; and the decision is what the table gives for them, with
/// `live` the parameters of the live engine.
pub open spec fn prepared(
    live: Option<GptParams>,
    request: ChatRequest,
    alias: Alias,
    model_file: LocalModelFile,
    config: TokenizerConfig,
    r: Result<PreparedCompletion, AppError>,
) -> bool {
    match flat_error(request.messages@) {
        Some(e) => r == Err::<PreparedCompletion, AppError>(e),
        None => match selected_template(config) {
            None => r == Err::<PreparedCompletion, AppError>(AppError::TemplateMissing),
            Some(template) => match rendered_records(
                template,
                flat_records(request.messages@),
                config.bos_token.deep_view(),
                config.eos_token.deep_view(),
            ) {
                Err(detail) => r matches Err(AppError::TemplateRender(m)) && m@ == detail,
                Ok(prompt) => {
                    &&& r matches Ok(p)
                    &&& p.prompt@ == prompt
                    &&& merged(request.params, alias.request_params, p.params)
                    &&& p.gpt_params.model@ == cache_path(
                        model_file.hf_cache@,
                        model_file.repo@,
                        model_file.snapshot@,
                        model_file.filename@,
                    )
                    &&& p.gpt_params.n_ctx == alias.context_params.n_ctx
                    &&& p.gpt_params.n_parallel == alias.context_params.n_parallel
                    &&& p.gpt_params.n_threads == alias.context_params.n_threads
                    &&& p.gpt_params.n_predict == alias.context_params.n_predict
                    &&& p.gpt_params.seed is None
                    &&& p.decision == decision(live, Some(p.gpt_params))
                    &&& p.stream == (request.stream == Some(true))
                },
            },
        },
    }
}

/// Prepares a completion from what the lookups found.
pub fn prepare_with(
    ctx: &SharedContextRw,
    request: ChatRequest,
    alias: &Alias,
    model_file: &LocalModelFile,
    config: &TokenizerConfig,
) -> (r: Result<PreparedCompletion, AppError>)
    ensures
        prepared(ctx.live(), request, *alias, *model_file, *config, r),
{
    let messages = match flatten_messages(&request.messages) {
        Ok(messages) => messages,
        Err(e) => {
            return Err(e);
        },
    };
    let prompt = match config.apply_chat_template(&messages) {
        Ok(prompt) => prompt,
        Err(e) => {
            return Err(e);
        },
    };
    let stream = wants_stream(request.stream);
    let params = merge_params(request.params, &alias.request_params);
    let gpt_params = engine_params(model_file.path(), &alias.context_params);
    let decision = ctx.decide(Some(gpt_params.clone()));
    Ok(PreparedCompletion { prompt, params, gpt_params, decision, stream })
}

/// Where the tokenizer configuration of an alias comes from.
#[derive(Debug, PartialEq)]
pub enum TokenizerSource {
    /// It ships with the built-in template.
    Bundled(ChatTemplateId),
    /// It is a file of a repository in the hub cache.
    Cached { repo: Repo, filename: &'static str, snapshot: &'static str },
}

/// Where the tokenizer configuration of a chat template comes from: a
/// built-in template has its own, and a repository holds it as
/// `tokenizer_config.json` under its snapshot `main`.
pub fn tokenizer_lookup(template: &ChatTemplate) -> (r: TokenizerSource)
    ensures
        match *template {
            ChatTemplate::Id(id) => r == TokenizerSource::Bundled(id),
            ChatTemplate::Repo(from) => r matches TokenizerSource::Cached { repo, filename, snapshot }
                && repo@ == from@ && filename@ == "tokenizer_config.json"@ && snapshot@ == "main"@,
        },
{
    match template {
        ChatTemplate::Id(id) => TokenizerSource::Bundled(*id),
        ChatTemplate::Repo(repo) => TokenizerSource::Cached {
            repo: repo.clone(),
            filename: "tokenizer_config.json",
            snapshot: "main",
        },
    }
}

/// `r` is the refusal of a file that should lie at `filepath` and does
/// not.
pub open spec fn file_missing<T>(filepath: Seq<char>, hf_home: Seq<char>, r: Result<T, AppError>) -> bool {
    r matches Err(AppError::FileMissing { filename, dirname }) && (filename@, dirname@)
        == missing_file_parts(filepath, hf_home)
}

/// Prepares a completion: looks up the alias of the request, its model
/// file and its tokenizer configuration through `service`, and prepares
/// the completion from them as [`prepare_with`] states it.
///
/// The alias is asked for by the request's model, and an alias that
/// `service` does not hold is refused as [`resolve_alias`] states. The
/// model file is asked for as `Alias::model_lookup` states, the tokenizer
/// configuration as [`tokenizer_lookup`] states; a file that the cache
/// does not hold is refused as [`resolve_file`] states, with the path and
/// the home that `service` gives, and a cache that cannot be read ends
/// the preparation with its error. So what `service` holds decides up to
/// the tokenizer configuration. The reading of that configuration is
/// `service`'s own: where it fails, its error ends the preparation.
pub fn prepare_completion<S: AppServiceFn>(
    service: &S,
    ctx: &SharedContextRw,
    request: ChatRequest,
) -> (r: Result<PreparedCompletion, AppError>)
    ensures
        match service.alias_of(request.model@) {
            None => r == Err::<PreparedCompletion, AppError>(
                AppError::AliasNotFound(request.model),
            ),
            Some(alias) => match service.file_of(alias.repo@, alias.filename@, alias.snapshot@) {
                Err(e) => r == Err::<PreparedCompletion, AppError>(e),
                Ok(None) => file_missing(
                    service.path_of(alias.repo@, alias.filename@, alias.snapshot@),
                    service.home(),
                    r,
                ),
                Ok(Some(model_file)) => match alias.chat_template {
                    ChatTemplate::Id(_) => r matches Ok(_) ==> exists|config: TokenizerConfig|
                        prepared(ctx.live(), request, alias, model_file, config, r),
                    ChatTemplate::Repo(repo) => match service.file_of(
                        repo@,
                        "tokenizer_config.json"@,
                        "main"@,
                    ) {
                        Err(e) => r == Err::<PreparedCompletion, AppError>(e),
                        Ok(None) => file_missing(
                            service.path_of(repo@, "tokenizer_config.json"@, "main"@),
                            service.home(),
                            r,
                        ),
                        Ok(Some(_)) => r matches Ok(_) ==> exists|config: TokenizerConfig|
                            prepared(ctx.live(), request, alias, model_file, config, r),
                    },
                },
            },
        },
{
    let found = service.find_alias(request.model.as_str());
    let alias = match resolve_alias(&request.model, found) {
        Ok(alias) => alias,
        Err(e) => {
            return Err(e);
        },
    };
    let model = alias.model_lookup();
    let found = match service.find_local_file(
        &model.repo,
        model.filename.as_str(),
        model.snapshot.as_str(),
    ) {
        Ok(found) => found,
        Err(e) => {
            return Err(e);
        },
    };
    let path = service.model_file_path(
        &model.repo,
        model.filename.as_str(),
        model.snapshot.as_str(),
    );
    let home = service.hf_home();
    let model_file = match resolve_file(found, path.as_str(), home.as_str()) {
        Ok(file) => file,
        Err(e) => {
            return Err(e);
        },
    };
    let loaded = match tokenizer_lookup(&alias.chat_template) {
        TokenizerSource::Bundled(id) => service.bundled_config(id),
        TokenizerSource::Cached { repo, filename, snapshot } => {
            let found = match service.find_local_file(&repo, filename, snapshot) {
                Ok(found) => found,
                Err(e) => {
                    return Err(e);
                },
            };
            let path = service.model_file_path(&repo, filename, snapshot);
            let home = service.hf_home();
            match resolve_file(found, path.as_str(), home.as_str()) {
                Ok(file) => service.tokenizer_config(&file),
                Err(e) => Err(e),
            }
        },
    };
    match loaded {
        Ok(config) => prepare_with(ctx, request, &alias, &model_file, &config),
        Err(e) => Err(e),
    }
}

/// How many chunks the channel between the engine and the client holds
/// before the engine has to wait.
pub const CHUNK_CAPACITY: usize = 100;

/// The bridge between the engine's callback and the channel to the client:
/// it remembers whether the client still listens.
#[derive(Debug, Clone, Copy, PartialEq, Eq, Structural)]
pub struct ChunkRelay {
    pub open: bool,
}

/// Is the relay still open after these deliveries, each `true` where the
/// channel took the chunk? It is closed by the first delivery that fails.
pub open spec fn open_after(open: bool, deliveries: Seq<bool>) -> bool
    decreases deliveries.len(),
{
    if deliveries.len() == 0 {
        open
    } else {
        open_after(open, deliveries.drop_last()) && deliveries.last()
    }
}

impl ChunkRelay {
    /// A relay whose client listens.
    pub fn new() -> (relay: Self)
        ensures
            relay.open,
    {
        ChunkRelay { open: true }
    }

    /// Is the next chunk of the engine to be sent on? Only while the client
    /// listens; after that every chunk is discarded.
    pub fn forwards(&self) -> (b: bool)
        ensures
            b == self.open,
    {
        self.open
    }

    /// Records whether the channel took the chunk that was sent on.
    pub fn delivered(&mut self, taken: bool)
        ensures
            final(self).open == (old(self).open && taken),
    {
        self.open = self.open && taken;
    }
}

/// Once a delivery has failed the relay stays closed, whatever follows: no
/// later chunk is sent on.
pub proof fn lemma_relay_stays_closed(open: bool, deliveries: Seq<bool>, failed: int)
    requires
        0 <= failed < deliveries.len(),
        !deliveries[failed],
    ensures
        !open_after(open, deliveries),
    decreases deliveries.len(),
{
    if failed < deliveries.len() - 1 {
        lemma_relay_stays_closed(open, deliveries.drop_last(), failed);
    }
}

} // verus!
