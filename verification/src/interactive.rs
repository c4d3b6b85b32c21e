//! The interactive client: one conversation, turn by turn, driven by the
//! events of the terminal and of the engine.

use vstd::prelude::*;
use vstd::string::StringExecFns;
use crate::chat::{missing_file, missing_file_parts, ChatRequest, FrameKind};
use crate::error::{message_of, AppError};
use crate::objs::{cache_path, Alias, LocalModelFile, OAIRequestParams};
use crate::service::AppServiceFn;
use crate::shared_rw::GptParams;
use crate::text::same_text;
use crate::tokenizer_config::{ContentPart, RequestMessage, UserContent};

verus! {

/// The characters of what the reader of a chunk found.
pub open spec fn found_view(r: Result<Option<String>, String>) -> Result<
    Option<Seq<char>>,
    Seq<char>,
> {
    match r {
        Ok(Some(text)) => Ok(Some(text@)),
        Ok(None) => Ok(None),
        Err(e) => Err(e@),
    }
}

/// The text that a chunk adds to the answer, given what the reader of
/// stream responses found in its payload: the content of the first delta,
/// none where that delta has none, or the reader's message where the
/// payload is no stream response. An error chunk is the engine's failure,
/// whatever was found. A chunk that carries `[DONE]` ends the stream and
/// adds nothing, whatever was found.
pub open spec fn delta_of(
    kind: FrameKind,
    payload: Seq<char>,
    found: Result<Option<Seq<char>>, Seq<char>>,
) -> Result<Seq<char>, (Seq<char>, Seq<char>)> {
    if kind == FrameKind::Error {
        Err((Seq::empty(), payload))
    } else if payload == "[DONE]"@ {
        Ok(Seq::empty())
    } else {
        match found {
            Ok(Some(text)) => Ok(text),
            Ok(None) => Ok(Seq::empty()),
            Err(message) => Err((message, payload)),
        }
    }
}

/// The delta of a chunk of the engine, by its kind, its payload and what
/// the reader of stream responses found in the payload.
pub fn delta_from(kind: FrameKind, payload: String, found: Result<Option<String>, String>) -> (r:
    Result<String, AppError>)
    ensures
        match delta_of(kind, payload@, found_view(found)) {
            Ok(text) => r matches Ok(delta) && delta@ == text,
            Err((message, value)) => if kind == FrameKind::Error {
                r == Err::<String, AppError>(AppError::EngineCompletion(payload))
            } else {
                r matches Err(AppError::Json { source, value: v }) && source@ == message && v
                    == payload
            },
        },
{
    if kind == FrameKind::Error {
        return Err(AppError::EngineCompletion(payload));
    }
    if same_text(payload.as_str(), "[DONE]") {
        return Ok(String::new());
    }
    match found {
        Ok(Some(text)) => Ok(text),
        Ok(None) => Ok(String::new()),
        Err(source) => Err(AppError::Json { source, value: payload }),
    }
}

/// The states of a turn.
#[derive(Debug, Clone, Copy, PartialEq, Eq, Structural)]
pub enum TurnState {
    Idle,
    CollectingInput,
    Rendering,
    Generating,
    Streaming,
    AppendHistory,
}

/// What happens to a conversation.
#[derive(Debug, PartialEq)]
pub enum TurnEvent {
    /// The prompt was shown.
    Prompted,
    /// The user entered a line.
    Line(String),
    /// The prompt of the request was rendered.
    Rendered,
    /// The engine sent the text of a delta.
    Delta(String),
    /// The engine closed the stream.
    Finished,
    /// The answer was added to the history.
    Appended,
    /// Something failed.
    Failed(String),
}

/// What the driver of a conversation does next.
#[derive(Debug, Clone, Copy, PartialEq, Eq, Structural)]
pub enum TurnAction {
    /// Read a line from the terminal.
    ReadLine,
    /// Submit the request for the history as it stands.
    Submit,
    /// Wait for the engine.
    Await,
    /// Print the delta.
    Print,
    /// Add the answer to the history.
    Append,
    /// Show the prompt again.
    Prompt,
    /// Leave the conversation and stop the engine.
    Exit,
    /// Print the error and show the prompt again.
    Report,
}

/// A conversation with one alias.
#[derive(Debug, PartialEq)]
pub struct Interactive {
    pub alias: Alias,
    pub history: Vec<RequestMessage>,
    pub state: TurnState,
    pub reply: String,
}

/// The line that ends a conversation.
pub open spec fn is_exit(line: Seq<char>) -> bool {
    line == "/bye"@
}

/// The state after an event.
pub open spec fn next_state(state: TurnState, event: TurnEvent) -> TurnState {
    match (state, event) {
        (TurnState::Idle, TurnEvent::Prompted) => TurnState::CollectingInput,
        (TurnState::CollectingInput, TurnEvent::Line(line)) => if is_exit(line@) {
            TurnState::Idle
        } else {
            TurnState::Rendering
        },
        (TurnState::Rendering, TurnEvent::Rendered) => TurnState::Generating,
        (TurnState::Generating, TurnEvent::Delta(_)) => TurnState::Streaming,
        (TurnState::Streaming, TurnEvent::Delta(_)) => TurnState::Streaming,
        (TurnState::Generating, TurnEvent::Finished) => TurnState::AppendHistory,
        (TurnState::Streaming, TurnEvent::Finished) => TurnState::AppendHistory,
        (TurnState::AppendHistory, TurnEvent::Appended) => TurnState::Idle,
        _ => TurnState::Idle,
    }
}

/// Does the event belong to the state? One that does not is a failure.
pub open spec fn expected(state: TurnState, event: TurnEvent) -> bool {
    match (state, event) {
        (TurnState::Idle, TurnEvent::Prompted) => true,
        (TurnState::CollectingInput, TurnEvent::Line(_)) => true,
        (TurnState::Rendering, TurnEvent::Rendered) => true,
        (TurnState::Generating, TurnEvent::Delta(_)) => true,
        (TurnState::Streaming, TurnEvent::Delta(_)) => true,
        (TurnState::Generating, TurnEvent::Finished) => true,
        (TurnState::Streaming, TurnEvent::Finished) => true,
        (TurnState::AppendHistory, TurnEvent::Appended) => true,
        _ => false,
    }
}

/// The history after an event: a line that is no exit adds the user's
/// turn, the end of the append adds the assistant's answer, and nothing
/// else changes it.
pub open spec fn next_history(
    state: TurnState,
    history: Seq<RequestMessage>,
    reply: String,
    event: TurnEvent,
) -> Seq<RequestMessage> {
    match (state, event) {
        (TurnState::CollectingInput, TurnEvent::Line(line)) => if is_exit(line@) {
            history
        } else {
            history.push(RequestMessage::User(UserContent::Text(line)))
        },
        (TurnState::AppendHistory, TurnEvent::Appended) => history.push(
            RequestMessage::Assistant(Some(reply)),
        ),
        _ => history,
    }
}

/// The answer gathered so far, after an event: deltas add to it while the
/// engine generates, the end of the stream keeps it for the append, and
/// everything else clears it.
pub open spec fn next_reply(state: TurnState, reply: Seq<char>, event: TurnEvent) -> Seq<char> {
    match (state, event) {
        (TurnState::Generating, TurnEvent::Delta(text)) => reply + text@,
        (TurnState::Streaming, TurnEvent::Delta(text)) => reply + text@,
        (TurnState::Generating, TurnEvent::Finished) => reply,
        (TurnState::Streaming, TurnEvent::Finished) => reply,
        _ => Seq::empty(),
    }
}

/// What the driver is told to do after an event.
pub open spec fn next_action(state: TurnState, event: TurnEvent) -> TurnAction {
    match (state, event) {
        (TurnState::Idle, TurnEvent::Prompted) => TurnAction::ReadLine,
        (TurnState::CollectingInput, TurnEvent::Line(line)) => if is_exit(line@) {
            TurnAction::Exit
        } else {
            TurnAction::Submit
        },
        (TurnState::Rendering, TurnEvent::Rendered) => TurnAction::Await,
        (TurnState::Generating, TurnEvent::Delta(_)) => TurnAction::Print,
        (TurnState::Streaming, TurnEvent::Delta(_)) => TurnAction::Print,
        (TurnState::Generating, TurnEvent::Finished) => TurnAction::Append,
        (TurnState::Streaming, TurnEvent::Finished) => TurnAction::Append,
        (TurnState::AppendHistory, TurnEvent::Appended) => TurnAction::Prompt,
        _ => TurnAction::Report,
    }
}

/// `p` loads the model of `file` with the engine's defaults: the model is
/// the path of the file, and nothing else is set.
pub open spec fn loads(file: LocalModelFile, p: GptParams) -> bool {
    &&& p.model@ == cache_path(file.hf_cache@, file.repo@, file.snapshot@, file.filename@)
    &&& p.n_ctx is None
    &&& p.n_parallel is None
    &&& p.n_threads is None
    &&& p.seed is None
    &&& p.n_predict is None
}

/// The parameters that load the model of `file` with the engine's
/// defaults.
pub fn model_params(file: &LocalModelFile) -> (p: GptParams)
    ensures
        loads(*file, p),
{
    GptParams {
        model: file.path(),
        n_ctx: None,
        n_parallel: None,
        n_threads: None,
        seed: None,
        n_predict: None,
    }
}

/// The parameters for a conversation from what the cache holds of the
/// model file: those of the file where it is there, and `FileMissing`
/// where it is not, with the path at which it should lie.
pub fn params_from(found: Option<LocalModelFile>, filepath: &str, hf_home: &str) -> (r: Result<
    GptParams,
    AppError,
>)
    ensures
        match found {
            Some(file) => r matches Ok(p) && loads(file, p),
            None => r matches Err(AppError::FileMissing { filename, dirname }) && (
                filename@,
                dirname@,
            ) == missing_file_parts(filepath@, hf_home@),
        },
{
    match found {
        Some(file) => Ok(model_params(&file)),
        None => Err(missing_file(filepath, hf_home)),
    }
}

/// The two messages are of the same role and hold the same content.
pub open spec fn same_message(a: RequestMessage, b: RequestMessage) -> bool {
    match (a, b) {
        (RequestMessage::System(x), RequestMessage::System(y)) => x == y,
        (RequestMessage::User(UserContent::Text(x)), RequestMessage::User(UserContent::Text(y))) => x
            == y,
        (
            RequestMessage::User(UserContent::Array(x)),
            RequestMessage::User(UserContent::Array(y)),
        ) => x@ == y@,
        (RequestMessage::Assistant(x), RequestMessage::Assistant(y)) => x == y,
        (RequestMessage::Tool, RequestMessage::Tool) => true,
        (RequestMessage::Function, RequestMessage::Function) => true,
        _ => false,
    }
}

/// The two conversations hold the same messages in the same order.
pub open spec fn same_messages(a: Seq<RequestMessage>, b: Seq<RequestMessage>) -> bool {
    a.len() == b.len() && forall|i: int| 0 <= i < a.len() ==> same_message(a[i], #[trigger] b[i])
}

/// No parameter of the request is set.
pub open spec fn no_params(params: OAIRequestParams) -> bool {
    &&& params.frequency_penalty is None
    &&& params.max_tokens is None
    &&& params.presence_penalty is None
    &&& params.response_format is None
    &&& params.seed is None
    &&& params.stop@.len() == 0
    &&& params.temperature is None
    &&& params.top_p is None
    &&& params.user is None
}

/// A copy of a message.
pub fn copy_message(message: &RequestMessage) -> (r: RequestMessage)
    ensures
        same_message(*message, r),
{
    match message {
        RequestMessage::System(content) => RequestMessage::System(content.clone()),
        RequestMessage::User(UserContent::Text(text)) => RequestMessage::User(
            UserContent::Text(text.clone()),
        ),
        RequestMessage::User(UserContent::Array(parts)) => {
            let mut copies: Vec<ContentPart> = Vec::new();
            let mut i: usize = 0;
            while i < parts.len()
                invariant
                    i <= parts@.len(),
                    copies@ == parts@.take(i as int),
                decreases parts@.len() - i,
            {
                let part = match &parts[i] {
                    ContentPart::Text(text) => ContentPart::Text(text.clone()),
                    ContentPart::Image(url) => ContentPart::Image(url.clone()),
                };
                copies.push(part);
                assert(copies@ =~= parts@.take(i + 1));
                i += 1;
            }
            assert(parts@.take(parts@.len() as int) =~= parts@);
            RequestMessage::User(UserContent::Array(copies))
        },
        RequestMessage::Assistant(content) => RequestMessage::Assistant(
            match content {
                Some(text) => Some(text.clone()),
                None => None,
            },
        ),
        RequestMessage::Tool => RequestMessage::Tool,
        RequestMessage::Function => RequestMessage::Function,
    }
}

impl Interactive {
    /// A conversation that has not begun.
    pub fn new(alias: Alias) -> (session: Self)
        ensures
            session.alias == alias,
            session.history@.len() == 0,
            session.state == TurnState::Idle,
            session.reply@.len() == 0,
    {
        Interactive { alias, history: Vec::new(), state: TurnState::Idle, reply: String::new() }
    }

    /// The parameters with which the engine is loaded for this
    /// conversation: those of the alias's model file, as `service` holds
    /// it in the hub cache; `FileMissing` where the cache does not hold
    /// it, with the path and the home of `service`; and the error of
    /// `service` where the cache could not be read.
    pub fn load_params<S: AppServiceFn>(&self, service: &S) -> (r: Result<GptParams, AppError>)
        ensures
            match service.file_of(self.alias.repo@, self.alias.filename@, self.alias.snapshot@) {
                Err(e) => r == Err::<GptParams, AppError>(e),
                Ok(Some(file)) => r matches Ok(p) && loads(file, p),
                Ok(None) => r matches Err(AppError::FileMissing { filename, dirname }) && (
                    filename@,
                    dirname@,
                ) == missing_file_parts(
                    service.path_of(
                        self.alias.repo@,
                        self.alias.filename@,
                        self.alias.snapshot@,
                    ),
                    service.home(),
                ),
            },
    {
        let model = self.alias.model_lookup();
        let found = match service.find_local_file(
            &model.repo,
            model.filename.as_str(),
            model.snapshot.as_str(),
        ) {
            Ok(found) => found,
            Err(e) => {
                return Err(e);
            },
        };
        let path = service.model_file_path(
            &model.repo,
            model.filename.as_str(),
            model.snapshot.as_str(),
        );
        let home = service.hf_home();
        params_from(found, path.as_str(), home.as_str())
    }

    /// The request that a turn submits: for the alias of the conversation,
    /// streamed, with the history as it stands and no parameter set.
    pub fn request(&self) -> (r: ChatRequest)
        ensures
            r.model == self.alias.alias,
            r.stream == Some(true),
            same_messages(self.history@, r.messages@),
            no_params(r.params),
    {
        let mut messages: Vec<RequestMessage> = Vec::new();
        let mut i: usize = 0;
        while i < self.history.len()
            invariant
                i <= self.history@.len(),
                messages@.len() == i,
                forall|k: int| 0 <= k < i ==> same_message(self.history@[k], #[trigger] messages@[k]),
            decreases self.history@.len() - i,
        {
            messages.push(copy_message(&self.history[i]));
            i += 1;
        }
        ChatRequest {
            model: self.alias.alias.clone(),
            messages,
            stream: Some(true),
            params: OAIRequestParams {
                frequency_penalty: None,
                max_tokens: None,
                presence_penalty: None,
                response_format: None,
                seed: None,
                stop: Vec::new(),
                temperature: None,
                top_p: None,
                user: None,
            },
        }
    }

    /// Takes one event and says what to do next. An event that does not
    /// belong to the state, and any failure, brings the conversation back
    /// to `Idle` with the history as it was.
    pub fn step(&mut self, event: TurnEvent) -> (action: TurnAction)
        ensures
            action == next_action(old(self).state, event),
            final(self).state == next_state(old(self).state, event),
            final(self).history@ == next_history(
                old(self).state,
                old(self).history@,
                old(self).reply,
                event,
            ),
            final(self).reply@ == next_reply(old(self).state, old(self).reply@, event),
            final(self).alias == old(self).alias,
    {
        let state = self.state;
        match event {
            TurnEvent::Prompted => {
                self.reply = String::new();
                if state == TurnState::Idle {
                    self.state = TurnState::CollectingInput;
                    TurnAction::ReadLine
                } else {
                    self.state = TurnState::Idle;
                    TurnAction::Report
                }
            },
            TurnEvent::Line(line) => {
                self.reply = String::new();
                if state == TurnState::CollectingInput {
                    if same_text(line.as_str(), "/bye") {
                        self.state = TurnState::Idle;
                        TurnAction::Exit
                    } else {
                        self.history.push(RequestMessage::User(UserContent::Text(line)));
                        self.state = TurnState::Rendering;
                        TurnAction::Submit
                    }
                } else {
                    self.state = TurnState::Idle;
                    TurnAction::Report
                }
            },
            TurnEvent::Rendered => {
                self.reply = String::new();
                if state == TurnState::Rendering {
                    self.state = TurnState::Generating;
                    TurnAction::Await
                } else {
                    self.state = TurnState::Idle;
                    TurnAction::Report
                }
            },
            TurnEvent::Delta(text) => {
                if state == TurnState::Generating || state == TurnState::Streaming {
                    self.reply.append(text.as_str());
                    self.state = TurnState::Streaming;
                    TurnAction::Print
                } else {
                    self.reply = String::new();
                    self.state = TurnState::Idle;
                    TurnAction::Report
                }
            },
            TurnEvent::Finished => {
                if state == TurnState::Generating || state == TurnState::Streaming {
                    self.state = TurnState::AppendHistory;
                    TurnAction::Append
                } else {
                    self.reply = String::new();
                    self.state = TurnState::Idle;
                    TurnAction::Report
                }
            },
            TurnEvent::Appended => {
                if state == TurnState::AppendHistory {
                    let reply = self.reply.clone();
                    self.history.push(RequestMessage::Assistant(Some(reply)));
                    self.reply = String::new();
                    self.state = TurnState::Idle;
                    TurnAction::Prompt
                } else {
                    self.reply = String::new();
                    self.state = TurnState::Idle;
                    TurnAction::Report
                }
            },
            TurnEvent::Failed(_) => {
                self.reply = String::new();
                self.state = TurnState::Idle;
                TurnAction::Report
            },
        }
    }
}

/// The event that ends the generation of a turn: a failure where a chunk
/// could not be decoded or, else, where the pipeline ended with an error,
/// each with its message; the end of the stream otherwise.
pub fn turn_end(failure: Option<AppError>, outcome: Result<(), AppError>) -> (event: TurnEvent)
    ensures
        match (failure, outcome) {
            (Some(e), _) => event matches TurnEvent::Failed(m) && m@ == message_of(e),
            (None, Err(e)) => event matches TurnEvent::Failed(m) && m@ == message_of(e),
            (None, Ok(())) => event == TurnEvent::Finished,
        },
{
    match failure {
        Some(e) => TurnEvent::Failed(e.to_string()),
        None => match outcome {
            Err(e) => TurnEvent::Failed(e.to_string()),
            Ok(()) => TurnEvent::Finished,
        },
    }
}

/// The history never loses a turn: after any event it begins with what it
/// held before, and a failure leaves it as it was.
pub proof fn lemma_history_grows(
    state: TurnState,
    history: Seq<RequestMessage>,
    reply: String,
    event: TurnEvent,
)
    ensures
        history.is_prefix_of(next_history(state, history, reply, event)),
        !expected(state, event) ==> next_history(state, history, reply, event) == history
            && next_state(state, event) == TurnState::Idle,
        next_history(state, history, reply, event).len() <= history.len() + 1,
{
}

/// An assistant's turn enters the history only at the end of a turn that
/// ran through, and then it is the answer that was gathered.
pub proof fn lemma_assistant_only_on_success(
    state: TurnState,
    history: Seq<RequestMessage>,
    reply: String,
    event: TurnEvent,
)
    requires
        next_history(state, history, reply, event).len() == history.len() + 1,
        next_history(state, history, reply, event).last() is Assistant,
    ensures
        state == TurnState::AppendHistory,
        event == TurnEvent::Appended,
        next_history(state, history, reply, event).last() == RequestMessage::Assistant(Some(reply)),
{
}

} // verus!
