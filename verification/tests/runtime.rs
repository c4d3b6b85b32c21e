use bodhicore::chat::{
    answer, media_type, read_frame, single_response, sse_data, sse_events, stream_opening,
    ChunkRelay, FrameKind, SseStream,
};
use bodhicore::db::TimeService;
use bodhicore::error::AppError;
use async_openai::types::CreateChatCompletionStreamResponse;
use bodhicore::interactive::{delta_from, turn_end, TurnEvent};
use bodhicore::server::{
    ping, port_from_env_vars, run_shutdown, server_result, Server, ServerAction, ServerArgs,
    ServerEvent, ServerState, ShutdownCallback,
};
use bodhicore::shared_rw::{
    completion_outcome, is_same_engine, target_of, EngineCommand, GptParams, ReloadDecision,
    SharedContextRw,
};
use std::cell::Cell;

fn params(model: &str) -> GptParams {
    GptParams {
        model: model.to_string(),
        n_ctx: Some(2048),
        n_parallel: Some(1),
        n_threads: Some(4),
        seed: Some(42),
        n_predict: None,
    }
}

/// Runs a reload to its end, with every command succeeding, and counts
/// the initialisations.
fn reload(ctx: &mut SharedContextRw, target: &Option<GptParams>) -> (usize, usize) {
    let mut stops = 0;
    let mut inits = 0;
    while let Some(command) = ctx.reload(target) {
        match &command {
            EngineCommand::Stop => stops += 1,
            EngineCommand::Init(_) => inits += 1,
        }
        ctx.record(command, Ok(())).unwrap();
        assert_eq!(ctx.has_model(), ctx.get_gpt_params().is_some());
        assert!(stops + inits <= 2);
    }
    (stops, inits)
}

#[test]
fn test_shared_rw_new_with_initial_params() {
    let (mut ctx, command) = SharedContextRw::new(Some(params("a.gguf")));
    assert!(!ctx.has_model());
    assert_eq!(Some(EngineCommand::Init(params("a.gguf"))), command);
    ctx.record(command.unwrap(), Ok(())).unwrap();
    assert_eq!(Some(params("a.gguf")), ctx.get_gpt_params());
    let (ctx, command) = SharedContextRw::new(Some(params("a.gguf")));
    let mut ctx = ctx;
    assert_eq!(
        Err(AppError::EngineInit("no such file".to_string())),
        ctx.record(command.unwrap(), Err("no such file".to_string()))
    );
    assert!(!ctx.has_model());
}

#[test]
fn test_shared_rw_starts_empty() {
    let (ctx, command) = SharedContextRw::new(None);
    assert_eq!(None, command);
    assert!(!ctx.has_model());
    assert_eq!(None, ctx.get_gpt_params());
    assert_eq!(None, ctx.try_stop());
    assert_eq!(None, ctx.reload(&None));
    assert_eq!(Err(AppError::EngineNotLoaded), ctx.completion());
    assert_eq!(503, AppError::EngineNotLoaded.status());
}

#[test]
fn test_shared_rw_has_model_agrees_with_params() {
    let mut ctx = SharedContextRw::new(None).0;
    let targets = vec![
        Some(params("a.gguf")),
        Some(params("a.gguf")),
        None,
        Some(params("b.gguf")),
        Some(params("c.gguf")),
        None,
        None,
    ];
    for target in targets {
        reload(&mut ctx, &target);
        assert_eq!(ctx.has_model(), ctx.get_gpt_params().is_some());
        assert_eq!(target, ctx.get_gpt_params());
        assert_eq!(ctx.has_model(), ctx.completion().is_ok());
    }
}

#[test]
fn test_shared_rw_reload_table() {
    let mut ctx = SharedContextRw::new(None).0;
    assert_eq!((0, 1), reload(&mut ctx, &Some(params("a.gguf"))));
    assert_eq!((0, 0), reload(&mut ctx, &Some(params("a.gguf"))));
    assert_eq!((1, 1), reload(&mut ctx, &Some(params("b.gguf"))));
    assert_eq!((1, 0), reload(&mut ctx, &None));
    assert_eq!((0, 0), reload(&mut ctx, &None));
}

#[test]
fn test_shared_rw_two_equal_reloads_init_once() {
    for start in [None, Some(params("other.gguf")), Some(params("a.gguf"))] {
        let mut ctx = SharedContextRw::new(None).0;
        reload(&mut ctx, &start);
        let (_, first) = reload(&mut ctx, &Some(params("a.gguf")));
        let (stops, second) = reload(&mut ctx, &Some(params("a.gguf")));
        assert!(first + second <= 1);
        assert_eq!((0, 0), (stops, second));
    }
}

#[test]
fn test_shared_rw_identity_ignores_n_predict() {
    let a = params("a.gguf");
    let mut b = params("a.gguf");
    b.n_predict = Some(128);
    assert!(is_same_engine(&a, &b));
    let mut c = params("a.gguf");
    c.seed = Some(7);
    assert!(!is_same_engine(&a, &c));
    let mut d = params("a.gguf");
    d.n_ctx = None;
    assert!(!is_same_engine(&a, &d));
    assert!(!is_same_engine(&a, &params("b.gguf")));
}

#[test]
fn test_shared_rw_decision_table() {
    let mut ctx = SharedContextRw::new(None).0;
    assert_eq!(ReloadDecision::NotLoaded, ctx.decide(None));
    assert_eq!(ReloadDecision::Init(params("a.gguf")), ctx.decide(Some(params("a.gguf"))));
    reload(&mut ctx, &Some(params("a.gguf")));
    assert_eq!(ReloadDecision::Noop, ctx.decide(Some(params("a.gguf"))));
    assert_eq!(ReloadDecision::Noop, ctx.decide(None));
    assert_eq!(ReloadDecision::StopInit(params("b.gguf")), ctx.decide(Some(params("b.gguf"))));
    assert_eq!(Err(AppError::EngineNotLoaded), target_of(ReloadDecision::NotLoaded, None));
    assert_eq!(
        Ok(Some(params("a.gguf"))),
        target_of(ReloadDecision::Noop, Some(params("a.gguf")))
    );
    assert_eq!(
        Ok(Some(params("b.gguf"))),
        target_of(ReloadDecision::StopInit(params("b.gguf")), Some(params("a.gguf")))
    );
}

#[test]
fn test_shared_rw_engine_failures() {
    let mut ctx = SharedContextRw::new(None).0;
    let command = ctx.reload(&Some(params("a.gguf"))).unwrap();
    let result = ctx.record(command, Err("out of memory".to_string()));
    assert_eq!(Err(AppError::EngineInit("out of memory".to_string())), result);
    assert!(!ctx.has_model());
    assert_eq!(500, AppError::EngineInit(String::new()).status());
    reload(&mut ctx, &Some(params("a.gguf")));
    let command = ctx.try_stop().unwrap();
    assert_eq!(EngineCommand::Stop, command);
    let result = ctx.record(command, Err("busy".to_string()));
    assert_eq!(Err(AppError::EngineStop("busy".to_string())), result);
    assert_eq!(Some(params("a.gguf")), ctx.get_gpt_params());
    assert_eq!("engine failed to stop: busy", result.unwrap_err().to_string());
    assert_eq!(
        Err(AppError::EngineCompletion("bad json".to_string())),
        completion_outcome(Err("bad json".to_string()))
    );
    assert_eq!(Ok(()), completion_outcome(Ok(())));
}

const ANSWER: &str = r#"{"id":"testid","model":"testalias:instruct","choices":[{"index":0,"message":{"role":"assistant","content":"The day that comes after Monday is Tuesday."}}],"created":1704067200,"object":"chat.completion"}"#;

#[test]
fn test_routes_chat_completions_non_stream() {
    let frame = format!("data: {ANSWER}\n\n");
    let (status, body) = single_response(Some(frame)).unwrap();
    assert_eq!(200, status);
    assert_eq!(ANSWER, body);
    assert_eq!("application/json", media_type(false));
    assert_eq!("text/event-stream", media_type(true));
    let parsed: serde_json::Value = serde_json::from_str(&body).unwrap();
    assert_eq!(
        "The day that comes after Monday is Tuesday.",
        parsed.pointer("/choices/0/message/content").unwrap().as_str().unwrap()
    );
    let (status, body) = single_response(Some(ANSWER.to_string())).unwrap();
    assert_eq!(200, status);
    assert_eq!(ANSWER, body);
}

#[test]
fn test_single_response_error_frame_and_closed_channel() {
    let frame = "error: {\"message\":\"context overflow\"}\n\n".to_string();
    assert_eq!(
        Ok((500, "{\"message\":\"context overflow\"}".to_string())),
        single_response(Some(frame))
    );
    let closed = single_response(None).unwrap_err();
    assert_eq!(AppError::InternalServer("receiver stream abruptly closed".to_string()), closed);
    assert_eq!(500, closed.status());
    assert_eq!("internal_server_error", closed.error_type());
}

fn delta_frames() -> Vec<String> {
    let mut frames = Vec::new();
    let values =
        [" ", " After", " Monday", ",", " the", " next", " day", " is", " T", "ues", "day", "."];
    for (i, value) in values.iter().enumerate() {
        frames.push(format!(
            "data: {{\"id\":\"testid-{i}\",\"model\":\"testalias:instruct\",\"choices\":[{{\"index\":0,\"delta\":{{\"role\":\"assistant\",\"content\":\"{value}\"}}}}],\"created\":1704067200,\"object\":\"chat.completion.chunk\"}}\n\n"
        ));
    }
    let end_delta = r#"{"choices":[{"finish_reason":"stop","index":0,"delta":{}}],"created":1717317061,"id":"chatcmpl-Twf1ixroh9WzY9Pvm4IGwNF4kB4EjTp4","model":"llama2:chat","object":"chat.completion.chunk","usage":{"completion_tokens":13,"prompt_tokens":15,"total_tokens":28}}"#;
    frames.push(format!("data: {end_delta}\n\n"));
    frames
}

#[test]
fn test_routes_chat_completions_stream() {
    let frames = delta_frames();
    let events = sse_events(&frames);
    assert_eq!(frames.len(), events.len());
    let mut content = String::new();
    for (i, event) in events.iter().enumerate() {
        assert_eq!(&frames[i][6..frames[i].len() - 2], event);
        let parsed: serde_json::Value = serde_json::from_str(event).unwrap();
        if i < 12 {
            assert_eq!(format!("testid-{i}"), parsed["id"].as_str().unwrap());
        }
        content.push_str(parsed.pointer("/choices/0/delta/content").and_then(|v| v.as_str()).unwrap_or_default());
    }
    assert_eq!("  After Monday, the next day is Tuesday.", content);
    let mut joined = String::new();
    for frame in &frames {
        joined.push_str(&delta(frame).unwrap());
    }
    assert_eq!("  After Monday, the next day is Tuesday.", joined);
}

#[test]
fn test_read_frame() {
    assert_eq!((FrameKind::Data, "{}".to_string()), read_frame("data: {}\n\n"));
    assert_eq!((FrameKind::Data, "[DONE]".to_string()), read_frame("data: [DONE]\n\n"));
    assert_eq!((FrameKind::Error, "{}".to_string()), read_frame("error: {}\n\n"));
    assert_eq!((FrameKind::Data, "{}".to_string()), read_frame("data: {}"));
    assert_eq!((FrameKind::Data, "{}\n".to_string()), read_frame("data: {}\n"));
    assert_eq!((FrameKind::Data, "a\n\nb".to_string()), read_frame("data: a\n\nb\n\n"));
    assert_eq!((FrameKind::Data, "".to_string()), read_frame("data: "));
    assert_eq!((FrameKind::Unknown, "data:{}\n\n".to_string()), read_frame("data:{}\n\n"));
    assert_eq!((FrameKind::Unknown, "ping\n\n".to_string()), read_frame("ping\n\n"));
    assert_eq!((FrameKind::Unknown, "".to_string()), read_frame(""));
    assert_eq!("é".to_string(), sse_data("data: é\n\n"));
}

fn first_delta(payload: &str) -> Result<Option<String>, String> {
    match serde_json::from_str::<CreateChatCompletionStreamResponse>(payload) {
        Ok(response) => Ok(response.choices.into_iter().next().and_then(|c| c.delta.content)),
        Err(err) => Err(err.to_string()),
    }
}

fn delta(chunk: &str) -> Result<String, AppError> {
    let (kind, payload) = read_frame(chunk);
    let found = first_delta(&payload);
    delta_from(kind, payload, found)
}

#[test]
fn test_delta_from() {
    let payload = || "{}".to_string();
    assert_eq!(
        Ok("hi".to_string()),
        delta_from(FrameKind::Data, payload(), Ok(Some("hi".to_string())))
    );
    assert_eq!(Ok(String::new()), delta_from(FrameKind::Data, payload(), Ok(None)));
    assert_eq!(
        Ok("x".to_string()),
        delta_from(FrameKind::Unknown, payload(), Ok(Some("x".to_string())))
    );
    assert_eq!(
        Err(AppError::Json { source: "no id".to_string(), value: "{}".to_string() }),
        delta_from(FrameKind::Data, payload(), Err("no id".to_string()))
    );
    assert_eq!(
        Ok(String::new()),
        delta_from(FrameKind::Data, "[DONE]".to_string(), Err("expected value".to_string()))
    );
    assert_eq!(
        Err(AppError::EngineCompletion("{}".to_string())),
        delta_from(FrameKind::Error, payload(), Ok(Some("ignored".to_string())))
    );
    assert_eq!(
        Err(AppError::EngineCompletion("[DONE]".to_string())),
        delta_from(FrameKind::Error, "[DONE]".to_string(), Ok(None))
    );
}

#[test]
fn test_delta_of_chunks() {
    let chunk = |delta: &str| {
        format!(
            "data: {{\"id\":\"c1\",\"model\":\"m\",\"object\":\"chat.completion.chunk\",\"created\":1,\"choices\":[{{\"index\":0,\"delta\":{delta}}}]}}\n\n"
        )
    };
    assert_eq!(Ok("hi".to_string()), delta(&chunk("{\"content\":\"hi\"}")));
    assert_eq!(Ok(String::new()), delta(&chunk("{}")));
    assert_eq!(Ok(String::new()), delta("data: [DONE]\n\n"));
    assert_eq!(
        Err(AppError::EngineCompletion("{\"message\":\"boom\"}".to_string())),
        delta("error: {\"message\":\"boom\"}\n\n")
    );
    assert!(matches!(delta("data: {not json\n\n"), Err(AppError::Json { .. })));
    assert!(matches!(
        delta("data: {\"choices\":[{\"delta\":{\"content\":\"hi\"}}]}\n\n"),
        Err(AppError::Json { .. })
    ));
}

#[test]
fn test_chunk_relay_stops_after_failed_delivery() {
    let mut relay = ChunkRelay::new();
    let mut sent = 0;
    for taken in [true, true, false, true, true] {
        if relay.forwards() {
            sent += 1;
            relay.delivered(taken);
        }
    }
    assert_eq!(3, sent);
    assert!(!relay.forwards());
}

struct Flag {
    called: Cell<bool>,
}

impl ShutdownCallback for Flag {
    fn shutdown(&self) {
        self.called.set(true);
    }
}

#[test]
fn test_server_start_stop_with_callback() {
    let host = "localhost".to_string();
    let port: u16 = 65535;
    let mut server = Server::new(&host, port);
    assert_eq!("localhost:65535", server.addr());
    assert_eq!(ServerAction::Bind, server.step(&ServerEvent::Start));
    assert_eq!(ServerAction::Ready, server.step(&ServerEvent::Bound));
    assert_eq!(ServerState::Listening, server.state);
    assert_eq!((200, "pong"), ping());
    let callback = Some(Flag { called: Cell::new(false) });
    assert_eq!(ServerAction::Callback, server.step(&ServerEvent::Shutdown));
    assert!(run_shutdown(&callback));
    assert!(callback.as_ref().unwrap().called.get());
    assert_eq!(ServerAction::Ignore, server.step(&ServerEvent::Shutdown));
    assert_eq!(ServerAction::Finish, server.step(&ServerEvent::Served));
    assert_eq!(ServerState::Stopped, server.state);
    assert_eq!(Ok(()), server_result(ServerEvent::Served));
    assert_eq!(ServerAction::Ignore, server.step(&ServerEvent::Start));
    assert_eq!(ServerState::Stopped, server.state);
    assert!(!run_shutdown(&None::<Flag>));
}

#[test]
fn test_server_bind_failure() {
    let mut server = Server::new("0.0.0.0", 80);
    assert_eq!("0.0.0.0:80", server.addr());
    assert_eq!(ServerAction::Ignore, server.step(&ServerEvent::Bound));
    assert_eq!(ServerState::Created, server.state);
    assert_eq!(ServerAction::Bind, server.step(&ServerEvent::Start));
    let failed = ServerEvent::BindFailed("address in use".to_string());
    assert_eq!(ServerAction::Fail, server.step(&failed));
    assert_eq!(ServerState::Stopped, server.state);
    assert_eq!(
        Err(AppError::InternalServer("address in use".to_string())),
        server_result(failed)
    );
}

#[test]
fn test_serve_fails_if_model_does_not_exist() {
    let result = ServerArgs::resolve(None, None, None, "non-existent-model".to_string(), false);
    assert!(result.is_err());
    assert_eq!(
        result.unwrap_err().to_string(),
        "model file does not exist at location: 'non-existent-model'"
    );
}

#[test]
fn test_server_args_resolve() {
    let args = ServerArgs::resolve(None, None, None, "m.gguf".to_string(), true).unwrap();
    assert_eq!(
        ServerArgs {
            host: "127.0.0.1".to_string(),
            port: 1135,
            model: "m.gguf".to_string(),
            lazy_load_model: false
        },
        args
    );
    let args = ServerArgs::resolve(
        Some("0.0.0.0".to_string()),
        None,
        Some("8080".to_string()),
        "m.gguf".to_string(),
        true,
    )
    .unwrap();
    assert_eq!(("0.0.0.0", 8080), (args.host.as_str(), args.port));
    let args = ServerArgs::resolve(None, Some(9), Some("8080".to_string()), "m".to_string(), true);
    assert_eq!(9, args.unwrap().port);
    assert_eq!(1135, port_from_env_vars(None));
    assert_eq!(1135, port_from_env_vars(Some("http".to_string())));
    assert_eq!(1135, port_from_env_vars(Some("65536".to_string())));
    assert_eq!(65535, port_from_env_vars(Some("65535".to_string())));
    assert_eq!(0, port_from_env_vars(Some("0".to_string())));
}

#[test]
fn test_ping() {
    assert_eq!((200, "pong"), ping());
}

#[test]
fn test_chat_completions_answers_with_the_pipeline_error() {
    let missing = || AppError::AliasNotFound("missing:alias".to_string());
    for streamed in [false, true] {
        let err = if streamed {
            stream_opening(None, Err(missing())).unwrap_err()
        } else {
            answer(None, Err(missing())).unwrap_err()
        };
        assert_eq!(missing(), err);
        assert_eq!(404, err.status());
        assert_eq!(
            r#"{"error":{"message":"alias 'missing:alias' not found","type":"not_found_error"}}"#,
            err.body()
        );
        let parsed: serde_json::Value = serde_json::from_str(&err.body()).unwrap();
        assert_eq!(
            "alias 'missing:alias' not found",
            parsed["error"]["message"].as_str().unwrap()
        );
    }
}

#[test]
fn test_answer_and_stream_opening() {
    let chunk = "data: {}\n\n".to_string();
    assert_eq!(Ok((200, "{}".to_string())), answer(Some(chunk.clone()), Ok(())));
    assert_eq!(
        Ok((200, "{}".to_string())),
        answer(Some(chunk.clone()), Err(AppError::EngineNotLoaded))
    );
    assert_eq!(
        Ok((500, "{}".to_string())),
        answer(Some("error: {}\n\n".to_string()), Ok(()))
    );
    assert_eq!(Err(AppError::EngineNotLoaded), answer(None, Err(AppError::EngineNotLoaded)));
    assert_eq!(
        Err(AppError::InternalServer("receiver stream abruptly closed".to_string())),
        answer(None, Ok(()))
    );
    assert_eq!(Ok(Some(chunk.clone())), stream_opening(Some(chunk.clone()), Ok(())));
    assert_eq!(
        Ok(Some(chunk.clone())),
        stream_opening(Some(chunk), Err(AppError::EngineNotLoaded))
    );
    assert_eq!(Ok(None), stream_opening(None, Ok(())));
    assert_eq!(
        Err(AppError::TemplateMissing),
        stream_opening(None, Err(AppError::TemplateMissing))
    );
}

#[test]
fn test_turn_end() {
    assert_eq!(TurnEvent::Finished, turn_end(None, Ok(())));
    assert_eq!(
        TurnEvent::Failed("model is not loaded".to_string()),
        turn_end(None, Err(AppError::EngineNotLoaded))
    );
    assert_eq!(
        TurnEvent::Failed("engine failed during completion: x".to_string()),
        turn_end(Some(AppError::EngineCompletion("x".to_string())), Ok(()))
    );
    assert_eq!(
        TurnEvent::Failed("engine failed during completion: x".to_string()),
        turn_end(
            Some(AppError::EngineCompletion("x".to_string())),
            Err(AppError::EngineNotLoaded)
        )
    );
}

#[test]
fn test_time_service_utc_now() {
    assert_eq!((1704067200, 0), TimeService.utc_now(1704067200, 999_999_999));
    assert_eq!((1704067200, 0), TimeService.utc_now(1704067200, 0));
    assert_eq!((-1, 0), TimeService.utc_now(-1, 5));
}

#[test]
fn test_sse_stream_closes_after_error_frame() {
    let chunks = vec![
        "data: {\"a\":1}\n\n".to_string(),
        "error: {\"message\":\"boom\"}\n\n".to_string(),
        "data: {\"a\":2}\n\n".to_string(),
    ];
    assert_eq!(vec!["{\"a\":1}", "{\"message\":\"boom\"}"], sse_events(&chunks));
    assert_eq!(Vec::<String>::new(), sse_events(&Vec::new()));
    let mut stream = SseStream::new();
    assert_eq!(Some("x".to_string()), stream.event("data: x\n\n"));
    assert_eq!(Some("[DONE]".to_string()), stream.event("data: [DONE]\n\n"));
    assert_eq!(Some("plain".to_string()), stream.event("plain"));
    assert!(!stream.closed);
    assert_eq!(Some("e".to_string()), stream.event("error: e\n\n"));
    assert!(stream.closed);
    assert_eq!(None, stream.event("data: y\n\n"));
    assert_eq!(None, stream.event("error: z\n\n"));
}
