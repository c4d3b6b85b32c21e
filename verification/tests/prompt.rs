use bodhicore::error::AppError;
use bodhicore::tokenizer_config::{
    flatten_messages, raise_exception, token_content, ChatMessage, ChatTemplate,
    ChatTemplateVersions, ContentPart, RequestMessage, TokenizerConfig, UserContent,
};

const LLAMA3: &str = "{% set loop_messages = messages %}{% for message in loop_messages %}{% set content = '<|start_header_id|>' + message['role'] + '<|end_header_id|>\n\n'+ message['content'] | trim + '<|eot_id|>' %}{% if loop.index0 == 0 %}{% set content = bos_token + content %}{% endif %}{{ content }}{% endfor %}{% if add_generation_prompt %}{{ '<|start_header_id|>assistant<|end_header_id|>\n\n' }}{% endif %}";

fn llama3() -> TokenizerConfig {
    TokenizerConfig::new(
        Some(ChatTemplateVersions::Single(LLAMA3.to_string())),
        Some("<|begin_of_text|>".to_string()),
        Some("<|eot_id|>".to_string()),
    )
}

fn single(template: &str) -> TokenizerConfig {
    TokenizerConfig::new(
        Some(ChatTemplateVersions::Single(template.to_string())),
        Some("<s>".to_string()),
        Some("</s>".to_string()),
    )
}

#[test]
fn test_apply_chat_template_llama3_simple() {
    let messages = vec![ChatMessage::new("user".to_string(), "What is 2+2?".to_string())];
    let prompt = llama3().apply_chat_template(&messages).unwrap();
    assert_eq!(
        "<|begin_of_text|><|start_header_id|>user<|end_header_id|>\n\nWhat is 2+2?<|eot_id|><|start_header_id|>assistant<|end_header_id|>\n\n",
        prompt
    );
}

#[test]
fn test_apply_chat_template_llama3_convo() {
    let messages = vec![
        ChatMessage::new("system".to_string(), "You are a helpful assistant.".to_string()),
        ChatMessage::new("user".to_string(), "  padded  ".to_string()),
        ChatMessage::new("assistant".to_string(), "4".to_string()),
        ChatMessage::new("user".to_string(), "And 3+3?".to_string()),
    ];
    let prompt = llama3().apply_chat_template(&messages).unwrap();
    assert_eq!(
        "<|begin_of_text|><|start_header_id|>system<|end_header_id|>\n\nYou are a helpful assistant.<|eot_id|>\
<|start_header_id|>user<|end_header_id|>\n\npadded<|eot_id|>\
<|start_header_id|>assistant<|end_header_id|>\n\n4<|eot_id|>\
<|start_header_id|>user<|end_header_id|>\n\nAnd 3+3?<|eot_id|>\
<|start_header_id|>assistant<|end_header_id|>\n\n",
        prompt
    );
}

#[test]
fn test_apply_chat_template_tokens_and_generation_flag() {
    let config = single(
        "{{ bos_token }}{% for message in messages %}{{ message['role'] }}: {{ message['content'] }}\n{% endfor %}{% if add_generation_prompt %}go{% endif %}{{ eos_token }}",
    );
    let messages = vec![
        ChatMessage::new("user".to_string(), "hi".to_string()),
        ChatMessage::new("assistant".to_string(), "hello".to_string()),
    ];
    assert_eq!(
        "<s>user: hi\nassistant: hello\ngo</s>",
        config.apply_chat_template(&messages).unwrap()
    );
}

#[test]
fn test_apply_chat_template_rewrites_strip_and_title() {
    let config = single("{{ messages[0]['content'].strip() }}|{{ messages[0]['role'].title() }}");
    let messages = vec![ChatMessage::new("user".to_string(), "  hello world \n".to_string())];
    assert_eq!("hello world|User", config.apply_chat_template(&messages).unwrap());
}

#[test]
fn test_apply_chat_template_missing_template() {
    let config = TokenizerConfig::default();
    let result = config.apply_chat_template(&vec![ChatMessage::new(
        "user".to_string(),
        "hi".to_string(),
    )]);
    assert_eq!(Err(AppError::TemplateMissing), result);
    assert_eq!(
        "chat_template not found in tokenizer_config.json",
        result.unwrap_err().to_string()
    );
}

#[test]
fn test_apply_chat_template_picks_default_of_several() {
    let config = TokenizerConfig::new(
        Some(ChatTemplateVersions::Multiple(vec![
            ChatTemplate { name: "tool_use".to_string(), template: "tool".to_string() },
            ChatTemplate { name: "default".to_string(), template: "first {{ eos_token }}".to_string() },
            ChatTemplate { name: "default".to_string(), template: "second".to_string() },
        ])),
        None,
        Some("</s>".to_string()),
    );
    assert_eq!("first </s>", config.apply_chat_template(&Vec::new()).unwrap());
    let config = TokenizerConfig::new(
        Some(ChatTemplateVersions::Multiple(vec![ChatTemplate {
            name: "rag".to_string(),
            template: "rag".to_string(),
        }])),
        None,
        None,
    );
    assert_eq!(Err(AppError::TemplateMissing), config.apply_chat_template(&Vec::new()));
}

#[test]
fn test_apply_chat_template_raise_exception() {
    let config = single(
        "{% for message in messages %}{% if message['role'] != 'user' %}{{ raise_exception('Conversation roles must alternate user/assistant/user/assistant/...') }}{% endif %}{% endfor %}ok",
    );
    let ok = vec![ChatMessage::new("user".to_string(), "hi".to_string())];
    assert_eq!("ok", config.apply_chat_template(&ok).unwrap());
    let bad = vec![ChatMessage::new("tool".to_string(), "hi".to_string())];
    let err = config.apply_chat_template(&bad).unwrap_err();
    assert!(matches!(err, AppError::TemplateRender(_)));
    assert_eq!(400, err.status());
    assert!(err.to_string().starts_with(
        "syntax error: Conversation roles must alternate user/assistant/user/assistant/... (in <string>:"
    ));
}

#[test]
fn test_apply_chat_template_syntax_error() {
    let err = single("{% for %}").apply_chat_template(&Vec::new()).unwrap_err();
    assert!(matches!(err, AppError::TemplateRender(_)));
    assert!(err.to_string().starts_with("syntax error: "));
}

#[test]
fn test_raise_exception_always_fails() {
    let err = raise_exception("no".to_string()).unwrap_err();
    assert_eq!("syntax error: no", err.to_string());
    assert_eq!(minijinja::ErrorKind::SyntaxError, err.kind());
}

#[test]
fn test_chat_message_from_request() {
    let system = RequestMessage::System("be brief".to_string());
    assert_eq!(
        Ok(ChatMessage::new("system".to_string(), "be brief".to_string())),
        ChatMessage::from_request(&system)
    );
    let user = RequestMessage::User(UserContent::Text("hi".to_string()));
    assert_eq!(
        Ok(ChatMessage::new("user".to_string(), "hi".to_string())),
        ChatMessage::from_request(&user)
    );
    let parts = RequestMessage::User(UserContent::Array(vec![
        ContentPart::Text("What".to_string()),
        ContentPart::Text(" is".to_string()),
        ContentPart::Text(" this?".to_string()),
    ]));
    assert_eq!(
        Ok(ChatMessage::new("user".to_string(), "What is this?".to_string())),
        ChatMessage::from_request(&parts)
    );
    let empty = RequestMessage::User(UserContent::Array(Vec::new()));
    assert_eq!(
        Ok(ChatMessage::new("user".to_string(), String::new())),
        ChatMessage::from_request(&empty)
    );
    let assistant = RequestMessage::Assistant(None);
    assert_eq!(
        Ok(ChatMessage { role: Some("assistant".to_string()), content: None }),
        ChatMessage::from_request(&assistant)
    );
}

#[test]
fn test_chat_message_from_request_unsupported() {
    let image = RequestMessage::User(UserContent::Array(vec![
        ContentPart::Text("look".to_string()),
        ContentPart::Image("http://example.com/cat.png".to_string()),
    ]));
    assert_eq!(Err(AppError::UnsupportedContent), ChatMessage::from_request(&image));
    assert_eq!(Err(AppError::UnsupportedRole), ChatMessage::from_request(&RequestMessage::Tool));
    assert_eq!(
        Err(AppError::UnsupportedRole),
        ChatMessage::from_request(&RequestMessage::Function)
    );
    assert_eq!(400, AppError::UnsupportedContent.status());
    assert_eq!(400, AppError::UnsupportedRole.status());
}

#[test]
fn test_flatten_messages_keeps_order_and_stops_at_first_error() {
    let messages = vec![
        RequestMessage::System("s".to_string()),
        RequestMessage::User(UserContent::Text("u".to_string())),
        RequestMessage::Assistant(Some("a".to_string())),
    ];
    assert_eq!(
        Ok(vec![
            ChatMessage::new("system".to_string(), "s".to_string()),
            ChatMessage::new("user".to_string(), "u".to_string()),
            ChatMessage::new("assistant".to_string(), "a".to_string()),
        ]),
        flatten_messages(&messages)
    );
    let messages = vec![
        RequestMessage::User(UserContent::Array(vec![ContentPart::Image("x".to_string())])),
        RequestMessage::Tool,
    ];
    assert_eq!(Err(AppError::UnsupportedContent), flatten_messages(&messages));
}

const LLAMA2: &str = "{% if messages[0]['role'] == 'system' %}{% set loop_messages = messages[1:] %}{% set system_message = messages[0]['content'] %}{% else %}{% set loop_messages = messages %}{% set system_message = false %}{% endif %}{% for message in loop_messages %}{% if (message['role'] == 'user') != (loop.index0 % 2 == 0) %}{{ raise_exception('Conversation roles must alternate user/assistant/user/assistant/...') }}{% endif %}{% if loop.index0 == 0 and system_message != false %}{% set content = '<<SYS>>\\n' + system_message + '\\n<</SYS>>\\n\\n' + message['content'] %}{% else %}{% set content = message['content'] %}{% endif %}{% if message['role'] == 'user' %}{{ bos_token + '[INST] ' + content.strip() + ' [/INST]' }}{% elif message['role'] == 'assistant' %}{{ ' '  + content.strip() + ' ' + eos_token }}{% endif %}{% endfor %}";

const GEMMA: &str = "{{ bos_token }}{% if messages[0]['role'] == 'system' %}{{ raise_exception('System role not supported') }}{% endif %}{% for message in messages %}{% if (message['role'] == 'user') != (loop.index0 % 2 == 0) %}{{ raise_exception('Conversation roles must alternate user/assistant/user/assistant/...') }}{% endif %}{% if (message['role'] == 'assistant') %}{% set role = 'model' %}{% else %}{% set role = message['role'] %}{% endif %}{{ '<start_of_turn>' + role + '\n' + message['content'] | trim + '<end_of_turn>\n' }}{% endfor %}{% if add_generation_prompt %}{{'<start_of_turn>model\n'}}{% endif %}";

fn config(template: &str, bos: &str, eos: &str) -> TokenizerConfig {
    TokenizerConfig::new(
        Some(ChatTemplateVersions::Single(template.to_string())),
        Some(bos.to_string()),
        Some(eos.to_string()),
    )
}

fn conversation(turns: &[(&str, &str)]) -> Vec<ChatMessage> {
    turns.iter().map(|(role, content)| ChatMessage::new(role.to_string(), content.to_string())).collect()
}

#[test]
fn test_apply_chat_template_llama2() {
    let llama2 = config(LLAMA2, "<s>", "</s>");
    assert_eq!(
        "<s>[INST] What is 2+2? [/INST]",
        llama2.apply_chat_template(&conversation(&[("user", " What is 2+2? ")])).unwrap()
    );
    assert_eq!(
        "<s>[INST] <<SYS>>\nYou are helpful.\n<</SYS>>\n\nWhat is 2+2? [/INST]",
        llama2
            .apply_chat_template(&conversation(&[
                ("system", "You are helpful."),
                ("user", "What is 2+2?")
            ]))
            .unwrap()
    );
    assert_eq!(
        "<s>[INST] What is 2+2? [/INST] 4 </s><s>[INST] And 3+3? [/INST]",
        llama2
            .apply_chat_template(&conversation(&[
                ("user", "What is 2+2?"),
                ("assistant", "4"),
                ("user", "And 3+3?")
            ]))
            .unwrap()
    );
    for refused in [
        conversation(&[("assistant", "4"), ("user", "And 3+3?")]),
        conversation(&[("system", "s"), ("user", "a"), ("user", "b")]),
        conversation(&[("tool", "4")]),
    ] {
        let err = llama2.apply_chat_template(&refused).unwrap_err();
        assert!(err.to_string().starts_with(
            "syntax error: Conversation roles must alternate user/assistant/user/assistant/... (in <string>:"
        ));
    }
}

#[test]
fn test_apply_chat_template_gemma() {
    let gemma = config(GEMMA, "<bos>", "<eos>");
    assert_eq!(
        "<bos><start_of_turn>user\nWhat is 2+2?<end_of_turn>\n<start_of_turn>model\n",
        gemma.apply_chat_template(&conversation(&[("user", "What is 2+2?")])).unwrap()
    );
    assert_eq!(
        "<bos><start_of_turn>user\nHi<end_of_turn>\n<start_of_turn>model\nHello<end_of_turn>\n<start_of_turn>user\nBye<end_of_turn>\n<start_of_turn>model\n",
        gemma
            .apply_chat_template(&conversation(&[
                ("user", "Hi"),
                ("assistant", " Hello "),
                ("user", "Bye")
            ]))
            .unwrap()
    );
    let err = gemma
        .apply_chat_template(&conversation(&[("system", "s"), ("user", "a")]))
        .unwrap_err();
    assert!(err.to_string().starts_with("syntax error: System role not supported (in <string>:"));
}

const PHI3: &str = "{{ bos_token }}{% for message in messages %}{% if (message['role'] == 'user') %}{{'<|user|>' + '\n' + message['content'] + '<|end|>' + '\n' + '<|assistant|>' + '\n'}}{% elif (message['role'] == 'assistant') %}{{message['content'] + '<|end|>' + '\n'}}{% endif %}{% endfor %}";

const DEEPSEEK: &str = "{% if not add_generation_prompt is defined %}{% set add_generation_prompt = false %}{% endif %}{{ bos_token }}{% for message in messages %}{% if message['role'] == 'user' %}{{ 'User: ' + message['content'] + '\n\n' }}{% elif message['role'] == 'assistant' %}{{ 'Assistant: ' + message['content'] + eos_token }}{% elif message['role'] == 'system' %}{{ message['content'] + '\n\n' }}{% endif %}{% endfor %}{% if add_generation_prompt %}{{ 'Assistant:' }}{% endif %}";

const OPENCHAT: &str = "{{ bos_token }}{% for message in messages %}{% if message['role'] in ['user', 'assistant'] %}{% set content = '<|start_header_id|>GPT4 Correct ' + message['role'].title() + '<|end_header_id|>\n\n' + message['content'] | trim + '<|eot_id|>' %}{% elif message['role'] == 'system' %}{% set content = '<|start_header_id|>System<|end_header_id|>\n\n' + message['content'] | trim + '<|eot_id|>' %}{% else %}{{ raise_exception('Only user, assistant and system roles are supported!') }}{% endif %}{{ content }}{% endfor %}{% if add_generation_prompt %}{{ '<|start_header_id|>GPT4 Correct Assistant<|end_header_id|>\n\n' }}{% endif %}";

#[test]
fn test_apply_chat_template_phi3() {
    let phi3 = config(PHI3, "<s>", "<|endoftext|>");
    assert_eq!(
        "<s><|user|>\nHi<|end|>\n<|assistant|>\n",
        phi3.apply_chat_template(&conversation(&[("user", "Hi")])).unwrap()
    );
    assert_eq!(
        "<s><|user|>\nHi<|end|>\n<|assistant|>\nHello<|end|>\n<|user|>\nBye<|end|>\n<|assistant|>\n",
        phi3
            .apply_chat_template(&conversation(&[
                ("system", "ignored"),
                ("user", "Hi"),
                ("assistant", "Hello"),
                ("user", "Bye")
            ]))
            .unwrap()
    );
}

#[test]
fn test_apply_chat_template_deepseek() {
    let deepseek = config(DEEPSEEK, "<bos>", "<eos>");
    assert_eq!(
        "<bos>User: Hi\n\nAssistant:",
        deepseek.apply_chat_template(&conversation(&[("user", "Hi")])).unwrap()
    );
    assert_eq!(
        "<bos>Be brief.\n\nUser: Hi\n\nAssistant: Hello<eos>User: Bye\n\nAssistant:",
        deepseek
            .apply_chat_template(&conversation(&[
                ("system", "Be brief."),
                ("user", "Hi"),
                ("assistant", "Hello"),
                ("user", "Bye")
            ]))
            .unwrap()
    );
}

#[test]
fn test_apply_chat_template_openchat() {
    let openchat = config(OPENCHAT, "<|begin_of_text|>", "<|eot_id|>");
    assert_eq!(
        "<|begin_of_text|><|start_header_id|>GPT4 Correct User<|end_header_id|>\n\nHi<|eot_id|><|start_header_id|>GPT4 Correct Assistant<|end_header_id|>\n\n",
        openchat.apply_chat_template(&conversation(&[("user", " Hi ")])).unwrap()
    );
    assert_eq!(
        "<|begin_of_text|><|start_header_id|>System<|end_header_id|>\n\nBe brief.<|eot_id|><|start_header_id|>GPT4 Correct User<|end_header_id|>\n\nHi<|eot_id|><|start_header_id|>GPT4 Correct Assistant<|end_header_id|>\n\nHello<|eot_id|><|start_header_id|>GPT4 Correct Assistant<|end_header_id|>\n\n",
        openchat
            .apply_chat_template(&conversation(&[
                ("system", "Be brief."),
                ("user", "Hi"),
                ("assistant", "Hello")
            ]))
            .unwrap()
    );
    let err = openchat.apply_chat_template(&conversation(&[("tool", "x")])).unwrap_err();
    assert!(err
        .to_string()
        .starts_with("syntax error: Only user, assistant and system roles are supported! (in <string>:"));
}


#[test]
fn test_token_content() {
    let entry = |key: &str, value: Option<&str>| (key.to_string(), value.map(str::to_string));
    assert_eq!(None, token_content(&Vec::new()));
    assert_eq!(
        Some("<s>".to_string()),
        token_content(&vec![
            entry("__type", Some("AddedToken")),
            entry("content", Some("<s>")),
            entry("lstrip", None),
        ])
    );
    assert_eq!(
        Some("</s>".to_string()),
        token_content(&vec![entry("content", Some("ignored")), entry("content", Some("</s>"))])
    );
    assert_eq!(None, token_content(&vec![entry("content", Some("<s>")), entry("content", None)]));
    assert_eq!(None, token_content(&vec![entry("Content", Some("<s>"))]));
}
