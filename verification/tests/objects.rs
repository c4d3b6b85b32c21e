use bodhicore::args::{check_decimal, parse_number};
use bodhicore::cli::{int_to_text, parse_ranged, parse_whole};
use bodhicore::error::AppError;
use bodhicore::list::{
    first_two_words, human_size, local_model, local_model_row, modified, remote_row, truncate,
    variant, variant_from, variants_cell, LocalModel,
};
use bodhicore::native::{homepage, quit_code, tray_action, NativeCommand, TrayAction};
use bodhicore::objs::{
    alias_filename, default_features, engine_params, is_gguf, ChatTemplate, ChatTemplateId,
    GptContextParams, LocalModelFile, OAIRequestParams, RemoteModel, Repo,
};
use bodhicore::text::{
    decimal_text, ends_with, find, join, matches_at, replace, replace_text, rfind, same_text,
    slice_of, starts_with,
};

fn chars_of(s: &str) -> Vec<char> {
    s.chars().collect()
}

fn replaced(s: &str, from: &str, to: &str) -> String {
    let by_chars: String = replace(&chars_of(s), &chars_of(from), &chars_of(to)).iter().collect();
    assert_eq!(by_chars, replace_text(s, from, to));
    by_chars
}

#[test]
fn test_text_replace() {
    let cases = [
        ("a.strip()b", ".strip()", " | trim"),
        ("aaaa", "aa", "b"),
        ("aaa", "aa", "b"),
        ("abc", "", "x"),
        ("", "a", "b"),
        ("abab", "ab", ""),
        ("aXbXc", "X", "XX"),
        ("héllo wörld", "ö", "oe"),
        ("abc", "abcd", "x"),
    ];
    for (s, from, to) in cases {
        if from.is_empty() {
            assert_eq!(s, replaced(s, from, to));
        } else {
            assert_eq!(s.replace(from, to), replaced(s, from, to), "{}", format!("{s:?} {from:?}"));
        }
    }
    assert_eq!("a | trimb", replaced("a.strip()b", ".strip()", " | trim"));
    assert_eq!("bb", replaced("aaaa", "aa", "b"));
    assert_eq!("ba", replaced("aaa", "aa", "b"));
}

#[test]
fn test_text_helpers() {
    let s = chars_of("héllo");
    assert!(starts_with(&s, &chars_of("hé")));
    assert!(starts_with(&s, &chars_of("")));
    assert!(!starts_with(&s, &chars_of("héllo!")));
    assert!(ends_with(&s, &chars_of("llo")));
    assert!(!ends_with(&s, &chars_of("hello")));
    assert!(matches_at(&s, 1, &chars_of("él")));
    assert!(!matches_at(&s, 5, &chars_of("o")));
    assert!(matches_at(&s, 5, &chars_of("")));
    assert!(!matches_at(&s, 6, &chars_of("")));
    assert_eq!(vec!['l', 'l'], slice_of(&s, 2, 4));
    assert_eq!(Some(3), rfind(&s, 'l'));
    assert_eq!(None, rfind(&s, 'x'));
    assert!(same_text("a", "a"));
    assert!(!same_text("a", "A"));
    assert_eq!("a,b,c", join(&vec!["a".to_string(), "b".to_string(), "c".to_string()], ","));
    assert_eq!("a", join(&vec!["a".to_string()], ","));
    assert_eq!("", join(&Vec::new(), ","));
    assert_eq!(",", join(&vec![String::new(), String::new()], ","));
}

#[test]
fn test_decimal_text() {
    for n in [0u64, 7, 10, 99, 100, 1135, 65535, 1_000_000_007, u64::MAX] {
        assert_eq!(n.to_string(), decimal_text(n));
    }
    for n in [0i64, -1, 1, -65536, i64::MAX, i64::MIN] {
        assert_eq!(n.to_string(), int_to_text(n));
    }
}

#[test]
fn test_number_reading() {
    assert_eq!(Some(0), parse_number("0"));
    assert_eq!(Some(7), parse_number("007"));
    assert_eq!(Some(999_999_999_999_999_999), parse_number("999999999999999999"));
    assert_eq!(None, parse_number("1000000000000000000"));
    assert_eq!(None, parse_number(""));
    assert_eq!(None, parse_number("+1"));
    assert_eq!(None, parse_number("1 "));
    assert_eq!(None, parse_number("١"));
    assert_eq!(Some(-12), parse_whole("-12"));
    assert_eq!(Some(12), parse_whole("+12"));
    assert_eq!(None, parse_whole("+"));
    assert_eq!(None, parse_whole("+-1"));
    assert_eq!(Some(0), parse_whole("-0"));
    assert_eq!(None, parse_whole("-"));
    assert_eq!(None, parse_whole("--1"));
    assert_eq!(Ok(5), parse_ranged("5", 1, 5));
    assert_eq!(Err("6 is not in 1..=5".to_string()), parse_ranged("6", 1, 5));
    assert_eq!(Err("-6 is not in -5..=5".to_string()), parse_ranged("-6", -5, 5));
    assert_eq!(Err("invalid digit found in string".to_string()), parse_ranged("six", 1, 5));
    for good in ["0", "0.8", "-1.5", ".5", "5.", "-0", "007.250"] {
        assert!(check_decimal(good), "{}", good);
    }
    for bad in ["", "-", ".", "-.", "1.2.3", "1e3", "+1", "1 ", "--1", "NaN", "1-"] {
        assert!(!check_decimal(bad), "{}", bad);
    }
}

#[test]
fn test_repo() {
    let repo = Repo::try_new("meta-llama/Meta-Llama-3-8B".to_string()).unwrap();
    assert_eq!("meta-llama/Meta-Llama-3-8B", repo.as_str());
    assert_eq!("meta-llama/Meta-Llama-3-8B", repo.to_string());
    assert!(repo.same(&repo.clone()));
    assert!(!repo.same(&Repo::try_new("a/b".to_string()).unwrap()));
    let err = Repo::try_new("meta-llama".to_string()).unwrap_err();
    assert_eq!(
        AppError::BadRequest("does not match huggingface repo format - 'owner/repo'".to_string()),
        err
    );
    assert_eq!(400, err.status());
    assert_eq!("invalid_request_error", err.error_type());
    assert!(is_gguf("a.gguf"));
    assert!(!is_gguf("a.bin"));
}

#[test]
fn test_chat_template_ids() {
    let all = [
        (ChatTemplateId::Llama3, "llama3", "meta-llama/Meta-Llama-3-8B-Instruct"),
        (ChatTemplateId::Llama2, "llama2", "meta-llama/Llama-2-13b-chat-hf"),
        (ChatTemplateId::Llama2Legacy, "llama2-legacy", "mistralai/Mixtral-8x7B-Instruct-v0.1"),
        (ChatTemplateId::Phi3, "phi3", "microsoft/Phi-3-mini-4k-instruct"),
        (ChatTemplateId::Gemma, "gemma", "google/gemma-7b-it"),
        (ChatTemplateId::Deepseek, "deepseek", "deepseek-ai/deepseek-llm-67b-chat"),
        (ChatTemplateId::CommandR, "command-r", "CohereForAI/c4ai-command-r-plus"),
        (ChatTemplateId::Openchat, "openchat", "openchat/openchat-3.6-8b-20240522"),
    ];
    for (id, name, repo) in all {
        assert_eq!(name, id.as_str());
        assert_eq!(Some(id), ChatTemplateId::parse(name));
        assert_eq!(repo, id.repo().as_str());
        assert_eq!(Ok(id.repo()), Repo::try_new(repo.to_string()));
    }
    assert_eq!(None, ChatTemplateId::parse("zephyr"));
    assert_eq!(None, ChatTemplateId::parse("Llama3"));
}

#[test]
fn test_local_model_file_path() {
    let file = LocalModelFile::new(
        "/tmp/ignored/huggingface/hub".to_string(),
        Repo::try_new("MyFactory/testalias-gguf".to_string()).unwrap(),
        "testalias.Q8_0.gguf".to_string(),
        "5007652f7a641fe7170e0bad4f63839419bd9213".to_string(),
        Some(22),
    );
    assert_eq!(
        "/tmp/ignored/huggingface/hub/models--MyFactory--testalias-gguf/snapshots/5007652f7a641fe7170e0bad4f63839419bd9213/testalias.Q8_0.gguf",
        file.path()
    );
    let context = GptContextParams {
        n_threads: Some(6),
        n_ctx: Some(1024),
        n_parallel: Some(4),
        n_predict: Some(512),
    };
    let params = engine_params(file.path(), &context);
    assert_eq!(file.path(), params.model);
    assert_eq!(
        (Some(1024), Some(4), Some(6), None, Some(512)),
        (params.n_ctx, params.n_parallel, params.n_threads, params.seed, params.n_predict)
    );
    assert_eq!(vec!["chat".to_string()], default_features());
}

#[test]
fn test_list_remote_model_to_row() {
    let model = RemoteModel {
        alias: "llama3:instruct".to_string(),
        family: "llama3".to_string(),
        repo: Repo::try_new("QuantFactory/Meta-Llama-3-8B-Instruct-GGUF".to_string()).unwrap(),
        filename: "Meta-Llama-3-8B-Instruct.Q8_0.gguf".to_string(),
        features: vec!["chat".to_string()],
        chat_template: ChatTemplate::Id(ChatTemplateId::Llama3),
        request_params: OAIRequestParams::default(),
        context_params: GptContextParams::default(),
    };
    let row = remote_row(&model);
    let expected = vec![
        "llama3:instruct",
        "llama3",
        "QuantFactory/Meta-Llama-3-8B-Instruct-GGUF",
        "Meta-Llama-3-8B-Instruct.Q8_0.gguf",
        "chat",
        "llama3",
    ];
    assert_eq!(expected, row);
}

#[test]
fn test_list_model_item_to_row() {
    let three_days_back: u64 = 3 * 24 * 60 * 60 + 60 * 60;
    let model = LocalModel {
        name: "Meta-Llama-3-8B-Instruct-GGUF".to_string(),
        repo: "QuantFactory".to_string(),
        path: "models--QuantFactory--Meta-Llama-3-8B-Instruct-GGUF".to_string(),
        sha: "1234567890".to_string(),
        size: Some(1024 * 1024 * 1024 * 10),
        age: Some(three_days_back),
    };
    let row = local_model_row(&model);
    let expected =
        vec!["Meta-Llama-3-8B-Instruct-GGUF", "QuantFactory", "12345678", "10.00 GB", "3days 1h"];
    assert_eq!(expected, row);
}

#[test]
fn test_list_cells() {
    assert_eq!("Unknown", human_size(None));
    assert_eq!("0.00 GB", human_size(Some(0)));
    assert_eq!("0.00 GB", human_size(Some(22)));
    assert_eq!("0.01 GB", human_size(Some(5_368_710)));
    assert_eq!("0.00 GB", human_size(Some(5_368_708)));
    assert_eq!("1.50 GB", human_size(Some(1_610_612_736)));
    assert_eq!("1.05 GB", human_size(Some(1_127_428_915)));
    assert_eq!("17179869184.00 GB", human_size(Some(u64::MAX)));
    assert_eq!("0.12 GB", human_size(Some(134_217_728)));
    assert_eq!("0.38 GB", human_size(Some(402_653_184)));
    assert_eq!("0.62 GB", human_size(Some(671_088_640)));
    let mut sizes: Vec<u64> = vec![0, 1, 22, 5_368_708, 5_368_709, 5_368_710, 1 << 30, (1 << 53) - 1];
    for odd in (1..400u64).step_by(2) {
        sizes.push(odd * (1 << 27) / 25);
        sizes.push(odd * (1 << 27) / 25 + 1);
        sizes.push(odd * (1 << 27));
        sizes.push(odd * 1_000_000_007);
    }
    for size in sizes {
        assert_eq!(
            format!("{:.2} GB", size as f64 / 2_f64.powf(30.0)),
            human_size(Some(size)),
            "{}",
            format!("{size}")
        );
    }
    assert_eq!("Unknown", modified(None));
    assert_eq!("0s", modified(Some(0)));
    assert_eq!("1m 1s", modified(Some(61)));
    assert_eq!("3days 1h", modified(Some(3 * 86400 + 3600 + 61)));
    assert_eq!("1year 2days", modified(Some(31_557_600 + 2 * 86400 + 5)));
    assert_eq!("2years 1month", modified(Some(2 * 31_557_600 + 2_630_016 + 86_400)));
    assert_eq!("1month 1day", modified(Some(2_630_016 + 86_400 + 59)));
    assert_eq!("2months 23h", modified(Some(2 * 2_630_016 + 23 * 3_600 + 59 * 60 + 59)));
    assert_eq!("1day 1s", modified(Some(86_401)));
    assert_eq!("59s", modified(Some(59)));
    assert_eq!("1h", modified(Some(3_600)));
    assert_eq!("584542046090years 7months", modified(Some(u64::MAX)));
    assert_eq!("a b", first_two_words("a b c d"));
    assert_eq!("a b", first_two_words("a b"));
    assert_eq!("a", first_two_words("a"));
    assert_eq!("", first_two_words(""));
    assert_eq!("a ", first_two_words("a  b"));
    assert_eq!(" a", first_two_words(" a b"));
    assert_eq!("abcdef...uvwxyz", truncate("abcdefghijklmnopqrstuvwxyz", 16));
    assert_eq!("abcdefghijklmnop", truncate("abcdefghijklmnop", 16));
    assert_eq!("...", truncate("abcdefgh", 4));
    assert_eq!("-", truncate("-", 16));
    let short = LocalModel {
        name: "n".to_string(),
        repo: "r".to_string(),
        path: "p".to_string(),
        sha: "1234".to_string(),
        size: None,
        age: None,
    };
    assert_eq!(vec!["n", "r", "1234", "Unknown", "Unknown"], local_model_row(&short));
}

#[test]
fn test_list_variants() {
    assert_eq!("Q8_0", variant("Meta-Llama-3-8B-Instruct.Q8_0.gguf"));
    assert_eq!("c", variant("a.b.c.gguf"));
    assert_eq!("", variant("a..gguf"));
    assert_eq!("model.gguf", variant("model.gguf"));
    assert_eq!("model.Q4.bin", variant("model.Q4.bin"));
    assert_eq!("x", variant_from("file", Some("x".to_string())));
    assert_eq!("file", variant_from("file", None));
}

#[test]
fn test_native_command() {
    let command = NativeCommand::new(7u8, "/home/user/.bodhi".to_string());
    assert_eq!((7u8, "/home/user/.bodhi"), (command.service, command.bodhi_home.as_str()));
    assert_eq!("http://127.0.0.1:1135/", homepage("127.0.0.1", 1135));
    assert_eq!("http://localhost:0/", homepage("localhost", 0));
    assert_eq!(TrayAction::OpenHomepage, tray_action("homepage"));
    assert_eq!(TrayAction::Quit, tray_action("quit"));
    assert_eq!(TrayAction::Ignore, tray_action("about"));
    assert_eq!(0, quit_code(true, true));
    assert_eq!(1, quit_code(true, false));
    assert_eq!(1, quit_code(false, true));
    assert_eq!(1, quit_code(false, false));
}

#[test]
fn test_error_taxonomy() {
    let cases: Vec<(AppError, u16, &str)> = vec![
        (AppError::AliasNotFound("a".to_string()), 404, "alias 'a' not found"),
        (
            AppError::AliasExists("a".to_string()),
            409,
            "alias 'a' already exists. Use --force to overwrite the alias config",
        ),
        (
            AppError::ModelAliasExists("a".to_string()),
            409,
            "model alias 'a' already exists. Use --force to overwrite the model alias config",
        ),
        (AppError::TemplateMissing, 400, "chat_template not found in tokenizer_config.json"),
        (AppError::TemplateRender("syntax error: x".to_string()), 400, "syntax error: x"),
        (AppError::UnsupportedContent, 400, "image content is not supported in chat messages"),
        (AppError::UnsupportedRole, 400, "tool and function messages are not supported"),
        (AppError::EngineNotLoaded, 503, "model is not loaded"),
        (AppError::EngineInit("x".to_string()), 500, "engine failed to initialize: x"),
        (AppError::EngineCompletion("x".to_string()), 500, "engine failed during completion: x"),
        (AppError::EngineStop("x".to_string()), 500, "engine failed to stop: x"),
        (AppError::BadRequest("x".to_string()), 400, "x"),
        (AppError::InternalServer("x".to_string()), 500, "x"),
    ];
    for (error, status, message) in cases {
        assert_eq!(status, error.status());
        assert_eq!(message, error.to_string());
    }
    assert_eq!("conflict_error", AppError::AliasExists(String::new()).error_type());
    assert_eq!("service_unavailable_error", AppError::EngineNotLoaded.error_type());
}

#[test]
fn test_error_body() {
    assert_eq!(
        r#"{"error":{"message":"alias 'missing:alias' not found","type":"not_found_error"}}"#,
        AppError::AliasNotFound("missing:alias".to_string()).body()
    );
    let quoted = AppError::BadRequest("say \"hi\"\n".to_string()).body();
    assert_eq!(
        r#"{"error":{"message":"say \"hi\"\n","type":"invalid_request_error"}}"#,
        quoted
    );
    let parsed: serde_json::Value = serde_json::from_str(&quoted).unwrap();
    assert_eq!("say \"hi\"\n", parsed["error"]["message"].as_str().unwrap());
}

#[test]
fn test_variants_cell() {
    let names = |items: &[&str]| items.iter().map(|s| s.to_string()).collect::<Vec<String>>();
    assert_eq!("", variants_cell(&Vec::new()));
    assert_eq!("Q8_0", variants_cell(&names(&["Q8_0"])));
    assert_eq!("Q2_K, Q4_0, Q8_0", variants_cell(&names(&["Q2_K", "Q4_0", "Q8_0"])));
    assert_eq!(
        "Q2_K, Q3_K_L, Q3_K_M, Q3_K_S,\nQ4_0, Q4_K_M, Q4_K_S, Q5_0,\nQ8_0",
        variants_cell(&names(&[
            "Q2_K", "Q3_K_L", "Q3_K_M", "Q3_K_S", "Q4_0", "Q4_K_M", "Q4_K_S", "Q5_0", "Q8_0"
        ]))
    );
    assert_eq!(
        "a-variant-name-longer-than-a-line,\nb",
        variants_cell(&names(&["a-variant-name-longer-than-a-line", "b"]))
    );
    assert_eq!("b", variants_cell(&names(&["", "", "b"])));
}

#[test]
fn test_registry_and_cache_names() {
    assert_eq!("llama3--instruct.yaml", alias_filename("llama3:instruct"));
    assert_eq!("a--b--c.yaml", alias_filename("a:b:c"));
    assert_eq!("plain.yaml", alias_filename("plain"));
    let repo = |name: &str| Repo::try_new(name.to_string()).ok();
    assert_eq!(
        repo("QuantFactory/Meta-Llama-3-8B-Instruct-GGUF"),
        Repo::from_cache_dir("models--QuantFactory--Meta-Llama-3-8B-Instruct-GGUF")
    );
    assert_eq!(repo("a/b--c"), Repo::from_cache_dir("models--a--b--c"));
    assert_eq!(None, Repo::from_cache_dir("models--owner"));
    assert_eq!(None, Repo::from_cache_dir("models----repo"));
    assert_eq!(None, Repo::from_cache_dir("models--owner--"));
    assert_eq!(None, Repo::from_cache_dir("datasets--owner--repo"));
    assert_eq!(None, Repo::from_cache_dir("models--ow ner--repo"));
    assert_eq!(None, Repo::from_cache_dir(""));
    let chars = |s: &str| s.chars().collect::<Vec<char>>();
    assert_eq!(Some(1), find(&chars("a--b--c"), &chars("--")));
    assert_eq!(Some(0), find(&chars("abc"), &chars("")));
    assert_eq!(Some(0), find(&chars(""), &chars("")));
    assert_eq!(None, find(&chars(""), &chars("a")));
    assert_eq!(None, find(&chars("a-b"), &chars("--")));
    assert_eq!(Some(1), find(&chars("a--"), &chars("--")));
}

#[test]
fn test_local_model_of_cache_dir() {
    let model = local_model(
        "models--QuantFactory--Meta-Llama-3-8B-Instruct-GGUF",
        "1234567890".to_string(),
        Some(1024),
        None,
    );
    assert_eq!(
        Some(LocalModel {
            name: "Meta-Llama-3-8B-Instruct-GGUF".to_string(),
            repo: "QuantFactory".to_string(),
            path: "models--QuantFactory--Meta-Llama-3-8B-Instruct-GGUF".to_string(),
            sha: "1234567890".to_string(),
            size: Some(1024),
            age: None,
        }),
        model
    );
    assert_eq!(None, local_model("datasets--a--b", String::new(), None, None));
    assert_eq!(None, local_model("models--a", String::new(), None, None));
    let repo = Repo::try_new("a.b/c--d".to_string()).unwrap();
    assert_eq!(("a.b".to_string(), "c--d".to_string()), repo.parts());
}

#[test]
fn test_error_body_escapes() {
    let body = AppError::BadRequest("tab\there \\ \u{1} \u{1f} \u{7f} é \r\n\u{8}\u{c}".to_string()).body();
    assert_eq!(
        "{\"error\":{\"message\":\"tab\\there \\\\ \\u0001 \\u001f \u{7f} é \\r\\n\\b\\f\",\"type\":\"invalid_request_error\"}}",
        body
    );
}
