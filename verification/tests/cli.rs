use bodhicore::args::CliOption;
use bodhicore::cli::{gguf_filename_parser, repo_parser, Cli, CliError, Command, ModelFeature};
use bodhicore::objs::{ChatTemplateId, GptContextParams, OAIRequestParams, ResponseFormat};

fn parse(args: Vec<&str>) -> Command {
    Cli::try_parse_from(args).unwrap().command
}

fn refusal(args: Vec<&str>) -> String {
    Cli::try_parse_from(args).unwrap_err().to_string()
}

#[test]
fn test_cli_debug_assert() {
    assert!(Cli::command().debug_assert());
}

#[test]
fn test_cli_definition_is_checked() {
    let mut definition = Cli::command();
    assert_eq!(
        vec!["app", "init", "serve", "list", "pull", "create", "run"],
        definition.commands.iter().map(|command| command.name).collect::<Vec<_>>()
    );
    assert_eq!(19, definition.commands[5].options.len());
    let repeated = definition.commands[4].options[0];
    definition.commands[4].options.push(repeated);
    assert!(!definition.debug_assert());
    definition.commands[4].options.pop();
    assert!(definition.debug_assert());
    let short = CliOption { long: "--fresh", short: "-f", takes_value: false, display: "--fresh" };
    definition.commands[4].options.push(short);
    assert!(!definition.debug_assert());
    definition.commands[4].options.pop();
    let nameless = CliOption { long: "", short: "", takes_value: false, display: "?" };
    definition.commands[0].options.push(nameless);
    assert!(!definition.debug_assert());
    definition.commands[0].options.pop();
    definition.commands[6].name = "app";
    assert!(!definition.debug_assert());
}

#[test]
fn test_cli_invalid() {
    let args = vec!["bodhi"];
    let cli = Cli::try_parse_from(args);
    assert!(cli.is_err());
}

#[test]
fn test_cli_app() {
    let args = vec!["bodhi", "app"];
    let cli = Cli::try_parse_from(args).unwrap();
    let expected = Command::App {};
    assert_eq!(expected, cli.command);
}

#[test]
fn test_cli_app_invalid() {
    let args = vec!["bodhi", "app", "--extra", "args"];
    let cli = Cli::try_parse_from(args);
    assert!(cli.is_err());
    assert_eq!(
        r#"error: unexpected argument '--extra' found

Usage: bodhi app

For more information, try '--help'.
"#,
        cli.unwrap_err().to_string()
    );
}

#[test]
fn test_cli_missing_and_unknown_command() {
    assert_eq!(Err(CliError::MissingSubcommand), Cli::try_parse_from(Vec::new()));
    assert_eq!(Err(CliError::MissingSubcommand), Cli::try_parse_from(vec!["bodhi"]));
    assert_eq!(
        Err(CliError::UnknownSubcommand("fly".to_string())),
        Cli::try_parse_from(vec!["bodhi", "fly"])
    );
    assert_eq!(
        "error: unrecognized subcommand 'fly'\n\nUsage: bodhi <COMMAND>\n\nFor more information, try '--help'.\n",
        refusal(vec!["bodhi", "fly"])
    );
    assert_eq!(Command::Init {}, parse(vec!["bodhi", "init"]));
}

#[test]
fn test_cli_serve() {
    let cases: Vec<(Vec<&str>, &str, u16)> = vec![
        (vec!["bodhi", "serve", "-H", "0.0.0.0", "-p", "8080"], "0.0.0.0", 8080),
        (vec!["bodhi", "serve", "-p", "8080"], "127.0.0.1", 8080),
        (vec!["bodhi", "serve", "-H", "0.0.0.0"], "0.0.0.0", 1135),
        (vec!["bodhi", "serve"], "127.0.0.1", 1135),
        (vec!["bodhi", "serve", "-p", "1"], "127.0.0.1", 1),
        (vec!["bodhi", "serve", "-p", "65535"], "127.0.0.1", 65535),
    ];
    for (args, host, port) in cases {
        assert_eq!(Command::Serve { host: host.to_string(), port }, parse(args));
    }
}

#[test]
fn test_cli_serve_invalid() {
    assert_eq!(
        r#"error: invalid value '65536' for '-p <PORT>': 65536 is not in 1..=65535

For more information, try '--help'.
"#,
        refusal(vec!["bodhi", "serve", "-p", "65536"])
    );
    assert_eq!(
        r#"error: invalid value '0' for '-p <PORT>': 0 is not in 1..=65535

For more information, try '--help'.
"#,
        refusal(vec!["bodhi", "serve", "-p", "0"])
    );
    assert_eq!(
        "error: invalid value '-7' for '-p <PORT>': -7 is not in 1..=65535\n\nFor more information, try '--help'.\n",
        refusal(vec!["bodhi", "serve", "-p", "-7"])
    );
    assert_eq!(
        "error: invalid value 'http' for '-p <PORT>': invalid digit found in string\n\nFor more information, try '--help'.\n",
        refusal(vec!["bodhi", "serve", "-p", "http"])
    );
    assert_eq!(
        Err(CliError::MissingValue { arg: "-p <PORT>".to_string() }),
        Cli::try_parse_from(vec!["bodhi", "serve", "-p"])
    );
    assert_eq!(
        "error: a value is required for '-p <PORT>' but none was supplied\n\nFor more information, try '--help'.\n",
        refusal(vec!["bodhi", "serve", "-p"])
    );
    assert_eq!(
        "error: the argument '-p <PORT>' cannot be used multiple times\n\nUsage: bodhi serve [OPTIONS]\n\nFor more information, try '--help'.\n",
        refusal(vec!["bodhi", "serve", "-p", "1", "-p", "2"])
    );
    assert_eq!(
        "error: unexpected argument 'now' found\n\nUsage: bodhi serve [OPTIONS]\n\nFor more information, try '--help'.\n",
        refusal(vec!["bodhi", "serve", "now"])
    );
}

#[test]
fn test_cli_list() {
    let cases: Vec<(Vec<&str>, bool, bool)> = vec![
        (vec!["bodhi", "list"], false, false),
        (vec!["bodhi", "list", "-r"], true, false),
        (vec!["bodhi", "list", "-m"], false, true),
        (vec!["bodhi", "list", "--remote"], true, false),
        (vec!["bodhi", "list", "--models"], false, true),
    ];
    for (args, remote, models) in cases {
        assert_eq!(Command::List { remote, models }, parse(args));
    }
}

#[test]
fn test_cli_list_invalid() {
    assert_eq!(
        r#"error: the argument '--remote' cannot be used with '--models'

Usage: bodhi list --remote

For more information, try '--help'.
"#,
        refusal(vec!["bodhi", "list", "-r", "-m"])
    );
}

#[test]
fn test_cli_run() {
    assert_eq!(
        Command::Run { alias: "llama3:instruct".to_string() },
        parse(vec!["bodhi", "run", "llama3:instruct"])
    );
    assert_eq!(
        "error: the following required arguments were not provided:\n  <ALIAS>\n\nUsage: bodhi run <ALIAS>\n\nFor more information, try '--help'.\n",
        refusal(vec!["bodhi", "run"])
    );
    assert_eq!(
        Err(CliError::UnexpectedArgument {
            arg: "b".to_string(),
            usage: "bodhi run <ALIAS>".to_string()
        }),
        Cli::try_parse_from(vec!["bodhi", "run", "a", "b"])
    );
}

#[test]
fn test_cli_pull_valid() {
    assert_eq!(
        Command::Pull {
            alias: Some("llama3:instruct".to_string()),
            repo: None,
            filename: None,
            force: false
        },
        parse(vec!["bodhi", "pull", "llama3:instruct"])
    );
    assert_eq!(
        Command::Pull {
            alias: None,
            repo: Some("QuantFactory/Meta-Llama-3-8B-Instruct-GGUF".to_string()),
            filename: Some("Meta-Llama-3-8B-Instruct.Q8_0.gguf".to_string()),
            force: false
        },
        parse(vec![
            "bodhi",
            "pull",
            "-r",
            "QuantFactory/Meta-Llama-3-8B-Instruct-GGUF",
            "-f",
            "Meta-Llama-3-8B-Instruct.Q8_0.gguf",
        ])
    );
    assert_eq!(
        Command::Pull {
            alias: None,
            repo: Some("a/b".to_string()),
            filename: Some("c.gguf".to_string()),
            force: true
        },
        parse(vec!["bodhi", "pull", "--force", "--filename", "c.gguf", "--repo", "a/b"])
    );
}

#[test]
fn test_cli_pull_invalid() {
    assert_eq!(
        r#"error: the argument '[ALIAS]' cannot be used with '--repo <REPO>'

Usage: bodhi pull --filename <FILENAME> <ALIAS|--repo <REPO>>

For more information, try '--help'.
"#,
        refusal(vec![
            "bodhi",
            "pull",
            "llama3:instruct",
            "-r",
            "meta-llama/Meta-Llama-3-8B",
            "-f",
            "Meta-Llama-3-8B-Instruct.Q8_0.gguf"
        ])
    );
    assert_eq!(
        r#"error: invalid value 'meta-llama$Meta-Llama-3-8B' for '--repo <REPO>': does not match huggingface repo format - 'owner/repo'

For more information, try '--help'.
"#,
        refusal(vec![
            "bodhi",
            "pull",
            "-r",
            "meta-llama$Meta-Llama-3-8B",
            "-f",
            "Meta-Llama-3-8B-Instruct.Q8_0.gguf"
        ])
    );
    assert_eq!(
        r#"error: invalid value 'Meta-Llama-3-8B-Instruct.Q8_0.safetensor' for '--filename <FILENAME>': only GGUF file extension supported

For more information, try '--help'.
"#,
        refusal(vec![
            "bodhi",
            "pull",
            "-r",
            "meta-llama/Meta-Llama-3-8B",
            "-f",
            "Meta-Llama-3-8B-Instruct.Q8_0.safetensor"
        ])
    );
    assert!(matches!(
        Cli::try_parse_from(vec!["bodhi", "pull"]),
        Err(CliError::MissingRequired { .. })
    ));
    assert!(matches!(
        Cli::try_parse_from(vec!["bodhi", "pull", "-r", "a/b"]),
        Err(CliError::MissingRequired { .. })
    ));
    assert!(matches!(
        Cli::try_parse_from(vec!["bodhi", "pull", "-f", "x.gguf"]),
        Err(CliError::MissingRequired { .. })
    ));
}

#[test]
fn test_cli_pull_validation_message() {
    let message = refusal(vec!["bodhi", "pull", "-r", "meta-llama$Meta-Llama-3-8B", "-f", "x.gguf"]);
    assert!(message.contains("does not match huggingface repo format - 'owner/repo'"));
}

#[test]
fn test_cli_create_valid() {
    let actual = parse(vec![
        "bodhi",
        "create",
        "testalias:instruct",
        "--repo",
        "MyFactory/testalias-gguf",
        "--filename",
        "testalias.Q8_0.gguf",
        "--family",
        "testalias",
        "--chat-template",
        "llama3",
    ]);
    let expected = Command::Create {
        alias: "testalias:instruct".to_string(),
        repo: "MyFactory/testalias-gguf".to_string(),
        filename: "testalias.Q8_0.gguf".to_string(),
        chat_template: Some(ChatTemplateId::Llama3),
        tokenizer_config: None,
        family: Some("testalias".to_string()),
        force: false,
        oai_request_params: OAIRequestParams::default(),
        context_params: GptContextParams::default(),
    };
    assert_eq!(expected, actual);
}

#[test]
fn test_cli_create_valid_with_defaults() {
    let actual = parse(vec![
        "bodhi",
        "create",
        "testalias:instruct",
        "--repo",
        "MyFactory/testalias-gguf",
        "--filename",
        "testalias.Q8_0.gguf",
        "--family",
        "testalias",
        "--chat-template",
        "llama3",
        "--frequency-penalty",
        "0.8",
        "--max-tokens",
        "512",
        "--presence-penalty",
        "1.1",
        "--response-format",
        "json_object",
        "--seed",
        "42",
        "--stop",
        "\n",
        "--stop",
        "\n\n",
        "--temperature",
        "0.8",
        "--top-p",
        "0.9",
        "--user",
        "testuser",
        "--n-threads",
        "6",
        "--n-ctx",
        "1024",
        "--n-parallel",
        "4",
        "--n-predict",
        "-1",
    ]);
    let expected = Command::Create {
        alias: "testalias:instruct".to_string(),
        repo: "MyFactory/testalias-gguf".to_string(),
        filename: "testalias.Q8_0.gguf".to_string(),
        chat_template: Some(ChatTemplateId::Llama3),
        tokenizer_config: None,
        family: Some("testalias".to_string()),
        force: false,
        oai_request_params: OAIRequestParams {
            frequency_penalty: Some("0.8".to_string()),
            max_tokens: Some(512),
            presence_penalty: Some("1.1".to_string()),
            response_format: Some(ResponseFormat::JsonObject),
            seed: Some(42),
            stop: vec!["\n".to_string(), "\n\n".to_string()],
            temperature: Some("0.8".to_string()),
            top_p: Some("0.9".to_string()),
            user: Some("testuser".to_string()),
        },
        context_params: GptContextParams {
            n_threads: Some(6),
            n_ctx: Some(1024),
            n_parallel: Some(4),
            n_predict: Some(-1),
        },
    };
    assert_eq!(expected, actual);
}

#[test]
fn test_cli_create_invalid() {
    assert_eq!(
        "error: the argument '--chat-template <CHAT_TEMPLATE>' cannot be used with '--tokenizer-config <TOKENIZER_CONFIG>'\n\nUsage: bodhi create [OPTIONS] --repo <REPO> --filename <FILENAME> <--chat-template <CHAT_TEMPLATE>|--tokenizer-config <TOKENIZER_CONFIG>> <ALIAS>\n\nFor more information, try '--help'.\n",
        refusal(vec![
            "bodhi",
            "create",
            "testalias:instruct",
            "--repo",
            "MyFactory/testalias-gguf",
            "--filename",
            "testalias.Q8_0.gguf",
            "--chat-template",
            "llama3",
            "--tokenizer-config",
            "MyFactory/testalias-gguf",
        ])
    );
    assert_eq!(
        "error: invalid value 'My:Factory/testalias-gguf' for '--tokenizer-config <TOKENIZER_CONFIG>': does not match huggingface repo format - 'owner/repo'\n\nFor more information, try '--help'.\n",
        refusal(vec![
            "bodhi",
            "create",
            "testalias:instruct",
            "--repo",
            "MyFactory/testalias-gguf",
            "--filename",
            "testalias.Q8_0.gguf",
            "--chat-template",
            "llama3",
            "--tokenizer-config",
            "My:Factory/testalias-gguf",
        ])
    );
    assert_eq!(
        "error: invalid value 'testalias.Q8_0.safetensor' for '--filename <FILENAME>': only GGUF file extension supported\n\nFor more information, try '--help'.\n",
        refusal(vec![
            "bodhi",
            "create",
            "testalias:instruct",
            "--repo",
            "MyFactory/testalias-gguf",
            "--filename",
            "testalias.Q8_0.safetensor",
            "--chat-template",
            "llama3",
        ])
    );
    assert_eq!(
        "error: invalid value 'MyFactory$testalias-gguf' for '--repo <REPO>': does not match huggingface repo format - 'owner/repo'\n\nFor more information, try '--help'.\n",
        refusal(vec![
            "bodhi",
            "create",
            "testalias:instruct",
            "--repo",
            "MyFactory$testalias-gguf",
            "--filename",
            "testalias.Q8_0.gguf",
            "--chat-template",
            "llama3",
        ])
    );
    assert!(matches!(
        Cli::try_parse_from(vec![
            "bodhi", "create", "a", "--repo", "a/b", "--filename", "c.gguf", "--chat-template", "llama9"
        ]),
        Err(CliError::InvalidValue { .. })
    ));
    assert!(matches!(
        Cli::try_parse_from(vec![
            "bodhi", "create", "a", "--repo", "a/b", "--filename", "c.gguf", "--chat-template", "llama3",
            "--temperature", "warm"
        ]),
        Err(CliError::InvalidValue { .. })
    ));
    assert!(matches!(
        Cli::try_parse_from(vec!["bodhi", "create", "a", "--repo", "a/b", "--filename", "c.gguf"]),
        Err(CliError::MissingRequired { .. })
    ));
    assert_eq!(
        "error: invalid value '65536' for '--max-tokens <MAX_TOKENS>': 65536 is not in 0..=65535\n\nFor more information, try '--help'.\n",
        refusal(vec![
            "bodhi", "create", "a", "--repo", "a/b", "--filename", "c.gguf", "--chat-template", "llama3",
            "--max-tokens", "65536"
        ])
    );
}

#[test]
fn test_cli_to_string() {
    let cases: Vec<(Command, &str)> = vec![
        (Command::App {}, "app"),
        (Command::Init {}, "init"),
        (Command::Serve { host: String::new(), port: 0 }, "serve"),
        (Command::List { remote: false, models: false }, "list"),
        (Command::Pull { alias: None, repo: None, filename: None, force: false }, "pull"),
        (
            Command::Create {
                alias: String::new(),
                repo: String::new(),
                filename: String::new(),
                chat_template: None,
                tokenizer_config: None,
                family: None,
                force: false,
                oai_request_params: OAIRequestParams::default(),
                context_params: GptContextParams::default(),
            },
            "create",
        ),
        (Command::Run { alias: String::new() }, "run"),
    ];
    for (command, expected) in cases {
        assert_eq!(expected, command.to_string());
    }
    assert_eq!("chat", ModelFeature::Chat.to_string());
}

#[test]
fn test_repo_parser() {
    assert_eq!(Ok("meta-llama/Meta-Llama-3-8B".to_string()), repo_parser("meta-llama/Meta-Llama-3-8B"));
    assert_eq!(Ok("a.b_c-d/E.F_G-9".to_string()), repo_parser("a.b_c-d/E.F_G-9"));
    let refused = Err("does not match huggingface repo format - 'owner/repo'".to_string());
    for bad in ["", "/", "owner", "owner/", "/repo", "a/b/c", "meta-llama$Meta-Llama-3-8B", "a b/c", "a/b\n", "é/b"] {
        assert_eq!(refused, repo_parser(bad), "{}", format!("{bad:?}"));
    }
}

#[test]
fn test_gguf_filename_parser() {
    assert_eq!(Ok("x.gguf".to_string()), gguf_filename_parser("x.gguf"));
    assert_eq!(Ok(".gguf".to_string()), gguf_filename_parser(".gguf"));
    let refused = Err("only GGUF file extension supported".to_string());
    for bad in ["", "gguf", "x.safetensor", "x.gguf.bak", "x.GGUF"] {
        assert_eq!(refused, gguf_filename_parser(bad));
    }
}

#[test]
fn test_cli_values_in_one_argument() {
    let serve = |host: &str, port: u16| Command::Serve { host: host.to_string(), port };
    assert_eq!(serve("127.0.0.1", 8080), parse(vec!["bodhi", "serve", "-p=8080"]));
    assert_eq!(serve("127.0.0.1", 8080), parse(vec!["bodhi", "serve", "-p8080"]));
    assert_eq!(serve("0.0.0.0", 1), parse(vec!["bodhi", "serve", "-H=0.0.0.0", "-p", "+1"]));
    assert_eq!(serve("=", 1135), parse(vec!["bodhi", "serve", "-H=="]));
    assert_eq!(serve("", 1135), parse(vec!["bodhi", "serve", "-H="]));
    assert_eq!(
        Command::Pull {
            alias: None,
            repo: Some("a/b".to_string()),
            filename: Some("c=d.gguf".to_string()),
            force: true
        },
        parse(vec!["bodhi", "pull", "--repo=a/b", "--force", "--filename=c=d.gguf"])
    );
    assert_eq!(
        Command::Pull {
            alias: None,
            repo: Some("a/b".to_string()),
            filename: Some("c.gguf".to_string()),
            force: false
        },
        parse(vec!["bodhi", "pull", "-ra/b", "-f=c.gguf"])
    );
    assert_eq!(
        "error: invalid value '65536' for '-p <PORT>': 65536 is not in 1..=65535\n\nFor more information, try '--help'.\n",
        refusal(vec!["bodhi", "serve", "-p=65536"])
    );
    assert_eq!(
        "error: invalid value 'a$b' for '--repo <REPO>': does not match huggingface repo format - 'owner/repo'\n\nFor more information, try '--help'.\n",
        refusal(vec!["bodhi", "pull", "--repo=a$b", "-f", "c.gguf"])
    );
    assert_eq!(
        "error: the argument '-p <PORT>' cannot be used multiple times\n\nUsage: bodhi serve [OPTIONS]\n\nFor more information, try '--help'.\n",
        refusal(vec!["bodhi", "serve", "-p=1", "-p2"])
    );
}

#[test]
fn test_cli_forms_that_are_not_taken() {
    let unexpected = |arg: &str, usage: &str| {
        Err(CliError::UnexpectedArgument { arg: arg.to_string(), usage: usage.to_string() })
    };
    assert_eq!(
        unexpected("-rm", "bodhi list [OPTIONS]"),
        Cli::try_parse_from(vec!["bodhi", "list", "-rm"])
    );
    assert_eq!(
        unexpected("--remote=true", "bodhi list [OPTIONS]"),
        Cli::try_parse_from(vec!["bodhi", "list", "--remote=true"])
    );
    assert_eq!(
        unexpected("--force=1", "bodhi pull [OPTIONS] <ALIAS|--repo <REPO>>"),
        Cli::try_parse_from(vec!["bodhi", "pull", "a", "--force=1"])
    );
    assert_eq!(
        unexpected("--port=1", "bodhi serve [OPTIONS]"),
        Cli::try_parse_from(vec!["bodhi", "serve", "--port=1"])
    );
    assert_eq!(
        unexpected("--version", "bodhi serve [OPTIONS]"),
        Cli::try_parse_from(vec!["bodhi", "serve", "--version"])
    );
    assert_eq!(
        "error: invalid value '1234567890123456789' for '-p <PORT>': invalid digit found in string\n\nFor more information, try '--help'.\n",
        refusal(vec!["bodhi", "serve", "-p", "1234567890123456789"])
    );
}

#[test]
fn test_cli_help_and_version() {
    for flag in ["--version", "-V"] {
        let err = Cli::try_parse_from(vec!["bodhi", flag]).unwrap_err();
        assert_eq!(CliError::DisplayVersion("bodhi 0.1.0\n".to_string()), err);
        assert_eq!("bodhi 0.1.0\n", err.to_string());
        assert_eq!(0, err.exit_code());
    }
    for flag in ["--help", "-h", "help"] {
        let err = Cli::try_parse_from(vec!["bodhi", flag]).unwrap_err();
        assert!(matches!(err, CliError::DisplayHelp(_)));
        assert_eq!(0, err.exit_code());
        let text = err.to_string();
        assert!(text.starts_with(
            "Run GenerativeAI LLMs locally and serve them via OpenAI compatible API\n\nUsage: bodhi <COMMAND>\n\nCommands:\n"
        ));
        for command in ["app", "init", "serve", "list", "pull", "create", "run"] {
            assert!(text.contains(&format!("\n  {command} ")), "{}", command);
        }
        assert!(text.ends_with("Options:\n  -h, --help     Print help\n  -V, --version  Print version\n"));
    }
    assert_eq!(
        Err(CliError::DisplayHelp(
            "Usage: bodhi serve [OPTIONS]\n\nOptions:\n  -H <HOST>\n  -p <PORT>\n  -h, --help\n".to_string()
        )),
        Cli::try_parse_from(vec!["bodhi", "serve", "-p", "8080", "--help"])
    );
    assert_eq!(
        Err(CliError::DisplayHelp("Usage: bodhi app\n\nOptions:\n  -h, --help\n".to_string())),
        Cli::try_parse_from(vec!["bodhi", "app", "-h"])
    );
    assert_eq!(
        Err(CliError::DisplayHelp("Usage: bodhi run <ALIAS>\n\nOptions:\n  -h, --help\n".to_string())),
        Cli::try_parse_from(vec!["bodhi", "run", "x", "-h", "--nonsense"])
    );
    assert_eq!(
        "Usage: bodhi list [OPTIONS]\n\nOptions:\n  --remote\n  --models\n  -h, --help\n",
        refusal(vec!["bodhi", "list", "--help"])
    );
    assert_eq!(
        Command::Serve { host: "--help".to_string(), port: 1135 },
        parse(vec!["bodhi", "serve", "-H", "--help"])
    );
    let refused = Cli::try_parse_from(vec!["bodhi", "serve", "--nonsense", "--help"]).unwrap_err();
    assert!(matches!(refused, CliError::UnexpectedArgument { .. }));
    assert_eq!(1, refused.exit_code());
    assert_eq!(1, CliError::MissingSubcommand.exit_code());
}
