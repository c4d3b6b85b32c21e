//! The vocabulary of the command line: the commands, what their arguments
//! must look like, and how a list of arguments is read.
//!
//! An option takes its value as the next argument, `-p 8080`, or in one
//! argument with it: `--repo=owner/repo`, `-p=8080`, `-p8080`. `--help`
//! and `-h` give the help of the program or of a command, and `--version`
//! and `-V` the version of the program; both come back as refusals with
//! the exit code 0, and the layout of the help is this library's own.
//! Several short flags behind one dash are not taken: they are refused as
//! an unexpected argument. A whole number is plain digits, at most
//! eighteen of them, after an optional sign; a longer number is refused
//! as `invalid digit found in string`.

use vstd::prelude::*;
use vstd::string::StringExecFns;
use crate::args::{
    check_decimal, count_flag, digits_value, flag_count, is_decimal, is_digit, is_number,
    items_of, option_values, parse_number, positional_values, positionals, pow10, scan, scan_args,
    asks_help, is_help, tokens_of, values, Arg, CliOption, Item, ScanError, ScanStop,
};
use crate::objs::{
    is_gguf, is_gguf_filename, is_repo_format, repo_format_message, repo_slash, template_named,
    ChatTemplateId, GptContextParams, OAIRequestParams, ResponseFormat,
};
use crate::text::{chars_of, decimal, decimal_text, same_text, text_views};

verus! {

/// A command with its arguments.
#[derive(Debug, PartialEq)]
#[allow(inconsistent_fields)]
pub enum Command {
    /// Launch as a native application.
    App {  },
    /// Initialise the configuration folder.
    Init {  },
    /// Start the OpenAI-compatible server.
    Serve { host: String, port: u16 },
    /// List the local aliases, the catalog, or the local model files.
    List { remote: bool, models: bool },
    /// Pull a model file, by alias or by repository and file.
    Pull { alias: Option<String>, repo: Option<String>, filename: Option<String>, force: bool },
    /// Create a model alias.
    Create {
        alias: String,
        repo: String,
        filename: String,
        chat_template: Option<ChatTemplateId>,
        tokenizer_config: Option<String>,
        family: Option<String>,
        force: bool,
        oai_request_params: OAIRequestParams,
        context_params: GptContextParams,
    },
    /// Run an alias in interactive mode.
    Run { alias: String },
}

/// The parsed command line.
#[derive(Debug, PartialEq)]
pub struct Cli {
    pub command: Command,
}

/// What a model can be used for.
#[derive(Debug, Clone, Copy, PartialEq, Eq, Structural)]
pub enum ModelFeature {
    Chat,
}

/// The word that selects a command.
pub open spec fn command_name(command: Command) -> Seq<char> {
    match command {
        Command::App {  } => "app"@,
        Command::Init {  } => "init"@,
        Command::Serve { .. } => "serve"@,
        Command::List { .. } => "list"@,
        Command::Pull { .. } => "pull"@,
        Command::Create { .. } => "create"@,
        Command::Run { .. } => "run"@,
    }
}

impl Command {
    /// The word that selects this command.
    pub fn to_string(&self) -> (name: String)
        ensures
            name@ == command_name(*self),
    {
        match self {
            Command::App {  } => String::from_str("app"),
            Command::Init {  } => String::from_str("init"),
            Command::Serve { .. } => String::from_str("serve"),
            Command::List { .. } => String::from_str("list"),
            Command::Pull { .. } => String::from_str("pull"),
            Command::Create { .. } => String::from_str("create"),
            Command::Run { .. } => String::from_str("run"),
        }
    }
}

impl ModelFeature {
    /// The name of the feature.
    pub fn to_string(&self) -> (name: String)
        ensures
            name@ == "chat"@,
    {
        String::from_str("chat")
    }
}

/// Why a command line was refused.
#[derive(Debug, PartialEq)]
pub enum CliError {
    /// No command was named.
    MissingSubcommand,
    /// The command is not known.
    UnknownSubcommand(String),
    /// An argument that the command does not take.
    UnexpectedArgument { arg: String, usage: String },
    /// An option whose value is missing.
    MissingValue { arg: String },
    /// An option that was given more than once.
    Repeated { arg: String, usage: String },
    /// A value that the option does not accept.
    InvalidValue { value: String, arg: String, reason: String },
    /// Two arguments that exclude each other.
    Conflict { first: String, second: String, usage: String },
    /// An argument that the command needs.
    MissingRequired { arg: String, usage: String },
    /// Help was asked for; this is its text.
    DisplayHelp(String),
    /// The version was asked for; this is its text.
    DisplayVersion(String),
}

/// A refusal, by its characters.
pub enum CliErrorView {
    MissingSubcommand,
    UnknownSubcommand(Seq<char>),
    UnexpectedArgument { arg: Seq<char>, usage: Seq<char> },
    MissingValue { arg: Seq<char> },
    Repeated { arg: Seq<char>, usage: Seq<char> },
    InvalidValue { value: Seq<char>, arg: Seq<char>, reason: Seq<char> },
    Conflict { first: Seq<char>, second: Seq<char>, usage: Seq<char> },
    MissingRequired { arg: Seq<char>, usage: Seq<char> },
    DisplayHelp(Seq<char>),
    DisplayVersion(Seq<char>),
}

impl View for CliError {
    type V = CliErrorView;

    open spec fn view(&self) -> CliErrorView {
        match *self {
            CliError::MissingSubcommand => CliErrorView::MissingSubcommand,
            CliError::UnknownSubcommand(name) => CliErrorView::UnknownSubcommand(name@),
            CliError::UnexpectedArgument { arg, usage } => CliErrorView::UnexpectedArgument {
                arg: arg@,
                usage: usage@,
            },
            CliError::MissingValue { arg } => CliErrorView::MissingValue { arg: arg@ },
            CliError::Repeated { arg, usage } => CliErrorView::Repeated { arg: arg@, usage: usage@ },
            CliError::InvalidValue { value, arg, reason } => CliErrorView::InvalidValue {
                value: value@,
                arg: arg@,
                reason: reason@,
            },
            CliError::Conflict { first, second, usage } => CliErrorView::Conflict {
                first: first@,
                second: second@,
                usage: usage@,
            },
            CliError::MissingRequired { arg, usage } => CliErrorView::MissingRequired {
                arg: arg@,
                usage: usage@,
            },
            CliError::DisplayHelp(text) => CliErrorView::DisplayHelp(text@),
            CliError::DisplayVersion(text) => CliErrorView::DisplayVersion(text@),
        }
    }
}

/// The last lines of every refusal.
pub open spec fn help_hint() -> Seq<char> {
    "\n\nFor more information, try '--help'.\n"@
}

/// The text of a refusal.
pub open spec fn cli_message(e: CliErrorView) -> Seq<char> {
    match e {
        CliErrorView::MissingSubcommand =>
            "error: 'bodhi' requires a subcommand but one was not provided\n\nUsage: bodhi <COMMAND>"@
            + help_hint(),
        CliErrorView::UnknownSubcommand(name) => "error: unrecognized subcommand '"@ + name
            + "'\n\nUsage: bodhi <COMMAND>"@ + help_hint(),
        CliErrorView::UnexpectedArgument { arg, usage } => "error: unexpected argument '"@ + arg
            + "' found\n\nUsage: "@ + usage + help_hint(),
        CliErrorView::MissingValue { arg } => "error: a value is required for '"@ + arg
            + "' but none was supplied"@ + help_hint(),
        CliErrorView::Repeated { arg, usage } => "error: the argument '"@ + arg
            + "' cannot be used multiple times\n\nUsage: "@ + usage + help_hint(),
        CliErrorView::InvalidValue { value, arg, reason } => "error: invalid value '"@ + value
            + "' for '"@ + arg + "': "@ + reason + help_hint(),
        CliErrorView::Conflict { first, second, usage } => "error: the argument '"@ + first
            + "' cannot be used with '"@ + second + "'\n\nUsage: "@ + usage + help_hint(),
        CliErrorView::MissingRequired { arg, usage } =>
            "error: the following required arguments were not provided:\n  "@ + arg
            + "\n\nUsage: "@ + usage + help_hint(),
        CliErrorView::DisplayHelp(text) => text,
        CliErrorView::DisplayVersion(text) => text,
    }
}

/// The exit code of a command line that was not read as a command: 0
/// where help or the version was asked for, else 1.
pub open spec fn exit_code_of(e: CliErrorView) -> i32 {
    if e is DisplayHelp || e is DisplayVersion {
        0
    } else {
        1
    }
}

/// The lines that name the options of a table, one for each.
pub open spec fn option_lines(table: Seq<CliOption>) -> Seq<char>
    decreases table.len(),
{
    if table.len() == 0 {
        Seq::empty()
    } else {
        option_lines(table.drop_last()) + "  "@ + table.last().display@ + "\n"@
    }
}

/// The help of a command: how it is used, and the options that it takes.
pub open spec fn help_text(usage: Seq<char>, table: Seq<CliOption>) -> Seq<char> {
    "Usage: "@ + usage + "\n\nOptions:\n"@ + option_lines(table) + "  -h, --help\n"@
}

/// The help of a command.
pub fn help_for(usage: &str, table: &Vec<CliOption>) -> (text: String)
    ensures
        text@ == help_text(usage@, table@),
{
    let mut lines = String::new();
    let mut i: usize = 0;
    assert(table@.take(0) =~= Seq::<CliOption>::empty());
    while i < table.len()
        invariant
            i <= table@.len(),
            lines@ == option_lines(table@.take(i as int)),
        decreases table@.len() - i,
    {
        assert(table@.take(i + 1).drop_last() =~= table@.take(i as int));
        assert(table@.take(i + 1).last() == table@[i as int]);
        lines.append("  ");
        lines.append(table[i].display);
        lines.append("\n");
        i += 1;
    }
    assert(table@.take(table@.len() as int) =~= table@);
    let mut text = String::from_str("Usage: ");
    text.append(usage);
    text.append("\n\nOptions:\n");
    text.append(lines.as_str());
    text.append("  -h, --help\n");
    text
}

/// The help of the program: what it is, how it is used, and its commands.
pub open spec fn top_help() -> Seq<char> {
    "Run GenerativeAI LLMs locally and serve them via OpenAI compatible API\n\nUsage: bodhi <COMMAND>\n\nCommands:\n  app     launch as native app\n  init    initialize the configs folder\n  serve   start the OpenAI compatible REST API server and Web UI\n  list    list the model aliases configured on local system\n  pull    Pull a gguf model from huggingface repository\n  create  Create a new model alias\n  run     Run the given model alias in interactive mode\n  help    Print this message\n\nOptions:\n  -h, --help     Print help\n  -V, --version  Print version\n"@
}

/// The version of the program, as it is printed.
pub open spec fn version_text() -> Seq<char> {
    "bodhi 0.1.0\n"@
}

impl CliError {
    /// The exit code that goes with the refusal.
    pub fn exit_code(&self) -> (code: i32)
        ensures
            code == exit_code_of(self@),
    {
        match self {
            CliError::DisplayHelp(_) => 0,
            CliError::DisplayVersion(_) => 0,
            _ => 1,
        }
    }

    /// The text of the refusal, as it is printed.
    pub fn to_string(&self) -> (text: String)
        ensures
            text@ == cli_message(self@),
    {
        let mut text = String::new();
        match self {
            CliError::DisplayHelp(help) => {
                return help.clone();
            },
            CliError::DisplayVersion(version) => {
                return version.clone();
            },
            CliError::MissingSubcommand => {
                text = String::from_str(
                    "error: 'bodhi' requires a subcommand but one was not provided\n\nUsage: bodhi <COMMAND>",
                );
            },
            CliError::UnknownSubcommand(name) => {
                text = String::from_str("error: unrecognized subcommand '");
                text.append(name.as_str());
                text.append("'\n\nUsage: bodhi <COMMAND>");
            },
            CliError::UnexpectedArgument { arg, usage } => {
                text = String::from_str("error: unexpected argument '");
                text.append(arg.as_str());
                text.append("' found\n\nUsage: ");
                text.append(usage.as_str());
            },
            CliError::MissingValue { arg } => {
                text = String::from_str("error: a value is required for '");
                text.append(arg.as_str());
                text.append("' but none was supplied");
            },
            CliError::Repeated { arg, usage } => {
                text = String::from_str("error: the argument '");
                text.append(arg.as_str());
                text.append("' cannot be used multiple times\n\nUsage: ");
                text.append(usage.as_str());
            },
            CliError::InvalidValue { value, arg, reason } => {
                text = String::from_str("error: invalid value '");
                text.append(value.as_str());
                text.append("' for '");
                text.append(arg.as_str());
                text.append("': ");
                text.append(reason.as_str());
            },
            CliError::Conflict { first, second, usage } => {
                text = String::from_str("error: the argument '");
                text.append(first.as_str());
                text.append("' cannot be used with '");
                text.append(second.as_str());
                text.append("'\n\nUsage: ");
                text.append(usage.as_str());
            },
            CliError::MissingRequired { arg, usage } => {
                text = String::from_str(
                    "error: the following required arguments were not provided:\n  ",
                );
                text.append(arg.as_str());
                text.append("\n\nUsage: ");
                text.append(usage.as_str());
            },
        }
        text.append("\n\nFor more information, try '--help'.\n");
        text
    }
}

/// The decimal notation of a whole number, with its sign.
pub open spec fn int_text(n: int) -> Seq<char> {
    if n < 0 {
        "-"@ + decimal((-n) as nat)
    } else {
        decimal(n as nat)
    }
}

/// The whole number that a text denotes: plain digits, at most eighteen
/// of them, after an optional sign.
pub open spec fn whole_number(text: Seq<char>) -> Option<int> {
    if text.len() > 0 && text[0] == '-' {
        if is_number(text.skip(1)) {
            Some(-(digits_value(text.skip(1)) as int))
        } else {
            None
        }
    } else if text.len() > 0 && text[0] == '+' {
        if is_number(text.skip(1)) {
            Some(digits_value(text.skip(1)) as int)
        } else {
            None
        }
    } else if is_number(text) {
        Some(digits_value(text) as int)
    } else {
        None
    }
}

/// What a whole number within bounds reads as: the number, or why not.
pub open spec fn ranged(text: Seq<char>, min: int, max: int) -> Result<int, Seq<char>> {
    match whole_number(text) {
        None => Err("invalid digit found in string"@),
        Some(n) => if min <= n <= max {
            Ok(n)
        } else {
            Err(int_text(n) + " is not in "@ + int_text(min) + "..="@ + int_text(max))
        },
    }
}

/// The decimal notation of a whole number, with its sign.
pub fn int_to_text(n: i64) -> (text: String)
    ensures
        text@ == int_text(n as int),
{
    if n < 0 {
        let mut text = String::from_str("-");
        let magnitude: u64 = if n == i64::MIN {
            0x8000_0000_0000_0000u64
        } else {
            (-n) as u64
        };
        text.append(decimal_text(magnitude).as_str());
        text
    } else {
        decimal_text(n as u64)
    }
}

/// Reads a whole number.
pub fn parse_whole(text: &str) -> (r: Option<i64>)
    ensures
        match whole_number(text@) {
            Some(n) => r == Some(n as i64) && i64::MIN < n < i64::MAX,
            None => r is None,
        },
{
    let n: usize = text.unicode_len();
    if n > 0 && text.get_char(0) == '-' {
        let digits = text.substring_char(1, n);
        assert(digits@ =~= text@.skip(1));
        match parse_number(digits) {
            Some(value) => {
                proof {
                    lemma_number_bound(digits@);
                }
                Some(-(value as i64))
            },
            None => None,
        }
    } else if n > 0 && text.get_char(0) == '+' {
        let digits = text.substring_char(1, n);
        assert(digits@ =~= text@.skip(1));
        match parse_number(digits) {
            Some(value) => {
                proof {
                    lemma_number_bound(digits@);
                }
                Some(value as i64)
            },
            None => None,
        }
    } else {
        match parse_number(text) {
            Some(value) => {
                proof {
                    lemma_number_bound(text@);
                }
                Some(value as i64)
            },
            None => None,
        }
    }
}

/// A number of at most eighteen digits is below ten to the eighteenth.
pub proof fn lemma_number_bound(s: Seq<char>)
    requires
        is_number(s) || s.len() == 0,
    ensures
        digits_value(s) < pow10(s.len()),
        pow10(s.len()) <= 1_000_000_000_000_000_000,
    decreases s.len(),
{
    reveal_with_fuel(pow10, 20);
    if s.len() > 0 {
        assert(is_digit(s[s.len() - 1]));
        if s.len() > 1 {
            assert forall|i: int| 0 <= i < s.drop_last().len() implies is_digit(
                #[trigger] s.drop_last()[i],
            ) by {
                assert(s.drop_last()[i] == s[i]);
            }
        }
        lemma_number_bound(s.drop_last());
    }
}

/// Reads a whole number within bounds.
pub fn parse_ranged(text: &str, min: i64, max: i64) -> (r: Result<i64, String>)
    ensures
        match ranged(text@, min as int, max as int) {
            Ok(n) => r == Ok::<i64, String>(n as i64),
            Err(reason) => r matches Err(m) && m@ == reason,
        },
{
    match parse_whole(text) {
        None => Err(String::from_str("invalid digit found in string")),
        Some(n) => {
            if min <= n && n <= max {
                Ok(n)
            } else {
                let mut m = int_to_text(n);
                m.append(" is not in ");
                m.append(int_to_text(min).as_str());
                m.append("..=");
                m.append(int_to_text(max).as_str());
                Err(m)
            }
        },
    }
}

/// The defaults of a request, by their characters.
pub struct ParamsView {
    pub frequency_penalty: Option<Seq<char>>,
    pub max_tokens: Option<u16>,
    pub presence_penalty: Option<Seq<char>>,
    pub response_format: Option<ResponseFormat>,
    pub seed: Option<i64>,
    pub stop: Seq<Seq<char>>,
    pub temperature: Option<Seq<char>>,
    pub top_p: Option<Seq<char>>,
    pub user: Option<Seq<char>>,
}

/// A command, by its characters.
#[allow(inconsistent_fields)]
pub enum CommandView {
    App,
    Init,
    Serve { host: Seq<char>, port: u16 },
    List { remote: bool, models: bool },
    Pull {
        alias: Option<Seq<char>>,
        repo: Option<Seq<char>>,
        filename: Option<Seq<char>>,
        force: bool,
    },
    Create {
        alias: Seq<char>,
        repo: Seq<char>,
        filename: Seq<char>,
        chat_template: Option<ChatTemplateId>,
        tokenizer_config: Option<Seq<char>>,
        family: Option<Seq<char>>,
        force: bool,
        oai_request_params: ParamsView,
        context_params: GptContextParams,
    },
    Run { alias: Seq<char> },
}

/// The defaults of a request, by their characters.
pub open spec fn params_view(p: OAIRequestParams) -> ParamsView {
    ParamsView {
        frequency_penalty: p.frequency_penalty.deep_view(),
        max_tokens: p.max_tokens,
        presence_penalty: p.presence_penalty.deep_view(),
        response_format: p.response_format,
        seed: p.seed,
        stop: text_views(p.stop@),
        temperature: p.temperature.deep_view(),
        top_p: p.top_p.deep_view(),
        user: p.user.deep_view(),
    }
}

impl View for Command {
    type V = CommandView;

    open spec fn view(&self) -> CommandView {
        match *self {
            Command::App {  } => CommandView::App,
            Command::Init {  } => CommandView::Init,
            Command::Serve { host, port } => CommandView::Serve { host: host@, port },
            Command::List { remote, models } => CommandView::List { remote, models },
            Command::Pull { alias, repo, filename, force } => CommandView::Pull {
                alias: alias.deep_view(),
                repo: repo.deep_view(),
                filename: filename.deep_view(),
                force,
            },
            Command::Create {
                alias,
                repo,
                filename,
                chat_template,
                tokenizer_config,
                family,
                force,
                oai_request_params,
                context_params,
            } => CommandView::Create {
                alias: alias@,
                repo: repo@,
                filename: filename@,
                chat_template,
                tokenizer_config: tokenizer_config.deep_view(),
                family: family.deep_view(),
                force,
                oai_request_params: params_view(oai_request_params),
                context_params,
            },
            Command::Run { alias } => CommandView::Run { alias: alias@ },
        }
    }
}

/// What a value must look like.
#[derive(Debug, Clone, Copy, PartialEq, Eq, Structural)]
pub enum ValueKind {
    /// Any text.
    Text,
    /// A hub repository, `owner/repo`.
    Repo,
    /// The name of a GGUF file.
    Gguf,
    /// A number in decimal notation.
    Decimal,
    /// The name of a built-in chat template.
    Template,
    /// `text` or `json_object`.
    Format,
}

/// Why a value is not of its kind, or `None` where it is.
pub open spec fn refusal(kind: ValueKind, value: Seq<char>) -> Option<Seq<char>> {
    match kind {
        ValueKind::Text => None,
        ValueKind::Repo => if is_repo_format(value) {
            None
        } else {
            Some(repo_format_message())
        },
        ValueKind::Gguf => if is_gguf_filename(value) {
            None
        } else {
            Some(gguf_error())
        },
        ValueKind::Decimal => if is_decimal(value) {
            None
        } else {
            Some("invalid float literal"@)
        },
        ValueKind::Template => if template_named(value) is Some {
            None
        } else {
            Some("unknown chat template"@)
        },
        ValueKind::Format => if value == "text"@ || value == "json_object"@ {
            None
        } else {
            Some("unknown response format"@)
        },
    }
}

/// The one value of an option, checked for its kind: none where the
/// option is absent; a refusal where it is repeated or its value is not
/// of the kind.
pub open spec fn text_option(
    items: Seq<Item>,
    at: int,
    display: Seq<char>,
    usage: Seq<char>,
    kind: ValueKind,
) -> Result<Option<Seq<char>>, CliErrorView> {
    let given = values(items, at);
    if given.len() == 0 {
        Ok(None)
    } else if given.len() > 1 {
        Err(CliErrorView::Repeated { arg: display, usage })
    } else {
        match refusal(kind, given[0]) {
            None => Ok(Some(given[0])),
            Some(reason) => Err(CliErrorView::InvalidValue { value: given[0], arg: display, reason }),
        }
    }
}

/// The one value of an option that takes a whole number within bounds.
pub open spec fn number_option(
    items: Seq<Item>,
    at: int,
    display: Seq<char>,
    usage: Seq<char>,
    min: int,
    max: int,
) -> Result<Option<int>, CliErrorView> {
    let given = values(items, at);
    if given.len() == 0 {
        Ok(None)
    } else if given.len() > 1 {
        Err(CliErrorView::Repeated { arg: display, usage })
    } else {
        match ranged(given[0], min, max) {
            Ok(n) => Ok(Some(n)),
            Err(reason) => Err(CliErrorView::InvalidValue { value: given[0], arg: display, reason }),
        }
    }
}

/// Whether a flag was given; twice is refused.
pub open spec fn flag_option(items: Seq<Item>, at: int, display: Seq<char>, usage: Seq<char>) -> Result<
    bool,
    CliErrorView,
> {
    if flag_count(items, at) > 1 {
        Err(CliErrorView::Repeated { arg: display, usage })
    } else {
        Ok(flag_count(items, at) == 1)
    }
}

/// The characters of the outcome of reading a text option.
pub open spec fn text_outcome(r: Result<Option<String>, CliError>) -> Result<
    Option<Seq<char>>,
    CliErrorView,
> {
    match r {
        Ok(value) => Ok(value.deep_view()),
        Err(e) => Err(e@),
    }
}

/// The outcome of reading a number option, in whole numbers.
pub open spec fn number_outcome(r: Result<Option<i64>, CliError>) -> Result<
    Option<int>,
    CliErrorView,
> {
    match r {
        Ok(Some(n)) => Ok(Some(n as int)),
        Ok(None) => Ok(None),
        Err(e) => Err(e@),
    }
}

/// The outcome of reading a flag.
pub open spec fn flag_outcome(r: Result<bool, CliError>) -> Result<bool, CliErrorView> {
    match r {
        Ok(b) => Ok(b),
        Err(e) => Err(e@),
    }
}

/// The outcome of reading a command.
pub open spec fn command_outcome(r: Result<Command, CliError>) -> Result<CommandView, CliErrorView> {
    match r {
        Ok(command) => Ok(command@),
        Err(e) => Err(e@),
    }
}

/// Is the value of its kind? Where not, the reason.
pub fn check_kind(kind: ValueKind, value: &str) -> (r: Option<String>)
    ensures
        r.deep_view() == refusal(kind, value@),
{
    match kind {
        ValueKind::Text => None,
        ValueKind::Repo => match repo_parser(value) {
            Ok(_) => None,
            Err(reason) => Some(reason),
        },
        ValueKind::Gguf => match gguf_filename_parser(value) {
            Ok(_) => None,
            Err(reason) => Some(reason),
        },
        ValueKind::Decimal => if check_decimal(value) {
            None
        } else {
            Some(String::from_str("invalid float literal"))
        },
        ValueKind::Template => match ChatTemplateId::parse(value) {
            Some(_) => None,
            None => Some(String::from_str("unknown chat template")),
        },
        ValueKind::Format => if same_text(value, "text") || same_text(value, "json_object") {
            None
        } else {
            Some(String::from_str("unknown response format"))
        },
    }
}

/// Reads the one value of an option and checks its kind.
pub(crate) fn text_value(
    args: &Vec<Arg>,
    table: &Vec<CliOption>,
    at: usize,
    usage: &str,
    kind: ValueKind,
) -> (r: Result<Option<String>, CliError>)
    requires
        at < table@.len(),
    ensures
        text_outcome(r) == text_option(
            items_of(args@),
            at as int,
            table@[at as int].display@,
            usage@,
            kind,
        ),
{
    let mut given = option_values(args, at);
    if given.len() == 0 {
        return Ok(None);
    }
    if given.len() > 1 {
        return Err(
            CliError::Repeated {
                arg: String::from_str(table[at].display),
                usage: String::from_str(usage),
            },
        );
    }
    let value = given[0].clone();
    match check_kind(kind, value.as_str()) {
        None => Ok(Some(value)),
        Some(reason) => Err(
            CliError::InvalidValue { value, arg: String::from_str(table[at].display), reason },
        ),
    }
}

/// Reads the one value of an option that takes a whole number.
pub(crate) fn number_value(
    args: &Vec<Arg>,
    table: &Vec<CliOption>,
    at: usize,
    usage: &str,
    min: i64,
    max: i64,
) -> (r: Result<Option<i64>, CliError>)
    requires
        at < table@.len(),
    ensures
        number_outcome(r) == number_option(
            items_of(args@),
            at as int,
            table@[at as int].display@,
            usage@,
            min as int,
            max as int,
        ),
        r matches Ok(Some(n)) ==> min <= n <= max,
{
    let given = option_values(args, at);
    if given.len() == 0 {
        return Ok(None);
    }
    if given.len() > 1 {
        return Err(
            CliError::Repeated {
                arg: String::from_str(table[at].display),
                usage: String::from_str(usage),
            },
        );
    }
    let value = given[0].clone();
    match parse_ranged(value.as_str(), min, max) {
        Ok(n) => Ok(Some(n)),
        Err(reason) => Err(
            CliError::InvalidValue { value, arg: String::from_str(table[at].display), reason },
        ),
    }
}

/// Reads a flag.
pub(crate) fn flag_value(args: &Vec<Arg>, table: &Vec<CliOption>, at: usize, usage: &str) -> (r: Result<
    bool,
    CliError,
>)
    requires
        at < table@.len(),
    ensures
        flag_outcome(r) == flag_option(
            items_of(args@),
            at as int,
            table@[at as int].display@,
            usage@,
        ),
{
    let n = count_flag(args, at);
    if n > 1 {
        Err(
            CliError::Repeated {
                arg: String::from_str(table[at].display),
                usage: String::from_str(usage),
            },
        )
    } else {
        Ok(n == 1)
    }
}

/// The refusal for arguments that cannot be read against the table.
pub open spec fn scan_refusal(table: Seq<CliOption>, e: ScanError, usage: Seq<char>) -> CliErrorView {
    match e {
        ScanError::Unexpected(token) => CliErrorView::UnexpectedArgument { arg: token, usage },
        ScanError::MissingValue(at) => CliErrorView::MissingValue { arg: table[at].display@ },
        ScanError::Help => CliErrorView::DisplayHelp(help_text(usage, table)),
    }
}

/// Reads the arguments of a command, which follow the program's name and
/// the command's, against its table.
pub(crate) fn read_args(table: &Vec<CliOption>, tokens: &Vec<&str>, usage: &str) -> (r: Result<
    Vec<Arg>,
    CliError,
>)
    requires
        tokens@.len() >= 2,
    ensures
        match scan(table@, tokens_of(tokens@).skip(2)) {
            Ok(items) => r matches Ok(args) && items_of(args@) == items,
            Err(e) => r matches Err(refused) && refused@ == scan_refusal(table@, e, usage@),
        },
{
    match scan_args(table, tokens, 2) {
        Ok(args) => Ok(args),
        Err(ScanStop::Unexpected(at)) => Err(
            CliError::UnexpectedArgument {
                arg: String::from_str(tokens[at]),
                usage: String::from_str(usage),
            },
        ),
        Err(ScanStop::MissingValue(option)) => Err(
            CliError::MissingValue { arg: String::from_str(table[option].display) },
        ),
        Err(ScanStop::Help) => Err(CliError::DisplayHelp(help_for(usage, table))),
    }
}

/// The options of `serve`.
pub open spec fn serve_table() -> Seq<CliOption> {
    seq![
        CliOption { long: "", short: "-H", takes_value: true, display: "-H <HOST>" },
        CliOption { long: "", short: "-p", takes_value: true, display: "-p <PORT>" },
    ]
}

/// The options of `list`.
pub open spec fn list_table() -> Seq<CliOption> {
    seq![
        CliOption { long: "--remote", short: "-r", takes_value: false, display: "--remote" },
        CliOption { long: "--models", short: "-m", takes_value: false, display: "--models" },
    ]
}

/// The options of `pull`.
pub open spec fn pull_table() -> Seq<CliOption> {
    seq![
        CliOption { long: "--repo", short: "-r", takes_value: true, display: "--repo <REPO>" },
        CliOption {
            long: "--filename",
            short: "-f",
            takes_value: true,
            display: "--filename <FILENAME>",
        },
        CliOption { long: "--force", short: "", takes_value: false, display: "--force" },
    ]
}

/// How `serve` is used.
pub open spec fn serve_usage() -> Seq<char> {
    "bodhi serve [OPTIONS]"@
}

/// How `list` is used.
pub open spec fn list_usage() -> Seq<char> {
    "bodhi list [OPTIONS]"@
}

/// How `pull` is used.
pub open spec fn pull_usage() -> Seq<char> {
    "bodhi pull [OPTIONS] <ALIAS|--repo <REPO>>"@
}

/// How `run` is used.
pub open spec fn run_usage() -> Seq<char> {
    "bodhi run <ALIAS>"@
}

/// A command without arguments: whatever follows it is refused.
pub open spec fn unit_command(rest: Seq<Seq<char>>, usage: Seq<char>, command: CommandView) -> Result<
    CommandView,
    CliErrorView,
> {
    if rest.len() == 0 {
        Ok(command)
    } else if is_help(rest[0]) {
        Err(CliErrorView::DisplayHelp(help_text(usage, Seq::empty())))
    } else {
        Err(CliErrorView::UnexpectedArgument { arg: rest[0], usage })
    }
}

/// `serve`: the host, `127.0.0.1` unless given with `-H`, and the port,
/// 1135 unless given with `-p`, which takes a port from 1 to 65535.
pub open spec fn serve_command(items: Seq<Item>) -> Result<CommandView, CliErrorView> {
    let host = text_option(items, 0, "-H <HOST>"@, serve_usage(), ValueKind::Text);
    let port = number_option(items, 1, "-p <PORT>"@, serve_usage(), 1, 65535);
    if positionals(items).len() > 0 {
        Err(CliErrorView::UnexpectedArgument { arg: positionals(items)[0], usage: serve_usage() })
    } else if host is Err {
        Err(host->Err_0)
    } else if port is Err {
        Err(port->Err_0)
    } else {
        Ok(
            CommandView::Serve {
                host: match host->Ok_0 {
                    Some(host) => host,
                    None => "127.0.0.1"@,
                },
                port: match port->Ok_0 {
                    Some(port) => port as u16,
                    None => 1135u16,
                },
            },
        )
    }
}

/// `list`: the catalog with `--remote`, the model files with `--models`,
/// and not both.
pub open spec fn list_command(items: Seq<Item>) -> Result<CommandView, CliErrorView> {
    let remote = flag_option(items, 0, "--remote"@, list_usage());
    let models = flag_option(items, 1, "--models"@, list_usage());
    if positionals(items).len() > 0 {
        Err(CliErrorView::UnexpectedArgument { arg: positionals(items)[0], usage: list_usage() })
    } else if remote is Err {
        Err(remote->Err_0)
    } else if models is Err {
        Err(models->Err_0)
    } else if remote->Ok_0 && models->Ok_0 {
        Err(
            CliErrorView::Conflict {
                first: "--remote"@,
                second: "--models"@,
                usage: "bodhi list --remote"@,
            },
        )
    } else {
        Ok(CommandView::List { remote: remote->Ok_0, models: models->Ok_0 })
    }
}

/// `pull`: an alias, or a repository with a GGUF file of it; never both,
/// and never a repository without a file or a file without a repository.
pub open spec fn pull_command(items: Seq<Item>) -> Result<CommandView, CliErrorView> {
    let given = positionals(items);
    let repo = text_option(items, 0, "--repo <REPO>"@, pull_usage(), ValueKind::Repo);
    let filename = text_option(items, 1, "--filename <FILENAME>"@, pull_usage(), ValueKind::Gguf);
    let force = flag_option(items, 2, "--force"@, pull_usage());
    if given.len() > 1 {
        Err(CliErrorView::UnexpectedArgument { arg: given[1], usage: pull_usage() })
    } else if repo is Err {
        Err(repo->Err_0)
    } else if filename is Err {
        Err(filename->Err_0)
    } else if force is Err {
        Err(force->Err_0)
    } else if given.len() == 1 && repo->Ok_0 is Some {
        Err(
            CliErrorView::Conflict {
                first: "[ALIAS]"@,
                second: "--repo <REPO>"@,
                usage: "bodhi pull --filename <FILENAME> <ALIAS|--repo <REPO>>"@,
            },
        )
    } else if filename->Ok_0 is Some && repo->Ok_0 is None {
        Err(CliErrorView::MissingRequired { arg: "--repo <REPO>"@, usage: pull_usage() })
    } else if given.len() == 0 && repo->Ok_0 is None {
        Err(CliErrorView::MissingRequired { arg: "<ALIAS|--repo <REPO>>"@, usage: pull_usage() })
    } else if repo->Ok_0 is Some && filename->Ok_0 is None {
        Err(CliErrorView::MissingRequired { arg: "--filename <FILENAME>"@, usage: pull_usage() })
    } else {
        Ok(
            CommandView::Pull {
                alias: if given.len() == 1 {
                    Some(given[0])
                } else {
                    None
                },
                repo: repo->Ok_0,
                filename: filename->Ok_0,
                force: force->Ok_0,
            },
        )
    }
}

/// `run`: one alias.
pub open spec fn run_command(items: Seq<Item>) -> Result<CommandView, CliErrorView> {
    let given = positionals(items);
    if given.len() == 0 {
        Err(CliErrorView::MissingRequired { arg: "<ALIAS>"@, usage: run_usage() })
    } else if given.len() > 1 {
        Err(CliErrorView::UnexpectedArgument { arg: given[1], usage: run_usage() })
    } else {
        Ok(CommandView::Run { alias: given[0] })
    }
}

/// The arguments read against a table and handed to a command.
pub open spec fn with_items(
    table: Seq<CliOption>,
    rest: Seq<Seq<char>>,
    usage: Seq<char>,
    command: spec_fn(Seq<Item>) -> Result<CommandView, CliErrorView>,
) -> Result<CommandView, CliErrorView> {
    match scan(table, rest) {
        Ok(items) => command(items),
        Err(e) => Err(scan_refusal(table, e, usage)),
    }
}

fn serve_options() -> (table: Vec<CliOption>)
    ensures
        table@ == serve_table(),
{
    let mut table: Vec<CliOption> = Vec::new();
    table.push(CliOption { long: "", short: "-H", takes_value: true, display: "-H <HOST>" });
    table.push(CliOption { long: "", short: "-p", takes_value: true, display: "-p <PORT>" });
    assert(table@ =~= serve_table());
    table
}

fn list_options() -> (table: Vec<CliOption>)
    ensures
        table@ == list_table(),
{
    let mut table: Vec<CliOption> = Vec::new();
    table.push(
        CliOption { long: "--remote", short: "-r", takes_value: false, display: "--remote" },
    );
    table.push(
        CliOption { long: "--models", short: "-m", takes_value: false, display: "--models" },
    );
    assert(table@ =~= list_table());
    table
}

fn pull_options() -> (table: Vec<CliOption>)
    ensures
        table@ == pull_table(),
{
    let mut table: Vec<CliOption> = Vec::new();
    table.push(
        CliOption { long: "--repo", short: "-r", takes_value: true, display: "--repo <REPO>" },
    );
    table.push(
        CliOption {
            long: "--filename",
            short: "-f",
            takes_value: true,
            display: "--filename <FILENAME>",
        },
    );
    table.push(CliOption { long: "--force", short: "", takes_value: false, display: "--force" });
    assert(table@ =~= pull_table());
    table
}

fn unexpected(arg: &str, usage: &str) -> (e: CliError)
    ensures
        e@ == (CliErrorView::UnexpectedArgument { arg: arg@, usage: usage@ }),
{
    CliError::UnexpectedArgument { arg: String::from_str(arg), usage: String::from_str(usage) }
}

fn missing(arg: &str, usage: &str) -> (e: CliError)
    ensures
        e@ == (CliErrorView::MissingRequired { arg: arg@, usage: usage@ }),
{
    CliError::MissingRequired { arg: String::from_str(arg), usage: String::from_str(usage) }
}

fn conflict(first: &str, second: &str, usage: &str) -> (e: CliError)
    ensures
        e@ == (CliErrorView::Conflict { first: first@, second: second@, usage: usage@ }),
{
    CliError::Conflict {
        first: String::from_str(first),
        second: String::from_str(second),
        usage: String::from_str(usage),
    }
}

/// Reads the arguments of `serve`.
pub(crate) fn parse_serve(tokens: &Vec<&str>) -> (r: Result<Command, CliError>)
    requires
        tokens@.len() >= 2,
    ensures
        command_outcome(r) == with_items(
            serve_table(),
            tokens_of(tokens@).skip(2),
            serve_usage(),
            |items: Seq<Item>| serve_command(items),
        ),
        r matches Ok(Command::Serve { port, .. }) ==> port >= 1,
        r matches Ok(command) ==> command is Serve,
{
    let usage = "bodhi serve [OPTIONS]";
    let table = serve_options();
    let args = match read_args(&table, tokens, usage) {
        Ok(args) => args,
        Err(e) => {
            return Err(e);
        },
    };
    let given = positional_values(&args);
    if given.len() > 0 {
        return Err(unexpected(given[0].as_str(), usage));
    }
    let host = match text_value(&args, &table, 0, usage, ValueKind::Text) {
        Ok(host) => host,
        Err(e) => {
            return Err(e);
        },
    };
    let port = match number_value(&args, &table, 1, usage, 1, 65535) {
        Ok(port) => port,
        Err(e) => {
            return Err(e);
        },
    };
    let host = match host {
        Some(host) => host,
        None => String::from_str("127.0.0.1"),
    };
    let port: u16 = match port {
        Some(port) => port as u16,
        None => 1135,
    };
    Ok(Command::Serve { host, port })
}

/// Reads the arguments of `list`.
pub(crate) fn parse_list(tokens: &Vec<&str>) -> (r: Result<Command, CliError>)
    requires
        tokens@.len() >= 2,
    ensures
        command_outcome(r) == with_items(
            list_table(),
            tokens_of(tokens@).skip(2),
            list_usage(),
            |items: Seq<Item>| list_command(items),
        ),
        r matches Ok(Command::List { remote, models }) ==> !(remote && models),
        r matches Ok(command) ==> command is List,
{
    let usage = "bodhi list [OPTIONS]";
    let table = list_options();
    let args = match read_args(&table, tokens, usage) {
        Ok(args) => args,
        Err(e) => {
            return Err(e);
        },
    };
    let given = positional_values(&args);
    if given.len() > 0 {
        return Err(unexpected(given[0].as_str(), usage));
    }
    let remote = match flag_value(&args, &table, 0, usage) {
        Ok(remote) => remote,
        Err(e) => {
            return Err(e);
        },
    };
    let models = match flag_value(&args, &table, 1, usage) {
        Ok(models) => models,
        Err(e) => {
            return Err(e);
        },
    };
    if remote && models {
        return Err(conflict("--remote", "--models", "bodhi list --remote"));
    }
    Ok(Command::List { remote, models })
}

/// Reads the arguments of `pull`.
pub(crate) fn parse_pull(tokens: &Vec<&str>) -> (r: Result<Command, CliError>)
    requires
        tokens@.len() >= 2,
    ensures
        command_outcome(r) == with_items(
            pull_table(),
            tokens_of(tokens@).skip(2),
            pull_usage(),
            |items: Seq<Item>| pull_command(items),
        ),
        r matches Ok(Command::Pull { alias, repo, filename, .. }) ==> alias is Some || (repo is Some
            && filename is Some),
        r matches Ok(command) ==> command is Pull,
{
    let usage = "bodhi pull [OPTIONS] <ALIAS|--repo <REPO>>";
    let table = pull_options();
    let args = match read_args(&table, tokens, usage) {
        Ok(args) => args,
        Err(e) => {
            return Err(e);
        },
    };
    let given = positional_values(&args);
    if given.len() > 1 {
        return Err(unexpected(given[1].as_str(), usage));
    }
    let repo = match text_value(&args, &table, 0, usage, ValueKind::Repo) {
        Ok(repo) => repo,
        Err(e) => {
            return Err(e);
        },
    };
    let filename = match text_value(&args, &table, 1, usage, ValueKind::Gguf) {
        Ok(filename) => filename,
        Err(e) => {
            return Err(e);
        },
    };
    let force = match flag_value(&args, &table, 2, usage) {
        Ok(force) => force,
        Err(e) => {
            return Err(e);
        },
    };
    if given.len() == 1 && repo.is_some() {
        return Err(
            conflict(
                "[ALIAS]",
                "--repo <REPO>",
                "bodhi pull --filename <FILENAME> <ALIAS|--repo <REPO>>",
            ),
        );
    }
    if filename.is_some() && repo.is_none() {
        return Err(missing("--repo <REPO>", usage));
    }
    if given.len() == 0 && repo.is_none() {
        return Err(missing("<ALIAS|--repo <REPO>>", usage));
    }
    if repo.is_some() && filename.is_none() {
        return Err(missing("--filename <FILENAME>", usage));
    }
    let alias = if given.len() == 1 {
        Some(given[0].clone())
    } else {
        None
    };
    Ok(Command::Pull { alias, repo, filename, force })
}

/// Reads the arguments of `run`.
pub(crate) fn parse_run(tokens: &Vec<&str>) -> (r: Result<Command, CliError>)
    requires
        tokens@.len() >= 2,
    ensures
        command_outcome(r) == with_items(
            Seq::<CliOption>::empty(),
            tokens_of(tokens@).skip(2),
            run_usage(),
            |items: Seq<Item>| run_command(items),
        ),
        r matches Ok(command) ==> command is Run,
{
    let usage = "bodhi run <ALIAS>";
    let table: Vec<CliOption> = Vec::new();
    assert(table@ =~= Seq::<CliOption>::empty());
    let args = match read_args(&table, tokens, usage) {
        Ok(args) => args,
        Err(e) => {
            return Err(e);
        },
    };
    let given = positional_values(&args);
    if given.len() == 0 {
        return Err(missing("<ALIAS>", usage));
    }
    if given.len() > 1 {
        return Err(unexpected(given[1].as_str(), usage));
    }
    Ok(Command::Run { alias: given[0].clone() })
}

/// Reads a command that takes no arguments.
pub(crate) fn parse_unit(tokens: &Vec<&str>, usage: &str, command: Command) -> (r: Result<Command, CliError>)
    requires
        tokens@.len() >= 2,
    ensures
        command_outcome(r) == unit_command(tokens_of(tokens@).skip(2), usage@, command@),
        r matches Ok(read) ==> read == command,
{
    if tokens.len() == 2 {
        Ok(command)
    } else {
        assert(tokens_of(tokens@).skip(2)[0] == tokens@[2]@);
        if asks_help(tokens[2]) {
            let table: Vec<CliOption> = Vec::new();
            assert(table@ =~= Seq::<CliOption>::empty());
            Err(CliError::DisplayHelp(help_for(usage, &table)))
        } else {
            Err(unexpected(tokens[2], usage))
        }
    }
}

/// The options of `create`.
pub open spec fn create_table() -> Seq<CliOption> {
    seq![
        CliOption { long: "--repo", short: "-r", takes_value: true, display: "--repo <REPO>" },
        CliOption { long: "--filename", short: "-f", takes_value: true, display: "--filename <FILENAME>" },
        CliOption { long: "--chat-template", short: "", takes_value: true, display: "--chat-template <CHAT_TEMPLATE>" },
        CliOption { long: "--tokenizer-config", short: "", takes_value: true, display: "--tokenizer-config <TOKENIZER_CONFIG>" },
        CliOption { long: "--family", short: "", takes_value: true, display: "--family <FAMILY>" },
        CliOption { long: "--force", short: "", takes_value: false, display: "--force" },
        CliOption { long: "--frequency-penalty", short: "", takes_value: true, display: "--frequency-penalty <FREQUENCY_PENALTY>" },
        CliOption { long: "--max-tokens", short: "", takes_value: true, display: "--max-tokens <MAX_TOKENS>" },
        CliOption { long: "--presence-penalty", short: "", takes_value: true, display: "--presence-penalty <PRESENCE_PENALTY>" },
        CliOption { long: "--response-format", short: "", takes_value: true, display: "--response-format <RESPONSE_FORMAT>" },
        CliOption { long: "--seed", short: "", takes_value: true, display: "--seed <SEED>" },
        CliOption { long: "--stop", short: "", takes_value: true, display: "--stop <STOP>" },
        CliOption { long: "--temperature", short: "", takes_value: true, display: "--temperature <TEMPERATURE>" },
        CliOption { long: "--top-p", short: "", takes_value: true, display: "--top-p <TOP_P>" },
        CliOption { long: "--user", short: "", takes_value: true, display: "--user <USER>" },
        CliOption { long: "--n-threads", short: "", takes_value: true, display: "--n-threads <N_THREADS>" },
        CliOption { long: "--n-ctx", short: "", takes_value: true, display: "--n-ctx <N_CTX>" },
        CliOption { long: "--n-parallel", short: "", takes_value: true, display: "--n-parallel <N_PARALLEL>" },
        CliOption { long: "--n-predict", short: "", takes_value: true, display: "--n-predict <N_PREDICT>" },
    ]
}

/// How `create` is used.
pub open spec fn create_usage() -> Seq<char> {
    "bodhi create [OPTIONS] --repo <REPO> --filename <FILENAME> <--chat-template <CHAT_TEMPLATE>|--tokenizer-config <TOKENIZER_CONFIG>> <ALIAS>"@
}

/// The response format of a name that was accepted.
pub open spec fn format_named(name: Seq<char>) -> ResponseFormat {
    if name == "text"@ {
        ResponseFormat::Text
    } else {
        ResponseFormat::JsonObject
    }
}

/// `create`: an alias, a repository and a GGUF file of it, and either a
/// built-in chat template or the repository of a tokenizer configuration;
/// beside them the family, `--force`, and the defaults of requests and of
/// the context. Every value is checked for its kind; of the refusals the
/// first in the order of the table is given.
pub open spec fn create_command(items: Seq<Item>) -> Result<CommandView, CliErrorView> {
    let given = positionals(items);
    let repo = text_option(items, 0, "--repo <REPO>"@, create_usage(), ValueKind::Repo);
    let filename = text_option(items, 1, "--filename <FILENAME>"@, create_usage(), ValueKind::Gguf);
    let template = text_option(items, 2, "--chat-template <CHAT_TEMPLATE>"@, create_usage(), ValueKind::Template);
    let tokenizer = text_option(items, 3, "--tokenizer-config <TOKENIZER_CONFIG>"@, create_usage(), ValueKind::Repo);
    let family = text_option(items, 4, "--family <FAMILY>"@, create_usage(), ValueKind::Text);
    let force = flag_option(items, 5, "--force"@, create_usage());
    let frequency = text_option(items, 6, "--frequency-penalty <FREQUENCY_PENALTY>"@, create_usage(), ValueKind::Decimal);
    let max_tokens = number_option(items, 7, "--max-tokens <MAX_TOKENS>"@, create_usage(), 0, 65535);
    let presence = text_option(items, 8, "--presence-penalty <PRESENCE_PENALTY>"@, create_usage(), ValueKind::Decimal);
    let format = text_option(items, 9, "--response-format <RESPONSE_FORMAT>"@, create_usage(), ValueKind::Format);
    let seed = number_option(items, 10, "--seed <SEED>"@, create_usage(), -999_999_999_999_999_999, 999_999_999_999_999_999);
    let temperature = text_option(items, 12, "--temperature <TEMPERATURE>"@, create_usage(), ValueKind::Decimal);
    let top_p = text_option(items, 13, "--top-p <TOP_P>"@, create_usage(), ValueKind::Decimal);
    let user = text_option(items, 14, "--user <USER>"@, create_usage(), ValueKind::Text);
    let n_threads = number_option(items, 15, "--n-threads <N_THREADS>"@, create_usage(), 0, 4_294_967_295);
    let n_ctx = number_option(items, 16, "--n-ctx <N_CTX>"@, create_usage(), -2_147_483_648, 2_147_483_647);
    let n_parallel = number_option(items, 17, "--n-parallel <N_PARALLEL>"@, create_usage(), -2_147_483_648, 2_147_483_647);
    let n_predict = number_option(items, 18, "--n-predict <N_PREDICT>"@, create_usage(), -2_147_483_648, 2_147_483_647);
    if given.len() > 1 {
        Err(CliErrorView::UnexpectedArgument { arg: given[1], usage: create_usage() })
    } else if repo is Err {
        Err(repo->Err_0)
    } else if filename is Err {
        Err(filename->Err_0)
    } else if template is Err {
        Err(template->Err_0)
    } else if tokenizer is Err {
        Err(tokenizer->Err_0)
    } else if family is Err {
        Err(family->Err_0)
    } else if force is Err {
        Err(force->Err_0)
    } else if frequency is Err {
        Err(frequency->Err_0)
    } else if max_tokens is Err {
        Err(max_tokens->Err_0)
    } else if presence is Err {
        Err(presence->Err_0)
    } else if format is Err {
        Err(format->Err_0)
    } else if seed is Err {
        Err(seed->Err_0)
    } else if temperature is Err {
        Err(temperature->Err_0)
    } else if top_p is Err {
        Err(top_p->Err_0)
    } else if user is Err {
        Err(user->Err_0)
    } else if n_threads is Err {
        Err(n_threads->Err_0)
    } else if n_ctx is Err {
        Err(n_ctx->Err_0)
    } else if n_parallel is Err {
        Err(n_parallel->Err_0)
    } else if n_predict is Err {
        Err(n_predict->Err_0)
    } else if given.len() == 0 {
        Err(CliErrorView::MissingRequired { arg: "<ALIAS>"@, usage: create_usage() })
    } else if repo->Ok_0 is None {
        Err(CliErrorView::MissingRequired { arg: "--repo <REPO>"@, usage: create_usage() })
    } else if filename->Ok_0 is None {
        Err(CliErrorView::MissingRequired { arg: "--filename <FILENAME>"@, usage: create_usage() })
    } else if template->Ok_0 is Some && tokenizer->Ok_0 is Some {
        Err(
            CliErrorView::Conflict {
                first: "--chat-template <CHAT_TEMPLATE>"@,
                second: "--tokenizer-config <TOKENIZER_CONFIG>"@,
                usage: create_usage(),
            },
        )
    } else if template->Ok_0 is None && tokenizer->Ok_0 is None {
        Err(
            CliErrorView::MissingRequired {
                arg: "<--chat-template <CHAT_TEMPLATE>|--tokenizer-config <TOKENIZER_CONFIG>>"@,
                usage: create_usage(),
            },
        )
    } else {
        Ok(
            CommandView::Create {
                alias: given[0],
                repo: repo->Ok_0->0,
                filename: filename->Ok_0->0,
                chat_template: match template->Ok_0 {
                    Some(name) => template_named(name),
                    None => None,
                },
                tokenizer_config: tokenizer->Ok_0,
                family: family->Ok_0,
                force: force->Ok_0,
                oai_request_params: ParamsView {
                    frequency_penalty: frequency->Ok_0,
                    max_tokens: match max_tokens->Ok_0 {
                        Some(n) => Some(n as u16),
                        None => None,
                    },
                    presence_penalty: presence->Ok_0,
                    response_format: match format->Ok_0 {
                        Some(name) => Some(format_named(name)),
                        None => None,
                    },
                    seed: match seed->Ok_0 {
                        Some(n) => Some(n as i64),
                        None => None,
                    },
                    stop: values(items, 11),
                    temperature: temperature->Ok_0,
                    top_p: top_p->Ok_0,
                    user: user->Ok_0,
                },
                context_params: GptContextParams {
                    n_threads: match n_threads->Ok_0 {
                        Some(n) => Some(n as u32),
                        None => None,
                    },
                    n_ctx: match n_ctx->Ok_0 {
                        Some(n) => Some(n as i32),
                        None => None,
                    },
                    n_parallel: match n_parallel->Ok_0 {
                        Some(n) => Some(n as i32),
                        None => None,
                    },
                    n_predict: match n_predict->Ok_0 {
                        Some(n) => Some(n as i32),
                        None => None,
                    },
                },
            },
        )
    }
}

fn create_options() -> (table: Vec<CliOption>)
    ensures
        table@ == create_table(),
{
    let mut table: Vec<CliOption> = Vec::new();
    table.push(CliOption { long: "--repo", short: "-r", takes_value: true, display: "--repo <REPO>" });
    table.push(CliOption { long: "--filename", short: "-f", takes_value: true, display: "--filename <FILENAME>" });
    table.push(CliOption { long: "--chat-template", short: "", takes_value: true, display: "--chat-template <CHAT_TEMPLATE>" });
    table.push(CliOption { long: "--tokenizer-config", short: "", takes_value: true, display: "--tokenizer-config <TOKENIZER_CONFIG>" });
    table.push(CliOption { long: "--family", short: "", takes_value: true, display: "--family <FAMILY>" });
    table.push(CliOption { long: "--force", short: "", takes_value: false, display: "--force" });
    table.push(CliOption { long: "--frequency-penalty", short: "", takes_value: true, display: "--frequency-penalty <FREQUENCY_PENALTY>" });
    table.push(CliOption { long: "--max-tokens", short: "", takes_value: true, display: "--max-tokens <MAX_TOKENS>" });
    table.push(CliOption { long: "--presence-penalty", short: "", takes_value: true, display: "--presence-penalty <PRESENCE_PENALTY>" });
    table.push(CliOption { long: "--response-format", short: "", takes_value: true, display: "--response-format <RESPONSE_FORMAT>" });
    table.push(CliOption { long: "--seed", short: "", takes_value: true, display: "--seed <SEED>" });
    table.push(CliOption { long: "--stop", short: "", takes_value: true, display: "--stop <STOP>" });
    table.push(CliOption { long: "--temperature", short: "", takes_value: true, display: "--temperature <TEMPERATURE>" });
    table.push(CliOption { long: "--top-p", short: "", takes_value: true, display: "--top-p <TOP_P>" });
    table.push(CliOption { long: "--user", short: "", takes_value: true, display: "--user <USER>" });
    table.push(CliOption { long: "--n-threads", short: "", takes_value: true, display: "--n-threads <N_THREADS>" });
    table.push(CliOption { long: "--n-ctx", short: "", takes_value: true, display: "--n-ctx <N_CTX>" });
    table.push(CliOption { long: "--n-parallel", short: "", takes_value: true, display: "--n-parallel <N_PARALLEL>" });
    table.push(CliOption { long: "--n-predict", short: "", takes_value: true, display: "--n-predict <N_PREDICT>" });
    assert(table@ =~= create_table());
    table
}

/// Reads the arguments of `create`.
pub(crate) fn parse_create(tokens: &Vec<&str>) -> (r: Result<Command, CliError>)
    requires
        tokens@.len() >= 2,
    ensures
        command_outcome(r) == with_items(
            create_table(),
            tokens_of(tokens@).skip(2),
            create_usage(),
            |items: Seq<Item>| create_command(items),
        ),
        r matches Ok(command) ==> command is Create,
{
    let usage =
        "bodhi create [OPTIONS] --repo <REPO> --filename <FILENAME> <--chat-template <CHAT_TEMPLATE>|--tokenizer-config <TOKENIZER_CONFIG>> <ALIAS>";
    let table = create_options();
    let args = match read_args(&table, tokens, usage) {
        Ok(args) => args,
        Err(e) => {
            return Err(e);
        },
    };
    let given = positional_values(&args);
    if given.len() > 1 {
        return Err(unexpected(given[1].as_str(), usage));
    }
    let repo = match text_value(&args, &table, 0, usage, ValueKind::Repo) {
        Ok(value) => value,
        Err(e) => {
            return Err(e);
        },
    };
    let filename = match text_value(&args, &table, 1, usage, ValueKind::Gguf) {
        Ok(value) => value,
        Err(e) => {
            return Err(e);
        },
    };
    let template = match text_value(&args, &table, 2, usage, ValueKind::Template) {
        Ok(value) => value,
        Err(e) => {
            return Err(e);
        },
    };
    let tokenizer = match text_value(&args, &table, 3, usage, ValueKind::Repo) {
        Ok(value) => value,
        Err(e) => {
            return Err(e);
        },
    };
    let family = match text_value(&args, &table, 4, usage, ValueKind::Text) {
        Ok(value) => value,
        Err(e) => {
            return Err(e);
        },
    };
    let force = match flag_value(&args, &table, 5, usage) {
        Ok(value) => value,
        Err(e) => {
            return Err(e);
        },
    };
    let frequency = match text_value(&args, &table, 6, usage, ValueKind::Decimal) {
        Ok(value) => value,
        Err(e) => {
            return Err(e);
        },
    };
    let max_tokens = match number_value(&args, &table, 7, usage, 0, 65535) {
        Ok(value) => value,
        Err(e) => {
            return Err(e);
        },
    };
    let presence = match text_value(&args, &table, 8, usage, ValueKind::Decimal) {
        Ok(value) => value,
        Err(e) => {
            return Err(e);
        },
    };
    let format = match text_value(&args, &table, 9, usage, ValueKind::Format) {
        Ok(value) => value,
        Err(e) => {
            return Err(e);
        },
    };
    let seed = match number_value(&args, &table, 10, usage, -999_999_999_999_999_999, 999_999_999_999_999_999) {
        Ok(value) => value,
        Err(e) => {
            return Err(e);
        },
    };
    let temperature = match text_value(&args, &table, 12, usage, ValueKind::Decimal) {
        Ok(value) => value,
        Err(e) => {
            return Err(e);
        },
    };
    let top_p = match text_value(&args, &table, 13, usage, ValueKind::Decimal) {
        Ok(value) => value,
        Err(e) => {
            return Err(e);
        },
    };
    let user = match text_value(&args, &table, 14, usage, ValueKind::Text) {
        Ok(value) => value,
        Err(e) => {
            return Err(e);
        },
    };
    let n_threads = match number_value(&args, &table, 15, usage, 0, 4_294_967_295) {
        Ok(value) => value,
        Err(e) => {
            return Err(e);
        },
    };
    let n_ctx = match number_value(&args, &table, 16, usage, -2_147_483_648, 2_147_483_647) {
        Ok(value) => value,
        Err(e) => {
            return Err(e);
        },
    };
    let n_parallel = match number_value(&args, &table, 17, usage, -2_147_483_648, 2_147_483_647) {
        Ok(value) => value,
        Err(e) => {
            return Err(e);
        },
    };
    let n_predict = match number_value(&args, &table, 18, usage, -2_147_483_648, 2_147_483_647) {
        Ok(value) => value,
        Err(e) => {
            return Err(e);
        },
    };
    if given.len() == 0 {
        return Err(missing("<ALIAS>", usage));
    }
    let repo = match repo {
        Some(repo) => repo,
        None => {
            return Err(missing("--repo <REPO>", usage));
        },
    };
    let filename = match filename {
        Some(filename) => filename,
        None => {
            return Err(missing("--filename <FILENAME>", usage));
        },
    };
    if template.is_some() && tokenizer.is_some() {
        return Err(
            conflict(
                "--chat-template <CHAT_TEMPLATE>",
                "--tokenizer-config <TOKENIZER_CONFIG>",
                usage,
            ),
        );
    }
    if template.is_none() && tokenizer.is_none() {
        return Err(
            missing(
                "<--chat-template <CHAT_TEMPLATE>|--tokenizer-config <TOKENIZER_CONFIG>>",
                usage,
            ),
        );
    }
    let chat_template = match template {
        Some(name) => ChatTemplateId::parse(name.as_str()),
        None => None,
    };
    let response_format = match format {
        Some(name) => if same_text(name.as_str(), "text") {
            Some(ResponseFormat::Text)
        } else {
            Some(ResponseFormat::JsonObject)
        },
        None => None,
    };
    let oai_request_params = OAIRequestParams {
        frequency_penalty: frequency,
        max_tokens: match max_tokens {
            Some(n) => Some(n as u16),
            None => None,
        },
        presence_penalty: presence,
        response_format,
        seed,
        stop: option_values(&args, 11),
        temperature,
        top_p,
        user,
    };
    let context_params = GptContextParams {
        n_threads: match n_threads {
            Some(n) => Some(n as u32),
            None => None,
        },
        n_ctx: match n_ctx {
            Some(n) => Some(n as i32),
            None => None,
        },
        n_parallel: match n_parallel {
            Some(n) => Some(n as i32),
            None => None,
        },
        n_predict: match n_predict {
            Some(n) => Some(n as i32),
            None => None,
        },
    };
    Ok(
        Command::Create {
            alias: given[0].clone(),
            repo,
            filename,
            chat_template,
            tokenizer_config: tokenizer,
            family,
            force,
            oai_request_params,
            context_params,
        },
    )
}

/// A command as the command line knows it: its name, how it is used, and
/// the options that it takes.
#[derive(Debug, PartialEq)]
pub struct CommandDefinition {
    pub name: &'static str,
    pub usage: &'static str,
    pub options: Vec<CliOption>,
}

/// Everything that the command line knows.
#[derive(Debug, PartialEq)]
pub struct CliDefinition {
    pub commands: Vec<CommandDefinition>,
}

/// Do the two options go by a common name?
pub open spec fn share_a_name(a: CliOption, b: CliOption) -> bool {
    ||| a.long@.len() > 0 && (a.long@ == b.long@ || a.long@ == b.short@)
    ||| a.short@.len() > 0 && (a.short@ == b.long@ || a.short@ == b.short@)
}

/// Every option of the table has a name, and no two of them share one.
pub open spec fn consistent_table(table: Seq<CliOption>) -> bool {
    &&& forall|i: int|
        0 <= i < table.len() ==> (#[trigger] table[i]).long@.len() > 0 || table[i].short@.len() > 0
    &&& forall|i: int, j: int|
        0 <= i < j < table.len() ==> !share_a_name(#[trigger] table[i], #[trigger] table[j])
}

/// Every command has a consistent table, and no two commands share a name.
pub open spec fn consistent(definition: CliDefinition) -> bool {
    &&& forall|i: int|
        0 <= i < definition.commands@.len() ==> consistent_table(
            (#[trigger] definition.commands@[i]).options@,
        )
    &&& forall|i: int, j: int|
        0 <= i < j < definition.commands@.len() ==> (#[trigger] definition.commands@[i]).name@ != (
        #[trigger] definition.commands@[j]).name@
}

fn shares(a: &CliOption, b: &CliOption) -> (r: bool)
    ensures
        r == share_a_name(*a, *b),
{
    (a.long.unicode_len() > 0 && (same_text(a.long, b.long) || same_text(a.long, b.short))) || (
    a.short.unicode_len() > 0 && (same_text(a.short, b.long) || same_text(a.short, b.short)))
}

/// Is the table consistent?
pub fn check_table(table: &Vec<CliOption>) -> (r: bool)
    ensures
        r == consistent_table(table@),
{
    let n: usize = table.len();
    let mut j: usize = 0;
    while j < n
        invariant
            j <= n,
            n == table@.len(),
            forall|k: int|
                0 <= k < j ==> (#[trigger] table@[k]).long@.len() > 0 || table@[k].short@.len() > 0,
            forall|a: int, b: int|
                0 <= a < b < j ==> !share_a_name(#[trigger] table@[a], #[trigger] table@[b]),
        decreases n - j,
    {
        if table[j].long.unicode_len() == 0 && table[j].short.unicode_len() == 0 {
            assert(!(table@[j as int].long@.len() > 0 || table@[j as int].short@.len() > 0));
            return false;
        }
        let mut i: usize = 0;
        while i < j
            invariant
                i <= j < n,
                n == table@.len(),
                forall|a: int| 0 <= a < i ==> !share_a_name(#[trigger] table@[a], table@[j as int]),
            decreases j - i,
        {
            if shares(&table[i], &table[j]) {
                assert(share_a_name(table@[i as int], table@[j as int]));
                return false;
            }
            i += 1;
        }
        j += 1;
    }
    true
}

impl CliDefinition {
    /// Checks the definition: that every command has a consistent table,
    /// and that no two commands share a name.
    pub fn debug_assert(&self) -> (r: bool)
        ensures
            r == consistent(*self),
    {
        let n: usize = self.commands.len();
        let mut j: usize = 0;
        while j < n
            invariant
                j <= n,
                n == self.commands@.len(),
                forall|k: int|
                    0 <= k < j ==> consistent_table((#[trigger] self.commands@[k]).options@),
                forall|a: int, b: int|
                    0 <= a < b < j ==> (#[trigger] self.commands@[a]).name@ != (
                    #[trigger] self.commands@[b]).name@,
            decreases n - j,
        {
            if !check_table(&self.commands[j].options) {
                assert(!consistent_table(self.commands@[j as int].options@));
                return false;
            }
            let mut i: usize = 0;
            while i < j
                invariant
                    i <= j < n,
                    n == self.commands@.len(),
                    forall|a: int|
                        0 <= a < i ==> (#[trigger] self.commands@[a]).name@
                            != self.commands@[j as int].name@,
                decreases j - i,
            {
                if same_text(self.commands[i].name, self.commands[j].name) {
                    assert(self.commands@[i as int].name@ == self.commands@[j as int].name@);
                    return false;
                }
                i += 1;
            }
            j += 1;
        }
        true
    }
}

/// What a command line reads as. The first argument is the program's
/// name, the second names the command, and the rest are the command's
/// arguments.
pub open spec fn parse(args: Seq<Seq<char>>) -> Result<CommandView, CliErrorView> {
    if args.len() < 2 {
        Err(CliErrorView::MissingSubcommand)
    } else {
        let name = args[1];
        let rest = args.skip(2);
        if is_help(name) || name == "help"@ {
            Err(CliErrorView::DisplayHelp(top_help()))
        } else if name == "--version"@ || name == "-V"@ {
            Err(CliErrorView::DisplayVersion(version_text()))
        } else if name == "app"@ {
            unit_command(rest, "bodhi app"@, CommandView::App)
        } else if name == "init"@ {
            unit_command(rest, "bodhi init"@, CommandView::Init)
        } else if name == "serve"@ {
            with_items(serve_table(), rest, serve_usage(), |items: Seq<Item>| serve_command(items))
        } else if name == "list"@ {
            with_items(list_table(), rest, list_usage(), |items: Seq<Item>| list_command(items))
        } else if name == "pull"@ {
            with_items(pull_table(), rest, pull_usage(), |items: Seq<Item>| pull_command(items))
        } else if name == "create"@ {
            with_items(
                create_table(),
                rest,
                create_usage(),
                |items: Seq<Item>| create_command(items),
            )
        } else if name == "run"@ {
            with_items(
                Seq::<CliOption>::empty(),
                rest,
                run_usage(),
                |items: Seq<Item>| run_command(items),
            )
        } else {
            Err(CliErrorView::UnknownSubcommand(name))
        }
    }
}

/// What holds of every command that a command line reads as: a port is
/// never 0, a listing is of one kind, and a pull names an alias or a
/// repository with a file.
pub open spec fn well_formed(command: Command) -> bool {
    match command {
        Command::Serve { port, .. } => port >= 1,
        Command::List { remote, models } => !(remote && models),
        Command::Pull { alias, repo, filename, .. } => alias is Some || (repo is Some && filename
            is Some),
        _ => true,
    }
}

/// The outcome of reading a command line.
pub open spec fn cli_outcome(r: Result<Cli, CliError>) -> Result<CommandView, CliErrorView> {
    match r {
        Ok(cli) => Ok(cli.command@),
        Err(e) => Err(e@),
    }
}

impl Cli {
    /// Everything that the command line knows: the commands by their
    /// names, each with how it is used and the options that it takes.
    pub fn command() -> (definition: CliDefinition)
        ensures
            definition.commands@.len() == 7,
            definition.commands@[0].name@ == "app"@ && definition.commands@[0].options@.len() == 0,
            definition.commands@[1].name@ == "init"@ && definition.commands@[1].options@.len()
                == 0,
            definition.commands@[2].name@ == "serve"@ && definition.commands@[2].options@
                == serve_table(),
            definition.commands@[3].name@ == "list"@ && definition.commands@[3].options@
                == list_table(),
            definition.commands@[4].name@ == "pull"@ && definition.commands@[4].options@
                == pull_table(),
            definition.commands@[5].name@ == "create"@ && definition.commands@[5].options@
                == create_table(),
            definition.commands@[6].name@ == "run"@ && definition.commands@[6].options@.len() == 0,
    {
        let mut commands: Vec<CommandDefinition> = Vec::new();
        commands.push(CommandDefinition { name: "app", usage: "bodhi app", options: Vec::new() });
        commands.push(CommandDefinition { name: "init", usage: "bodhi init", options: Vec::new() });
        commands.push(
            CommandDefinition {
                name: "serve",
                usage: "bodhi serve [OPTIONS]",
                options: serve_options(),
            },
        );
        commands.push(
            CommandDefinition {
                name: "list",
                usage: "bodhi list [OPTIONS]",
                options: list_options(),
            },
        );
        commands.push(
            CommandDefinition {
                name: "pull",
                usage: "bodhi pull [OPTIONS] <ALIAS|--repo <REPO>>",
                options: pull_options(),
            },
        );
        commands.push(
            CommandDefinition {
                name: "create",
                usage: "bodhi create [OPTIONS] --repo <REPO> --filename <FILENAME> <--chat-template <CHAT_TEMPLATE>|--tokenizer-config <TOKENIZER_CONFIG>> <ALIAS>",
                options: create_options(),
            },
        );
        commands.push(
            CommandDefinition { name: "run", usage: "bodhi run <ALIAS>", options: Vec::new() },
        );
        CliDefinition { commands }
    }

    /// Reads a command line.
    pub fn try_parse_from(args: Vec<&str>) -> (r: Result<Cli, CliError>)
        ensures
            cli_outcome(r) == parse(tokens_of(args@)),
            r matches Ok(cli) ==> well_formed(cli.command),
    {
        if args.len() < 2 {
            return Err(CliError::MissingSubcommand);
        }
        let name: &str = args[1];
        assert(tokens_of(args@)[1] == name@);
        if asks_help(name) || same_text(name, "help") {
            return Err(
                CliError::DisplayHelp(
                    String::from_str(
                        "Run GenerativeAI LLMs locally and serve them via OpenAI compatible API\n\nUsage: bodhi <COMMAND>\n\nCommands:\n  app     launch as native app\n  init    initialize the configs folder\n  serve   start the OpenAI compatible REST API server and Web UI\n  list    list the model aliases configured on local system\n  pull    Pull a gguf model from huggingface repository\n  create  Create a new model alias\n  run     Run the given model alias in interactive mode\n  help    Print this message\n\nOptions:\n  -h, --help     Print help\n  -V, --version  Print version\n",
                    ),
                ),
            );
        }
        if same_text(name, "--version") || same_text(name, "-V") {
            return Err(CliError::DisplayVersion(String::from_str("bodhi 0.1.0\n")));
        }
        let command = if same_text(name, "app") {
            parse_unit(&args, "bodhi app", Command::App {  })
        } else if same_text(name, "init") {
            parse_unit(&args, "bodhi init", Command::Init {  })
        } else if same_text(name, "serve") {
            parse_serve(&args)
        } else if same_text(name, "list") {
            parse_list(&args)
        } else if same_text(name, "pull") {
            parse_pull(&args)
        } else if same_text(name, "create") {
            parse_create(&args)
        } else if same_text(name, "run") {
            parse_run(&args)
        } else {
            Err(CliError::UnknownSubcommand(String::from_str(name)))
        };
        match command {
            Ok(command) => Ok(Cli { command }),
            Err(e) => Err(e),
        }
    }
}

/// What is said of a file that is no GGUF file.
pub open spec fn gguf_error() -> Seq<char> {
    "only GGUF file extension supported"@
}

/// Accepts the name of a hub repository: `repo` itself where it has the
/// form `owner/repo`, else the reason why not.
pub fn repo_parser(repo: &str) -> (r: Result<String, String>)
    ensures
        match r {
            Ok(accepted) => is_repo_format(repo@) && accepted@ == repo@,
            Err(reason) => !is_repo_format(repo@) && reason@ == repo_format_message(),
        },
{
    let chars = chars_of(repo);
    match repo_slash(&chars) {
        Some(_) => Ok(String::from_str(repo)),
        None => Err(String::from_str("does not match huggingface repo format - 'owner/repo'")),
    }
}

/// Accepts the name of a GGUF file: `filename` itself where it ends in
/// `.gguf`, else the reason why not.
pub fn gguf_filename_parser(filename: &str) -> (r: Result<String, String>)
    ensures
        match r {
            Ok(accepted) => is_gguf_filename(filename@) && accepted@ == filename@,
            Err(reason) => !is_gguf_filename(filename@) && reason@ == gguf_error(),
        },
{
    if is_gguf(filename) {
        Ok(String::from_str(filename))
    } else {
        Err(String::from_str("only GGUF file extension supported"))
    }
}

} // verus!
