//! The objects that the runtime passes around: repositories, aliases, model
//! files and the parameters of requests and of the engine.

use vstd::prelude::*;
use vstd::string::StringExecFns;
use crate::error::AppError;
use crate::shared_rw::GptParams;
use crate::text::{
    chars_of, ends_with, find, first_occurrence, occurs_at, push_all, replace, replace_all,
    replace_text, same_text, slice_of, string_of, strip_prefix, strip_prefix_exec,
};

verus! {

/// Is `c` one of `A-Z`, `a-z`, `0-9`, `.`, `_`, `-`?
pub open spec fn is_repo_char(c: char) -> bool {
    let n = c as u32;
    ||| 0x30 <= n <= 0x39
    ||| 0x41 <= n <= 0x5a
    ||| 0x61 <= n <= 0x7a
    ||| c == '.'
    ||| c == '_'
    ||| c == '-'
}

/// `s` is an owner and a name, both non-empty and made of repository
/// characters, with the one `/` of `s` standing at `slash`.
pub open spec fn is_repo_split(s: Seq<char>, slash: int) -> bool {
    &&& 0 < slash < s.len() - 1
    &&& s[slash] == '/'
    &&& forall|j: int| 0 <= j < s.len() && j != slash ==> is_repo_char(#[trigger] s[j])
}

/// `s` has the form `owner/repo` of a hub repository.
pub open spec fn is_repo_format(s: Seq<char>) -> bool {
    exists|slash: int| is_repo_split(s, slash)
}

/// The extension that every model file carries.
pub open spec fn gguf_extension() -> Seq<char> {
    seq!['.', 'g', 'g', 'u', 'f']
}

/// `s` names a GGUF file.
pub open spec fn is_gguf_filename(s: Seq<char>) -> bool {
    occurs_at(s, s.len() - 5, gguf_extension())
}

fn is_repo_char_exec(c: char) -> (b: bool)
    ensures
        b == is_repo_char(c),
{
    let n: u32 = c as u32;
    (0x30 <= n && n <= 0x39) || (0x41 <= n && n <= 0x5a) || (0x61 <= n && n <= 0x7a) || c == '.'
        || c == '_' || c == '-'
}

/// Finds the `/` of a repository name, if `s` is one.
pub fn repo_slash(s: &Vec<char>) -> (r: Option<usize>)
    ensures
        r is Some <==> is_repo_format(s@),
        r matches Some(slash) ==> is_repo_split(s@, slash as int),
{
    let n: usize = s.len();
    let mut slash: Option<usize> = None;
    let mut i: usize = 0;
    while i < n
        invariant
            i <= n,
            n == s@.len(),
            slash matches Some(k) ==> k < i && s@[k as int] == '/',
            forall|j: int| 0 <= j < i && slash != Some(j as usize) ==> is_repo_char(#[trigger] s@[j]),
            slash is None ==> forall|j: int| 0 <= j < i ==> s@[j] != '/',
        decreases n - i,
    {
        let c = s[i];
        if c == '/' {
            match slash {
                Some(k) => {
                    assert forall|t: int| !is_repo_split(s@, t) by {
                        if t == i as int {
                            assert(!is_repo_char(s@[k as int]));
                        } else {
                            assert(!is_repo_char(s@[i as int]));
                        }
                    }
                    return None;
                },
                None => {
                    slash = Some(i);
                },
            }
        } else if !is_repo_char_exec(c) {
            assert forall|t: int| !is_repo_split(s@, t) by {
                assert(!is_repo_char(s@[i as int]));
            }
            return None;
        }
        i += 1;
    }
    match slash {
        Some(k) => {
            if 0 < k && k < n - 1 {
                assert(is_repo_split(s@, k as int));
                Some(k)
            } else {
                assert forall|t: int| !is_repo_split(s@, t) by {
                    if t != k as int && 0 <= t < n {
                        assert(!is_repo_char(s@[k as int]));
                    }
                }
                None
            }
        },
        None => {
            assert forall|t: int| !is_repo_split(s@, t) by {}
            None
        },
    }
}

/// A repository of the model hub, `owner/repo`.
#[derive(Debug, PartialEq)]
pub struct Repo {
    value: String,
}

impl View for Repo {
    type V = Seq<char>;

    closed spec fn view(&self) -> Seq<char> {
        self.value@
    }
}

impl Clone for Repo {
    fn clone(&self) -> (r: Self)
        ensures
            r == *self,
    {
        proof {
            use_type_invariant(self);
        }
        Repo { value: self.value.clone() }
    }
}

impl Repo {
    #[verifier::type_invariant]
    spec fn well_formed(self) -> bool {
        is_repo_format(self.value@)
    }

    /// Takes `value` as a repository if it has the form `owner/repo`.
    pub fn try_new(value: String) -> (r: Result<Repo, AppError>)
        ensures
            r is Ok <==> is_repo_format(value@),
            r matches Ok(repo) ==> repo@ == value@,
            r matches Err(e) ==> e matches AppError::BadRequest(m) && m@ == repo_format_message(),
    {
        let chars = chars_of(value.as_str());
        match repo_slash(&chars) {
            Some(_) => Ok(Repo { value }),
            None => Err(AppError::BadRequest(String::from_str(
                "does not match huggingface repo format - 'owner/repo'",
            ))),
        }
    }

    /// The text `owner/repo`.
    pub fn to_string(&self) -> (s: String)
        ensures
            s@ == self@,
            is_repo_format(s@),
    {
        proof {
            use_type_invariant(self);
        }
        self.value.clone()
    }

    /// The text `owner/repo`, borrowed.
    pub fn as_str(&self) -> (s: &str)
        ensures
            s@ == self@,
            is_repo_format(s@),
    {
        proof {
            use_type_invariant(self);
        }
        self.value.as_str()
    }

    /// The owner and the name of the repository: what stands before its
    /// `/` and what stands behind it.
    pub fn parts(&self) -> (r: (String, String))
        ensures
            exists|slash: int|
                is_repo_split(self@, slash) && r.0@ == self@.take(slash) && r.1@ == self@.skip(
                    slash + 1,
                ),
    {
        proof {
            use_type_invariant(self);
        }
        let chars = chars_of(self.value.as_str());
        let n: usize = chars.len();
        match repo_slash(&chars) {
            Some(slash) => {
                let owner = slice_of(&chars, 0, slash);
                let name = slice_of(&chars, slash + 1, n);
                assert(owner@ =~= self@.take(slash as int));
                assert(name@ =~= self@.skip(slash + 1));
                (string_of(&owner), string_of(&name))
            },
            None => (String::new(), String::new()),
        }
    }

    /// Do the two name the same repository?
    pub fn same(&self, other: &Repo) -> (b: bool)
        ensures
            b == (self@ == other@),
    {
        self.value == other.value
    }
}

/// What a caller is told when a repository name is malformed.
pub open spec fn repo_format_message() -> Seq<char> {
    "does not match huggingface repo format - 'owner/repo'"@
}

/// The names of the chat templates that ship with the runtime.
#[derive(Debug, Clone, Copy, PartialEq, Eq, Structural)]
pub enum ChatTemplateId {
    Llama3,
    Llama2,
    Llama2Legacy,
    Phi3,
    Gemma,
    Deepseek,
    CommandR,
    Openchat,
}

/// The name under which a built-in template is known.
pub open spec fn template_name(id: ChatTemplateId) -> Seq<char> {
    match id {
        ChatTemplateId::Llama3 => "llama3"@,
        ChatTemplateId::Llama2 => "llama2"@,
        ChatTemplateId::Llama2Legacy => "llama2-legacy"@,
        ChatTemplateId::Phi3 => "phi3"@,
        ChatTemplateId::Gemma => "gemma"@,
        ChatTemplateId::Deepseek => "deepseek"@,
        ChatTemplateId::CommandR => "command-r"@,
        ChatTemplateId::Openchat => "openchat"@,
    }
}

/// The built-in template that a name stands for, if any; of templates that
/// shared a name the first listed would win.
pub open spec fn template_named(name: Seq<char>) -> Option<ChatTemplateId> {
    if name == template_name(ChatTemplateId::Llama3) {
        Some(ChatTemplateId::Llama3)
    } else if name == template_name(ChatTemplateId::Llama2) {
        Some(ChatTemplateId::Llama2)
    } else if name == template_name(ChatTemplateId::Llama2Legacy) {
        Some(ChatTemplateId::Llama2Legacy)
    } else if name == template_name(ChatTemplateId::Phi3) {
        Some(ChatTemplateId::Phi3)
    } else if name == template_name(ChatTemplateId::Gemma) {
        Some(ChatTemplateId::Gemma)
    } else if name == template_name(ChatTemplateId::Deepseek) {
        Some(ChatTemplateId::Deepseek)
    } else if name == template_name(ChatTemplateId::CommandR) {
        Some(ChatTemplateId::CommandR)
    } else if name == template_name(ChatTemplateId::Openchat) {
        Some(ChatTemplateId::Openchat)
    } else {
        None
    }
}

impl ChatTemplateId {
    /// The name of this template.
    pub fn as_str(&self) -> (name: &'static str)
        ensures
            name@ == template_name(*self),
    {
        match self {
            ChatTemplateId::Llama3 => "llama3",
            ChatTemplateId::Llama2 => "llama2",
            ChatTemplateId::Llama2Legacy => "llama2-legacy",
            ChatTemplateId::Phi3 => "phi3",
            ChatTemplateId::Gemma => "gemma",
            ChatTemplateId::Deepseek => "deepseek",
            ChatTemplateId::CommandR => "command-r",
            ChatTemplateId::Openchat => "openchat",
        }
    }

    /// The built-in template of that name.
    pub fn parse(name: &str) -> (r: Option<ChatTemplateId>)
        ensures
            r == template_named(name@),
    {
        if same_text(name, "llama3") {
            Some(ChatTemplateId::Llama3)
        } else if same_text(name, "llama2") {
            Some(ChatTemplateId::Llama2)
        } else if same_text(name, "llama2-legacy") {
            Some(ChatTemplateId::Llama2Legacy)
        } else if same_text(name, "phi3") {
            Some(ChatTemplateId::Phi3)
        } else if same_text(name, "gemma") {
            Some(ChatTemplateId::Gemma)
        } else if same_text(name, "deepseek") {
            Some(ChatTemplateId::Deepseek)
        } else if same_text(name, "command-r") {
            Some(ChatTemplateId::CommandR)
        } else if same_text(name, "openchat") {
            Some(ChatTemplateId::Openchat)
        } else {
            None
        }
    }
}

/// Where the chat template of an alias comes from: a built-in template, or
/// the tokenizer configuration of a repository.
#[derive(Debug, Clone, PartialEq)]
pub enum ChatTemplate {
    Id(ChatTemplateId),
    Repo(Repo),
}

/// The repository whose tokenizer configuration holds a built-in template.
pub open spec fn template_repo(id: ChatTemplateId) -> Seq<char> {
    match id {
        ChatTemplateId::Llama3 => "meta-llama/Meta-Llama-3-8B-Instruct"@,
        ChatTemplateId::Llama2 => "meta-llama/Llama-2-13b-chat-hf"@,
        ChatTemplateId::Llama2Legacy => "mistralai/Mixtral-8x7B-Instruct-v0.1"@,
        ChatTemplateId::Phi3 => "microsoft/Phi-3-mini-4k-instruct"@,
        ChatTemplateId::Gemma => "google/gemma-7b-it"@,
        ChatTemplateId::Deepseek => "deepseek-ai/deepseek-llm-67b-chat"@,
        ChatTemplateId::CommandR => "CohereForAI/c4ai-command-r-plus"@,
        ChatTemplateId::Openchat => "openchat/openchat-3.6-8b-20240522"@,
    }
}

impl ChatTemplateId {
    /// The repository whose tokenizer configuration holds this template.
    pub fn repo(&self) -> (repo: Repo)
        ensures
            repo@ == template_repo(*self),
    {
        let (name, slash): (&'static str, Ghost<int>) = match self {
            ChatTemplateId::Llama3 => {
                proof {
                    reveal_strlit("meta-llama/Meta-Llama-3-8B-Instruct");
                }
                ("meta-llama/Meta-Llama-3-8B-Instruct", Ghost(10))
            },
            ChatTemplateId::Llama2 => {
                proof {
                    reveal_strlit("meta-llama/Llama-2-13b-chat-hf");
                }
                ("meta-llama/Llama-2-13b-chat-hf", Ghost(10))
            },
            ChatTemplateId::Llama2Legacy => {
                proof {
                    reveal_strlit("mistralai/Mixtral-8x7B-Instruct-v0.1");
                }
                ("mistralai/Mixtral-8x7B-Instruct-v0.1", Ghost(9))
            },
            ChatTemplateId::Phi3 => {
                proof {
                    reveal_strlit("microsoft/Phi-3-mini-4k-instruct");
                }
                ("microsoft/Phi-3-mini-4k-instruct", Ghost(9))
            },
            ChatTemplateId::Gemma => {
                proof {
                    reveal_strlit("google/gemma-7b-it");
                }
                ("google/gemma-7b-it", Ghost(6))
            },
            ChatTemplateId::Deepseek => {
                proof {
                    reveal_strlit("deepseek-ai/deepseek-llm-67b-chat");
                }
                ("deepseek-ai/deepseek-llm-67b-chat", Ghost(11))
            },
            ChatTemplateId::CommandR => {
                proof {
                    reveal_strlit("CohereForAI/c4ai-command-r-plus");
                }
                ("CohereForAI/c4ai-command-r-plus", Ghost(11))
            },
            ChatTemplateId::Openchat => {
                proof {
                    reveal_strlit("openchat/openchat-3.6-8b-20240522");
                }
                ("openchat/openchat-3.6-8b-20240522", Ghost(8))
            },
        };
        assert(is_repo_split(name@, slash@));
        Repo { value: String::from_str(name) }
    }
}

/// The format in which a completion is asked for.
#[derive(Debug, Clone, Copy, PartialEq, Eq, Structural)]
pub enum ResponseFormat {
    Text,
    JsonObject,
}

/// The defaults of an OpenAI request. A number that may carry a fraction is
/// held as its decimal text.
#[derive(Debug, Clone, PartialEq, Default)]
pub struct OAIRequestParams {
    pub frequency_penalty: Option<String>,
    pub max_tokens: Option<u16>,
    pub presence_penalty: Option<String>,
    pub response_format: Option<ResponseFormat>,
    pub seed: Option<i64>,
    pub stop: Vec<String>,
    pub temperature: Option<String>,
    pub top_p: Option<String>,
    pub user: Option<String>,
}

/// The defaults with which a model is loaded.
#[derive(Debug, Clone, Copy, PartialEq, Eq, Structural, Default)]
pub struct GptContextParams {
    pub n_threads: Option<u32>,
    pub n_ctx: Option<i32>,
    pub n_parallel: Option<i32>,
    pub n_predict: Option<i32>,
}

/// A user-named binding of a model file to a chat template and to defaults.
#[derive(Debug, Clone, PartialEq)]
pub struct Alias {
    pub alias: String,
    pub family: Option<String>,
    pub repo: Repo,
    pub filename: String,
    pub snapshot: String,
    pub features: Vec<String>,
    pub chat_template: ChatTemplate,
    pub request_params: OAIRequestParams,
    pub context_params: GptContextParams,
}

/// A model that the catalog offers for download.
#[derive(Debug, Clone, PartialEq)]
pub struct RemoteModel {
    pub alias: String,
    pub family: String,
    pub repo: Repo,
    pub filename: String,
    pub features: Vec<String>,
    pub chat_template: ChatTemplate,
    pub request_params: OAIRequestParams,
    pub context_params: GptContextParams,
}

/// A file of the hub cache.
#[derive(Debug, Clone, PartialEq)]
pub struct LocalModelFile {
    pub hf_cache: String,
    pub repo: Repo,
    pub filename: String,
    pub snapshot: String,
    pub size: Option<u64>,
}

/// An alias as the registry writes it: every attribute as plain text or a
/// number, the chat template by the name of the built-in template or of
/// the repository.
#[derive(Debug, Clone, PartialEq)]
pub struct AliasRecord {
    pub alias: String,
    pub family: Option<String>,
    pub repo: String,
    pub filename: String,
    pub snapshot: String,
    pub features: Vec<String>,
    pub chat_template: String,
    pub request_params: OAIRequestParams,
    pub context_params: GptContextParams,
}

/// The name under which a chat template is written.
pub open spec fn template_text(template: ChatTemplate) -> Seq<char> {
    match template {
        ChatTemplate::Id(id) => template_name(id),
        ChatTemplate::Repo(repo) => repo@,
    }
}

/// The two templates are the same built-in template, or the same
/// repository.
pub open spec fn same_template(a: ChatTemplate, b: ChatTemplate) -> bool {
    match (a, b) {
        (ChatTemplate::Id(x), ChatTemplate::Id(y)) => x == y,
        (ChatTemplate::Repo(x), ChatTemplate::Repo(y)) => x@ == y@,
        _ => false,
    }
}

/// The two aliases are equal in every attribute.
pub open spec fn same_alias(a: Alias, b: Alias) -> bool {
    &&& a.alias == b.alias
    &&& a.family == b.family
    &&& a.repo@ == b.repo@
    &&& a.filename == b.filename
    &&& a.snapshot == b.snapshot
    &&& a.features == b.features
    &&& same_template(a.chat_template, b.chat_template)
    &&& a.request_params == b.request_params
    &&& a.context_params == b.context_params
}

/// `record` is what is written of `alias`.
pub open spec fn written(alias: Alias, record: AliasRecord) -> bool {
    &&& record.alias == alias.alias
    &&& record.family == alias.family
    &&& record.repo@ == alias.repo@
    &&& record.filename == alias.filename
    &&& record.snapshot == alias.snapshot
    &&& record.features == alias.features
    &&& record.chat_template@ == template_text(alias.chat_template)
    &&& record.request_params == alias.request_params
    &&& record.context_params == alias.context_params
}

/// `r` is what is read from `record`: an alias with the record's
/// attributes where the record names a repository and a chat template,
/// the name of a built-in template winning over that of a repository; a
/// refusal otherwise.
pub open spec fn read(record: AliasRecord, r: Result<Alias, AppError>) -> bool {
    if !is_repo_format(record.repo@) || (template_named(record.chat_template@) is None
        && !is_repo_format(record.chat_template@)) {
        r matches Err(AppError::BadRequest(m)) && m@ == repo_format_message()
    } else {
        &&& r matches Ok(alias)
        &&& alias.alias == record.alias
        &&& alias.family == record.family
        &&& alias.repo@ == record.repo@
        &&& alias.filename == record.filename
        &&& alias.snapshot == record.snapshot
        &&& alias.features == record.features
        &&& match template_named(record.chat_template@) {
            Some(id) => alias.chat_template == ChatTemplate::Id(id),
            None => alias.chat_template matches ChatTemplate::Repo(repo) && repo@
                == record.chat_template@,
        }
        &&& alias.request_params == record.request_params
        &&& alias.context_params == record.context_params
    }
}

impl Alias {
    /// What the registry writes of this alias.
    pub fn into_record(self) -> (record: AliasRecord)
        ensures
            written(self, record),
            is_repo_format(record.repo@),
    {
        let chat_template = match &self.chat_template {
            ChatTemplate::Id(id) => String::from_str(id.as_str()),
            ChatTemplate::Repo(repo) => repo.to_string(),
        };
        AliasRecord {
            alias: self.alias,
            family: self.family,
            repo: self.repo.to_string(),
            filename: self.filename,
            snapshot: self.snapshot,
            features: self.features,
            chat_template,
            request_params: self.request_params,
            context_params: self.context_params,
        }
    }

    /// The alias that a record of the registry holds.
    pub fn from_record(record: AliasRecord) -> (r: Result<Alias, AppError>)
        ensures
            read(record, r),
    {
        let repo = match Repo::try_new(record.repo) {
            Ok(repo) => repo,
            Err(e) => {
                return Err(e);
            },
        };
        let chat_template = match ChatTemplateId::parse(record.chat_template.as_str()) {
            Some(id) => ChatTemplate::Id(id),
            None => match Repo::try_new(record.chat_template) {
                Ok(repo) => ChatTemplate::Repo(repo),
                Err(e) => {
                    return Err(e);
                },
            },
        };
        Ok(
            Alias {
                alias: record.alias,
                family: record.family,
                repo,
                filename: record.filename,
                snapshot: record.snapshot,
                features: record.features,
                chat_template,
                request_params: record.request_params,
                context_params: record.context_params,
            },
        )
    }
}

/// The name of a built-in template names that template and no other.
pub proof fn lemma_template_names_differ(id: ChatTemplateId)
    ensures
        template_named(template_name(id)) == Some(id),
        !is_repo_format(template_name(id)),
{
    reveal_strlit("llama3");
    reveal_strlit("llama2");
    reveal_strlit("llama2-legacy");
    reveal_strlit("phi3");
    reveal_strlit("gemma");
    reveal_strlit("deepseek");
    reveal_strlit("command-r");
    reveal_strlit("openchat");
    let name = template_name(id);
    assert(forall|i: int| 0 <= i < name.len() ==> name[i] != '/');
    assert("llama3"@.len() == 6 && "llama2"@.len() == 6 && "llama2-legacy"@.len() == 13);
    assert("phi3"@.len() == 4 && "gemma"@.len() == 5 && "deepseek"@.len() == 8);
    assert("command-r"@.len() == 9 && "openchat"@.len() == 8);
    assert("llama3"@[5] == '3' && "llama2"@[5] == '2');
    assert("deepseek"@[0] == 'd' && "openchat"@[0] == 'o');
}

/// The name of a repository is the name of no built-in template.
pub proof fn lemma_repo_names_no_template(name: Seq<char>)
    requires
        is_repo_format(name),
    ensures
        template_named(name) is None,
{
    if template_named(name) is Some {
        lemma_template_names_differ(template_named(name).unwrap());
    }
}

/// What is written of an alias reads back as an alias that is equal to it
/// in every attribute.
pub proof fn lemma_alias_round_trip(alias: Alias, record: AliasRecord, back: Result<Alias, AppError>)
    requires
        is_repo_format(alias.repo@),
        alias.chat_template matches ChatTemplate::Repo(repo) ==> is_repo_format(repo@),
        written(alias, record),
        read(record, back),
    ensures
        back matches Ok(again) && same_alias(alias, again),
{
    match alias.chat_template {
        ChatTemplate::Id(id) => {
            lemma_template_names_differ(id);
        },
        ChatTemplate::Repo(repo) => {
            lemma_repo_names_no_template(repo@);
        },
    }
}

/// The name of the file that holds an alias in the registry: the alias
/// with `--` for every `:`, and `.yaml` behind it.
pub open spec fn alias_file(alias: Seq<char>) -> Seq<char> {
    replace_all(alias, seq![':'], seq!['-', '-']) + ".yaml"@
}

/// The name of the file that holds an alias in the registry.
pub fn alias_filename(alias: &str) -> (name: String)
    ensures
        name@ == alias_file(alias@),
{
    proof {
        reveal_strlit(":");
        reveal_strlit("--");
        assert(":"@ =~= seq![':']);
        assert("--"@ =~= seq!['-', '-']);
    }
    let mut name = replace_text(alias, ":", "--");
    name.append(".yaml");
    name
}

/// The repository that a directory of the hub cache holds: the name of
/// the directory without its `models--`, with `/` for the first `--` of
/// what is left, where that names a repository.
pub open spec fn repo_of_dir(dir: Seq<char>) -> Option<Seq<char>> {
    match strip_prefix(dir, "models--"@) {
        None => None,
        Some(rest) => match first_occurrence(rest, seq!['-', '-']) {
            None => None,
            Some(at) => {
                let name = rest.take(at) + seq!['/'] + rest.skip(at + 2);
                if is_repo_format(name) {
                    Some(name)
                } else {
                    None
                }
            },
        },
    }
}

impl Repo {
    /// The repository that a directory of the hub cache holds.
    pub fn from_cache_dir(dir: &str) -> (r: Option<Repo>)
        ensures
            match repo_of_dir(dir@) {
                Some(name) => r matches Some(repo) && repo@ == name,
                None => r is None,
            },
    {
        let chars = chars_of(dir);
        let prefix = chars_of("models--");
        let dashes = chars_of("--");
        proof {
            reveal_strlit("--");
            assert("--"@ =~= seq!['-', '-']);
        }
        let rest = match strip_prefix_exec(&chars, &prefix) {
            Some(rest) => rest,
            None => {
                return None;
            },
        };
        let at = match find(&rest, &dashes) {
            Some(at) => at,
            None => {
                return None;
            },
        };
        let m: usize = rest.len();
        assert(dashes@.len() == 2);
        let mut name = slice_of(&rest, 0, at);
        name.push('/');
        let tail = slice_of(&rest, at + 2, m);
        push_all(&mut name, &tail);
        assert(name@ =~= rest@.take(at as int) + seq!['/'] + rest@.skip(at + 2));
        match repo_slash(&name) {
            Some(_) => Some(Repo { value: string_of(&name) }),
            None => None,
        }
    }
}

/// The directory of a repository inside the hub cache.
pub open spec fn repo_dir(repo: Seq<char>) -> Seq<char> {
    "models--"@ + replace_all(repo, seq!['/'], seq!['-', '-'])
}

/// Where a file of the hub cache lies:
/// `<cache>/models--<owner>--<repo>/snapshots/<snapshot>/<filename>`.
pub open spec fn cache_path(
    hf_cache: Seq<char>,
    repo: Seq<char>,
    snapshot: Seq<char>,
    filename: Seq<char>,
) -> Seq<char> {
    hf_cache + "/"@ + repo_dir(repo) + "/snapshots/"@ + snapshot + "/"@ + filename
}

/// The features that every new alias has.
pub fn default_features() -> (features: Vec<String>)
    ensures
        features@.len() == 1,
        features@[0]@ == "chat"@,
{
    let mut features: Vec<String> = Vec::new();
    features.push(String::from_str("chat"));
    features
}

/// A file of the hub cache, as it is asked for.
#[derive(Debug, PartialEq)]
pub struct FileLookup {
    pub repo: Repo,
    pub filename: String,
    pub snapshot: String,
}

impl Alias {
    /// The model file of the alias, as it is asked for in the hub cache:
    /// by the alias's repository, file name and snapshot.
    pub fn model_lookup(&self) -> (lookup: FileLookup)
        ensures
            lookup.repo@ == self.repo@,
            lookup.filename == self.filename,
            lookup.snapshot == self.snapshot,
    {
        FileLookup {
            repo: self.repo.clone(),
            filename: self.filename.clone(),
            snapshot: self.snapshot.clone(),
        }
    }

    /// An alias with the given attributes.
    pub fn new(
        alias: String,
        family: Option<String>,
        repo: Repo,
        filename: String,
        snapshot: String,
        features: Vec<String>,
        chat_template: ChatTemplate,
        request_params: OAIRequestParams,
        context_params: GptContextParams,
    ) -> (a: Self)
        ensures
            a == (Alias {
                alias,
                family,
                repo,
                filename,
                snapshot,
                features,
                chat_template,
                request_params,
                context_params,
            }),
    {
        Alias {
            alias,
            family,
            repo,
            filename,
            snapshot,
            features,
            chat_template,
            request_params,
            context_params,
        }
    }

    /// The alias under which a catalog model is registered once its file
    /// lies in the cache under `snapshot`.
    pub fn from_remote(model: RemoteModel, snapshot: String) -> (a: Self)
        ensures
            a == (Alias {
                alias: model.alias,
                family: Some(model.family),
                repo: model.repo,
                filename: model.filename,
                snapshot,
                features: model.features,
                chat_template: model.chat_template,
                request_params: model.request_params,
                context_params: model.context_params,
            }),
    {
        Alias {
            alias: model.alias,
            family: Some(model.family),
            repo: model.repo,
            filename: model.filename,
            snapshot,
            features: model.features,
            chat_template: model.chat_template,
            request_params: model.request_params,
            context_params: model.context_params,
        }
    }
}

/// The directory of a repository in the hub cache, `<cache>/models--<owner>--<repo>`.
pub fn cache_dir(hf_cache: &str, repo: &Repo) -> (dir: String)
    ensures
        dir@ == hf_cache@ + "/"@ + repo_dir(repo@),
{
    proof {
        reveal_strlit("/");
        reveal_strlit("--");
        assert("/"@ =~= seq!['/']);
        assert("--"@ =~= seq!['-', '-']);
    }
    let name = replace_text(repo.as_str(), "/", "--");
    let mut dir = String::from_str(hf_cache);
    dir.append("/");
    dir.append("models--");
    dir.append(name.as_str());
    assert(dir@ =~= hf_cache@ + "/"@ + repo_dir(repo@));
    dir
}

impl LocalModelFile {
    /// A file of the hub cache.
    pub fn new(
        hf_cache: String,
        repo: Repo,
        filename: String,
        snapshot: String,
        size: Option<u64>,
    ) -> (file: Self)
        ensures
            file == (LocalModelFile { hf_cache, repo, filename, snapshot, size }),
    {
        LocalModelFile { hf_cache, repo, filename, snapshot, size }
    }

    /// The absolute location of the file.
    pub fn path(&self) -> (p: String)
        ensures
            p@ == cache_path(self.hf_cache@, self.repo@, self.snapshot@, self.filename@),
    {
        let mut p = cache_dir(self.hf_cache.as_str(), &self.repo);
        p.append("/snapshots/");
        p.append(self.snapshot.as_str());
        p.append("/");
        p.append(self.filename.as_str());
        assert(p@ =~= cache_path(self.hf_cache@, self.repo@, self.snapshot@, self.filename@));
        p
    }
}

/// The engine parameters for a model file and the context defaults of its
/// alias; the seed is left to the engine.
pub fn engine_params(model_path: String, context: &GptContextParams) -> (p: GptParams)
    ensures
        p == (GptParams {
            model: model_path,
            n_ctx: context.n_ctx,
            n_parallel: context.n_parallel,
            n_threads: context.n_threads,
            seed: None,
            n_predict: context.n_predict,
        }),
{
    GptParams {
        model: model_path,
        n_ctx: context.n_ctx,
        n_parallel: context.n_parallel,
        n_threads: context.n_threads,
        seed: None,
        n_predict: context.n_predict,
    }
}

/// Does `filename` end in `.gguf`?
pub fn is_gguf(filename: &str) -> (b: bool)
    ensures
        b == is_gguf_filename(filename@),
{
    let name = chars_of(filename);
    let extension = chars_of(".gguf");
    proof {
        reveal_strlit(".gguf");
        assert(".gguf"@ =~= gguf_extension());
    }
    ends_with(&name, &extension)
}

} // verus!
