//! What the runtime asks of its collaborators: the alias registry and the
//! model hub.

use vstd::prelude::*;
use crate::error::AppError;
use crate::list::LocalModel;
use crate::objs::{Alias, ChatTemplateId, LocalModelFile, RemoteModel, Repo};
use crate::tokenizer_config::TokenizerConfig;

verus! {

/// The alias registry and the hub cache, as the commands and the pipeline
/// see them.
///
/// The four lookups of the runtime are deterministic and free of side
/// effects: each answers by what the service holds, which the spec
/// functions of this trait stand for. What the service holds changes only
/// through the methods that take it mutably. An implementation is trusted
/// to answer its lookups so; nothing else is assumed of it, and every
/// caller in this library is proved for whatever the other methods
/// return.
pub trait AppServiceFn {
    /// The alias that the registry holds under a name. A service that is
    /// verified says what it holds; of any other this is left open.
    open spec fn alias_of(&self, alias: Seq<char>) -> Option<Alias> {
        arbitrary()
    }

    /// What the hub cache answers for a file of a repository under a
    /// snapshot: the file, none where it is not there, or why the cache
    /// could not be read.
    open spec fn file_of(&self, repo: Seq<char>, filename: Seq<char>, snapshot: Seq<char>) -> Result<
        Option<LocalModelFile>,
        AppError,
    > {
        arbitrary()
    }

    /// Where a file of a repository would lie in the hub cache.
    open spec fn path_of(&self, repo: Seq<char>, filename: Seq<char>, snapshot: Seq<char>) -> Seq<
        char,
    > {
        arbitrary()
    }

    /// The root of the hub cache.
    open spec fn home(&self) -> Seq<char> {
        arbitrary()
    }

    /// The alias registered under `alias`.
    fn find_alias(&self, alias: &str) -> (found: Option<Alias>)
        ensures
            found == self.alias_of(alias@),
    ;

    /// Every registered alias.
    fn list_aliases(&self) -> Result<Vec<Alias>, AppError>;

    /// Registers `alias`, and tells where it was written.
    fn save_alias(&mut self, alias: Alias) -> Result<String, AppError>;

    /// The catalog model offered under `alias`.
    fn find_remote_model(&self, alias: &str) -> Result<Option<RemoteModel>, AppError>;

    /// Every model of the catalog.
    fn list_remote_models(&self) -> Result<Vec<RemoteModel>, AppError>;

    /// Fetches a file into the hub cache.
    fn download(&mut self, repo: &Repo, filename: &str, force: bool) -> Result<
        LocalModelFile,
        AppError,
    >;

    /// The models of the hub cache.
    fn list_local_models(&self) -> Vec<LocalModel>;

    /// The file of the hub cache, if it is there.
    fn find_local_file(&self, repo: &Repo, filename: &str, snapshot: &str) -> (found: Result<
        Option<LocalModelFile>,
        AppError,
    >)
        ensures
            found == self.file_of(repo@, filename@, snapshot@),
    ;

    /// The root of the hub cache.
    fn hf_home(&self) -> (home: String)
        ensures
            home@ == self.home(),
    ;

    /// Where the file would lie in the hub cache.
    fn model_file_path(&self, repo: &Repo, filename: &str, snapshot: &str) -> (path: String)
        ensures
            path@ == self.path_of(repo@, filename@, snapshot@),
    ;

    /// Reads the tokenizer configuration held in `file`.
    fn tokenizer_config(&self, file: &LocalModelFile) -> Result<TokenizerConfig, AppError>;

    /// The tokenizer configuration that ships with a built-in template.
    fn bundled_config(&self, id: ChatTemplateId) -> Result<TokenizerConfig, AppError>;
}

} // verus!
