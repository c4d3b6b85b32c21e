//! The `create` command: register a model alias.

use vstd::prelude::*;
use vstd::string::StringExecFns;
use crate::cli::{command_name, Command};
use crate::error::AppError;
use crate::objs::{
    default_features, is_repo_format, repo_format_message, Alias, ChatTemplate, GptContextParams,
    OAIRequestParams, Repo,
};
use crate::service::AppServiceFn;

verus! {

/// What `create` was asked to register.
#[derive(Debug, PartialEq)]
pub struct CreateCommand {
    pub alias: String,
    pub repo: Repo,
    pub filename: String,
    pub chat_template: ChatTemplate,
    pub family: Option<String>,
    pub force: bool,
    pub oai_request_params: OAIRequestParams,
    pub context_params: GptContextParams,
}

/// A file that a command asks the hub for.
#[derive(Debug, PartialEq)]
pub struct Download {
    pub repo: Repo,
    pub filename: String,
    /// Is the file fetched even where the cache holds it?
    pub force: bool,
}

/// Refuses to create a model alias that exists already, unless the
/// command is forced.
pub fn refuse_existing(alias: &String, force: bool, existing: Option<Alias>) -> (r: Result<
    (),
    AppError,
>)
    ensures
        r == (if !force && existing is Some {
            Err::<(), AppError>(AppError::ModelAliasExists(*alias))
        } else {
            Ok(())
        }),
{
    if !force && existing.is_some() {
        Err(AppError::ModelAliasExists(alias.clone()))
    } else {
        Ok(())
    }
}

/// What is said of a `create` that names neither a built-in template nor a
/// tokenizer configuration.
pub open spec fn no_template_message() -> Seq<char> {
    "cannot initialize create command with invalid state. chat_template: 'None', tokenizer_config: 'None'"@
}

/// The outcome of reading a `create` command line: the fields that are
/// taken over as they are, and the error otherwise.
pub open spec fn created_from(value: Command, r: Result<CreateCommand, AppError>) -> bool {
    match value {
        Command::Create {
            alias,
            repo,
            filename,
            chat_template,
            tokenizer_config,
            family,
            force,
            oai_request_params,
            context_params,
        } => {
            if chat_template is None && tokenizer_config is None {
                r matches Err(AppError::BadRequest(m)) && m@ == no_template_message()
            } else if chat_template is None && !is_repo_format(tokenizer_config.unwrap()@) {
                r matches Err(AppError::BadRequest(m)) && m@ == repo_format_message()
            } else if !is_repo_format(repo@) {
                r matches Err(AppError::BadRequest(m)) && m@ == repo_format_message()
            } else {
                &&& r matches Ok(command)
                &&& command.alias == alias
                &&& command.repo@ == repo@
                &&& command.filename == filename
                &&& match chat_template {
                    Some(id) => command.chat_template == ChatTemplate::Id(id),
                    None => command.chat_template matches ChatTemplate::Repo(t) && t@
                        == tokenizer_config.unwrap()@,
                }
                &&& command.family == family
                &&& command.force == force
                &&& command.oai_request_params == oai_request_params
                &&& command.context_params == context_params
            }
        },
        other => r matches Err(AppError::ConvertCommand(from, to)) && from@ == command_name(other)
            && to@ == "create"@,
    }
}

impl CreateCommand {
    /// Reads a `create` command line. A built-in template wins over a
    /// tokenizer configuration; one of the two must be given, and every
    /// repository must have the form `owner/repo`. Another command is
    /// refused with `ConvertCommand`.
    pub fn try_from(value: Command) -> (r: Result<CreateCommand, AppError>)
        ensures
            created_from(value, r),
    {
        match value {
            Command::Create {
                alias,
                repo,
                filename,
                chat_template,
                tokenizer_config,
                family,
                force,
                oai_request_params,
                context_params,
            } => {
                let chat_template = match chat_template {
                    Some(id) => ChatTemplate::Id(id),
                    None => match tokenizer_config {
                        Some(tokenizer_config) => match Repo::try_new(tokenizer_config) {
                            Ok(repo) => ChatTemplate::Repo(repo),
                            Err(e) => {
                                return Err(e);
                            },
                        },
                        None => {
                            return Err(
                                AppError::BadRequest(
                                    String::from_str(
                                        "cannot initialize create command with invalid state. chat_template: 'None', tokenizer_config: 'None'",
                                    ),
                                ),
                            );
                        },
                    },
                };
                let repo = match Repo::try_new(repo) {
                    Ok(repo) => repo,
                    Err(e) => {
                        return Err(e);
                    },
                };
                Ok(
                    CreateCommand {
                        alias,
                        repo,
                        filename,
                        chat_template,
                        family,
                        force,
                        oai_request_params,
                        context_params,
                    },
                )
            },
            other => Err(AppError::ConvertCommand(other.to_string(), String::from_str("create"))),
        }
    }

    /// The alias that this command registers once its model file lies in
    /// the cache under `snapshot`: it has the one feature `chat`.
    pub fn into_alias(self, snapshot: String) -> (alias: Alias)
        ensures
            alias.alias == self.alias,
            alias.family == self.family,
            alias.repo == self.repo,
            alias.filename == self.filename,
            alias.snapshot == snapshot,
            alias.features@.len() == 1 && alias.features@[0]@ == "chat"@,
            alias.chat_template == self.chat_template,
            alias.request_params == self.oai_request_params,
            alias.context_params == self.context_params,
    {
        Alias::new(
            self.alias,
            self.family,
            self.repo,
            self.filename,
            snapshot,
            default_features(),
            self.chat_template,
            self.oai_request_params,
            self.context_params,
        )
    }

    /// The files that the command asks the hub for: the model file, under
    /// the command's `force`; and, where the chat template comes from a
    /// repository, the `tokenizer_config.json` of that repository, anew.
    pub fn downloads(&self) -> (files: Vec<Download>)
        ensures
            files@.len() == (if self.chat_template is Repo {
                2nat
            } else {
                1nat
            }),
            files@[0].repo@ == self.repo@,
            files@[0].filename@ == self.filename@,
            files@[0].force == self.force,
            self.chat_template matches ChatTemplate::Repo(repo) ==> files@[1].repo@ == repo@
                && files@[1].filename@ == "tokenizer_config.json"@ && files@[1].force,
    {
        let mut files: Vec<Download> = Vec::new();
        files.push(
            Download {
                repo: self.repo.clone(),
                filename: self.filename.clone(),
                force: self.force,
            },
        );
        match &self.chat_template {
            ChatTemplate::Repo(repo) => {
                files.push(
                    Download {
                        repo: repo.clone(),
                        filename: String::from_str("tokenizer_config.json"),
                        force: true,
                    },
                );
            },
            ChatTemplate::Id(_) => {},
        }
        files
    }

    /// Registers the alias through `service`.
    ///
    /// Unless forced, an alias that is registered already is refused
    /// ([`refuse_existing`]). The files of [`Self::downloads`] are fetched in
    /// their order, and the alias is saved as [`Self::into_alias`] states
    /// it, with the snapshot under which the model file came. An error of
    /// `service` ends the command with that error.
    pub fn execute<S: AppServiceFn>(self, service: &mut S) -> (r: Result<(), AppError>)
        ensures
            !self.force && old(service).alias_of(self.alias@) is Some ==> r == Err::<(), AppError>(
                AppError::ModelAliasExists(self.alias),
            ),
    {
        if !self.force {
            let existing = service.find_alias(self.alias.as_str());
            match refuse_existing(&self.alias, self.force, existing) {
                Ok(()) => {},
                Err(e) => {
                    return Err(e);
                },
            }
        }
        let files = self.downloads();
        let model = match service.download(&files[0].repo, files[0].filename.as_str(), files[0].force) {
            Ok(file) => file,
            Err(e) => {
                return Err(e);
            },
        };
        let mut i: usize = 1;
        while i < files.len()
            invariant
                1 <= i,
                self.force || old(service).alias_of(self.alias@) is None,
            decreases files@.len() - i,
        {
            match service.download(&files[i].repo, files[i].filename.as_str(), files[i].force) {
                Ok(_) => {},
                Err(e) => {
                    return Err(e);
                },
            }
            i += 1;
        }
        match service.save_alias(self.into_alias(model.snapshot)) {
            Ok(_) => Ok(()),
            Err(e) => Err(e),
        }
    }
}

} // verus!
