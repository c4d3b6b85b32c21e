//! The `pull` command: fetch a model file, by alias or by repository and
//! file name.

use vstd::prelude::*;
use crate::error::AppError;
use crate::objs::{is_repo_format, repo_format_message, Alias, RemoteModel, Repo};
use crate::service::AppServiceFn;

verus! {

/// What to pull.
#[derive(Debug, PartialEq)]
pub enum Pull {
    /// The catalog model offered under an alias.
    ByAlias { alias: String, force: bool },
    /// A file of a repository.
    ByRepoFile { repo: String, filename: String, force: bool },
}

/// Refuses an alias that exists already, unless the pull is forced.
pub fn ensure_absent(alias: &String, force: bool, existing: Option<Alias>) -> (r: Result<
    (),
    AppError,
>)
    ensures
        r == (if !force && existing is Some {
            Err::<(), AppError>(AppError::AliasExists(*alias))
        } else {
            Ok(())
        }),
{
    if !force && existing.is_some() {
        Err(AppError::AliasExists(alias.clone()))
    } else {
        Ok(())
    }
}

/// The catalog model of an alias, or `AliasNotFound` where the catalog has
/// none under that name.
pub fn require_remote(alias: String, found: Option<RemoteModel>) -> (r: Result<
    RemoteModel,
    AppError,
>)
    ensures
        r == (match found {
            Some(model) => Ok::<RemoteModel, AppError>(model),
            None => Err(AppError::AliasNotFound(alias)),
        }),
{
    match found {
        Some(model) => Ok(model),
        None => Err(AppError::AliasNotFound(alias)),
    }
}

impl Pull {
    /// A pull by alias where one is given, else by repository and file.
    pub fn new(
        alias: Option<String>,
        repo: Option<String>,
        filename: Option<String>,
        force: bool,
    ) -> (pull: Self)
        requires
            alias is Some || (repo is Some && filename is Some),
        ensures
            pull == (match alias {
                Some(alias) => Pull::ByAlias { alias, force },
                None => Pull::ByRepoFile { repo: repo.unwrap(), filename: filename.unwrap(), force },
            }),
    {
        match alias {
            Some(alias) => Pull::ByAlias { alias, force },
            None => Pull::ByRepoFile { repo: repo.unwrap(), filename: filename.unwrap(), force },
        }
    }

    /// Pulls through `service`.
    ///
    /// By alias: unless forced, an alias that the registry holds already
    /// is refused ([`ensure_absent`]); the alias must be in the catalog
    /// ([`require_remote`]); its file is downloaded and the alias is saved
    /// with the snapshot under which the file came. By repository and
    /// file: the repository must have the form `owner/repo`, and the file
    /// is downloaded. An error of `service` ends the command with that
    /// error.
    pub fn execute<S: AppServiceFn>(self, service: &mut S) -> (r: Result<(), AppError>)
        ensures
            self matches Pull::ByRepoFile { repo, .. } && !is_repo_format(repo@) ==> (r matches Err(
                AppError::BadRequest(m),
            ) && m@ == repo_format_message()),
            match self {
                Pull::ByAlias { alias, force } => !force && old(service).alias_of(alias@)
                    is Some ==> r == Err::<(), AppError>(AppError::AliasExists(alias)),
                _ => true,
            },
    {
        match self {
            Pull::ByAlias { alias, force } => {
                if !force {
                    let existing = service.find_alias(alias.as_str());
                    match ensure_absent(&alias, force, existing) {
                        Ok(()) => {},
                        Err(e) => {
                            return Err(e);
                        },
                    }
                }
                let found = match service.find_remote_model(alias.as_str()) {
                    Ok(found) => found,
                    Err(e) => {
                        return Err(e);
                    },
                };
                let model = match require_remote(alias, found) {
                    Ok(model) => model,
                    Err(e) => {
                        return Err(e);
                    },
                };
                let file = match service.download(&model.repo, model.filename.as_str(), force) {
                    Ok(file) => file,
                    Err(e) => {
                        return Err(e);
                    },
                };
                match service.save_alias(Alias::from_remote(model, file.snapshot)) {
                    Ok(_) => Ok(()),
                    Err(e) => Err(e),
                }
            },
            Pull::ByRepoFile { repo, filename, force } => {
                let repo = match Repo::try_new(repo) {
                    Ok(repo) => repo,
                    Err(e) => {
                        return Err(e);
                    },
                };
                match service.download(&repo, filename.as_str(), force) {
                    Ok(_) => Ok(()),
                    Err(e) => Err(e),
                }
            },
        }
    }
}

} // verus!
