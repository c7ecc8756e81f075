//! Construction of the Git commands the package manager runs, and the
//! reading of their output.  The commands are returned as plain
//! [`Command`](crate::helpers::cmd::Command) values for the caller to
//! execute.

use vstd::prelude::*;
use crate::errors::PaketError;
use crate::helpers::cmd::Command;
use crate::strutil::{concat_str, concat3, join_path, str_eq, str_trim, trim_of};

verus! {

/// The host a Git provider keyword stands for.
pub open spec fn provider_host(provider: Seq<char>) -> Option<Seq<char>> {
    if provider == "github"@ {
        Some("github.com"@)
    } else if provider == "bitbucket"@ {
        Some("bitbucket.org"@)
    } else if provider == "gitlab"@ {
        Some("gitlab.com"@)
    } else {
        None
    }
}

/// The branch or tag to use: the given one, or `master`.
pub open spec fn tag_or_master(branch_tag: Option<&str>) -> Seq<char> {
    match branch_tag {
        Some(t) => t@,
        None => "master"@,
    }
}

/// Git commands set interface.
pub struct Git {
    /// Base directory, usually the package cache directory.
    pub base_dir: String,
    /// Directory a command without a repository of its own runs in.
    pub current_dir: String,
}

impl Git {
    /// A Git interface rooted at the (canonical) directory `base_dir`.
    pub fn new(base_dir: &str) -> (g: Git)
        ensures
            g.base_dir@ == base_dir@,
            g.current_dir@ == base_dir@,
    {
        Git { base_dir: String::from_str(base_dir), current_dir: String::from_str(base_dir) }
    }

    /// The clone URL for `user_repo_name` at a known provider.
    fn get_remote_endpoint(user_repo_name: &str, provider: &str) -> (r: Result<String, PaketError>)
        ensures
            match r {
                Ok(s) => provider_host(provider@) matches Some(h) && s@ == "https://"@ + h + seq![
                    '/',
                ] + user_repo_name@ + ".git"@,
                Err(e) => e is InvalidReference && provider_host(provider@) is None,
            },
    {
        let host = if str_eq(provider, "github") {
            "github.com"
        } else if str_eq(provider, "bitbucket") {
            "bitbucket.org"
        } else if str_eq(provider, "gitlab") {
            "gitlab.com"
        } else {
            return Err(
                PaketError::InvalidReference(
                    String::from_str(
                        "git host provider not supported. use a full url endpoint with `add` command instead",
                    ),
                ),
            );
        };
        let prefix = concat_str("https://", host);
        let with_repo = join_path(prefix.as_str(), user_repo_name);
        let r = with_repo.concat(".git");
        proof {
            assert(r@ =~= "https://"@ + host@ + seq!['/'] + user_repo_name@ + ".git"@);
        }
        Ok(r)
    }

    /// The command that clones `user_repo_name` from `git_provider` at the
    /// given branch or tag into `base_dir/user_repo_name` (a directory the
    /// caller creates beforehand).
    pub fn clone(&self, user_repo_name: &str, branch_tag: Option<&str>, git_provider: &str) -> (r:
        Result<Command, PaketError>)
        ensures
            match r {
                Ok(c) => {
                    &&& provider_host(git_provider@) matches Some(h) && c.args.deep_view()[3]
                        == "https://"@ + h + seq!['/'] + user_repo_name@ + ".git"@
                    &&& c.program@ == "git"@
                    &&& c.cwd matches Some(w) && w@ == self.current_dir@
                    &&& c.args.deep_view().len() == 5
                    &&& c.args.deep_view()[0] == "clone"@
                    &&& c.args.deep_view()[1] == "--depth=1"@
                    &&& c.args.deep_view()[2] == "--branch="@ + tag_or_master(branch_tag)
                    &&& c.args.deep_view()[4] == self.base_dir@ + seq!['/'] + user_repo_name@
                },
                Err(e) => e is InvalidReference && provider_host(git_provider@) is None,
            },
    {
        let endpoint = match Self::get_remote_endpoint(user_repo_name, git_provider) {
            Ok(s) => s,
            Err(e) => {
                return Err(e);
            },
        };
        let out_dir = join_path(self.base_dir.as_str(), user_repo_name);
        let branch = match branch_tag {
            Some(t) => t,
            None => "master",
        };
        let branch_str = concat_str("--branch=", branch);
        let c = Command::new("git", Some(self.current_dir.clone())).arg("clone").arg(
            "--depth=1",
        ).arg(branch_str.as_str()).arg(endpoint.as_str()).arg(out_dir.as_str());
        Ok(c)
    }

    /// The command that fetches the given branch or tag of an installed
    /// package's repository.
    pub fn fetch(&self, user_repo_name: &str, branch_tag: Option<&str>) -> (c: Command)
        ensures
            c.program@ == "git"@,
            c.cwd matches Some(w) && w@ == self.base_dir@ + seq!['/'] + user_repo_name@,
            c.args.deep_view().len() == 4,
            c.args.deep_view()[0] == "fetch"@,
            c.args.deep_view()[1] == "--depth=1"@,
            c.args.deep_view()[2] == "origin"@,
            c.args.deep_view()[3] == tag_or_master(branch_tag),
    {
        let cwd = join_path(self.base_dir.as_str(), user_repo_name);
        let branch = match branch_tag {
            Some(t) => t,
            None => "master",
        };
        Command::new("git", Some(cwd)).arg("fetch").arg("--depth=1").arg("origin").arg(branch)
    }

    /// The command that checks out the given branch of an installed
    /// package's repository; a branch must be given.
    pub fn checkout(&self, user_repo_name: &str, branch: Option<&str>) -> (r: Result<
        Command,
        PaketError,
    >)
        ensures
            match r {
                Ok(c) => {
                    &&& branch is Some
                    &&& c.program@ == "git"@
                    &&& c.cwd matches Some(w) && w@ == self.base_dir@ + seq!['/'] + user_repo_name@
                    &&& c.args.deep_view().len() == 2
                    &&& c.args.deep_view()[0] == "checkout"@
                    &&& c.args.deep_view()[1] == branch->0@
                },
                Err(e) => e is InvalidReference && branch is None,
            },
    {
        let b = match branch {
            Some(b) => b,
            None => {
                return Err(
                    PaketError::InvalidReference(
                        String::from_str("provide a branch to switch to."),
                    ),
                );
            },
        };
        let cwd = join_path(self.base_dir.as_str(), user_repo_name);
        Ok(Command::new("git", Some(cwd)).arg("checkout").arg(b))
    }

    /// The command that pulls an installed package's repository;
    /// `repo_exists` says whether `base_dir/user_repo_name` exists on disk,
    /// a fact only the caller can supply.
    pub fn pull(&self, user_repo_name: &str, repo_exists: bool) -> (r: Result<Command, PaketError>)
        ensures
            match r {
                Ok(c) => {
                    &&& repo_exists
                    &&& c.program@ == "git"@
                    &&& c.cwd matches Some(w) && w@ == self.base_dir@ + seq!['/'] + user_repo_name@
                    &&& c.args.deep_view().len() == 3
                    &&& c.args.deep_view()[0] == "pull"@
                    &&& c.args.deep_view()[1] == "origin"@
                    &&& c.args.deep_view()[2] == "master"@
                },
                Err(e) => e is PathError && !repo_exists,
            },
    {
        if !repo_exists {
            return Err(
                PaketError::PathError(
                    concat3("repository `", user_repo_name, "` was not found"),
                ),
            );
        }
        let cwd = join_path(self.base_dir.as_str(), user_repo_name);
        Ok(Command::new("git", Some(cwd)).arg("pull").arg("origin").arg("master"))
    }

    /// The command whose output `check_valid_repo` reads: `git rev-parse
    /// --is-inside-work-tree` in `repo_dir`.
    pub fn check_valid_repo_cmd(&self, repo_dir: &str) -> (c: Command)
        ensures
            c.program@ == "git"@,
            c.cwd matches Some(w) && w@ == repo_dir@,
            c.args.deep_view().len() == 2,
            c.args.deep_view()[0] == "rev-parse"@,
            c.args.deep_view()[1] == "--is-inside-work-tree"@,
    {
        Command::new("git", Some(String::from_str(repo_dir))).arg("rev-parse").arg(
            "--is-inside-work-tree",
        )
    }

    /// Decide from the captured output of `check_valid_repo_cmd` whether the
    /// directory is a valid Git repository: the command must have succeeded
    /// and printed `true`.
    pub fn check_valid_repo(out: &Result<String, String>) -> (r: Result<(), PaketError>)
        ensures
            match r {
                Ok(()) => out matches Ok(s) && trim_of(s@) == "true"@,
                Err(e) => {
                    &&& e is SubprocessError
                    &&& match out {
                        Ok(s) => trim_of(s@) != "true"@,
                        Err(m) => e.message_view() == m@,
                    }
                },
            },
    {
        match out {
            Ok(s) => {
                let t = str_trim(s.as_str());
                if str_eq(t.as_str(), "true") {
                    Ok(())
                } else {
                    Err(
                        PaketError::SubprocessError(
                            String::from_str(
                                "package working directory is not inside the repository's work tree",
                            ),
                        ),
                    )
                }
            },
            Err(m) => Err(PaketError::SubprocessError(m.clone())),
        }
    }
}

} // verus!
