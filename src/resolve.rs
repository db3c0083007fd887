//! Resolution of the server binary as a state machine.
//!
//! The resolver asks for one outside action at a time and is handed back what
//! came of it as an event. The order it follows, first match wins: the binary
//! path configured for the server, then the worktree's search path, then the
//! cached path if its file is still there, and only then the latest release:
//! fetch, create the version directory, download and unpack unless the binary
//! is already there, mark it executable, and prune every other entry of the
//! working directory.
use vstd::prelude::*;
use crate::cache::BinaryCache;
use crate::error::ResolveError;
use crate::install::{binary_path, binary_path_spec, stale_entries, version_dir, version_dir_spec, without};
use crate::platform::{asset_name_spec, inherits_shell_env, inherits_shell_env_spec, PlatformKey};
use crate::release::{has_match, is_first_match, select_asset, Release};
use crate::text::append;

verus! {

/// `ols`: the server's name, on the search path and in artifact names.
pub open spec fn tool_spec() -> Seq<char> {
    seq!['o', 'l', 's']
}

/// `DanielGavin/ols`: the repository whose releases carry the server.
pub open spec fn repository_spec() -> Seq<char> {
    seq!['D', 'a', 'n', 'i', 'e', 'l', 'G', 'a', 'v', 'i', 'n', '/', 'o', 'l', 's']
}

/// The binary settings configured for the server in a worktree.
#[derive(Debug)]
pub struct BinarySettings {
    pub path: Option<String>,
    pub arguments: Option<Vec<String>>,
}

/// A command ready to launch: the binary, its arguments and its environment.
#[derive(Debug)]
pub struct OlsBinary {
    pub path: String,
    pub args: Option<Vec<String>>,
    pub environment: Option<Vec<(String, String)>>,
}

/// Where a resolution stands: which event it waits for.
#[derive(Clone, Copy, Debug, PartialEq, Eq, Structural)]
pub enum Phase {
    AwaitEnvironment,
    AwaitSettings,
    AwaitSearch,
    AwaitCachedFile,
    AwaitRelease,
    AwaitDirectory,
    AwaitInstalledFile,
    AwaitDownload,
    AwaitExecutable,
    AwaitListing,
    AwaitPrune,
    Finished,
}

/// What came of the last action.
#[derive(Debug)]
pub enum Event {
    /// The worktree's shell environment.
    Environment(Vec<(String, String)>),
    /// The server's binary settings; `None` where there are none or they could
    /// not be read.
    Settings(Option<BinarySettings>),
    /// The search path's match for the server's name, if any.
    Search(Option<String>),
    /// Whether the path checked names an existing regular file.
    FileCheck(bool),
    /// The latest release, or why it could not be fetched.
    ReleaseFetched(Result<Release, String>),
    DirectoryCreated(Result<(), String>),
    Downloaded(Result<(), String>),
    MadeExecutable(Result<(), String>),
    /// The names of the working directory's entries.
    Listed(Result<Vec<String>, String>),
    /// The stale entries were removed, as far as that went.
    Pruned,
}

/// What the host is to do next.
#[derive(Debug)]
pub enum Action {
    CaptureEnvironment,
    ReadSettings { server: String },
    SearchPath { name: String },
    CheckFile { path: String },
    /// Report that updates are being checked for, then fetch the latest release.
    FetchRelease { repository: String },
    CreateDirectory { path: String },
    /// Report the download, then download the zip archive and unpack it.
    Download { url: String, directory: String },
    MakeExecutable { path: String },
    ListWorkingDirectory,
    /// Remove each named entry, ignoring failures.
    RemoveEntries { names: Vec<String> },
    /// The resolution is over.
    Finish { result: Result<OlsBinary, ResolveError> },
}

/// One resolution in progress.
#[derive(Debug)]
pub struct Resolver {
    pub phase: Phase,
    pub key: PlatformKey,
    pub environment: Option<Vec<(String, String)>>,
    pub args: Option<Vec<String>>,
    pub candidate: String,
    pub download_url: String,
    pub version_dir: String,
    pub binary_path: String,
}

/// The successful end of a resolution that settled on `path`.
pub open spec fn finish_ok(r: Resolver, path: String) -> Action {
    Action::Finish {
        result: Ok(OlsBinary { path: path, args: r.args, environment: r.environment }),
    }
}

/// The failed end of a resolution.
pub open spec fn finish_err(e: ResolveError) -> Action {
    Action::Finish { result: Err(e) }
}

pub open spec fn fetches_release(a: Action) -> bool {
    a matches Action::FetchRelease { repository } && repository@ == repository_spec()
}

impl Resolver {
    /// Whether `event` answers the action this resolver asked for last.
    pub open spec fn accepts_spec(&self, event: &Event) -> bool {
        match self.phase {
            Phase::AwaitEnvironment => event is Environment,
            Phase::AwaitSettings => event is Settings,
            Phase::AwaitSearch => event is Search,
            Phase::AwaitCachedFile => event is FileCheck,
            Phase::AwaitRelease => event is ReleaseFetched,
            Phase::AwaitDirectory => event is DirectoryCreated,
            Phase::AwaitInstalledFile => event is FileCheck,
            Phase::AwaitDownload => event is Downloaded,
            Phase::AwaitExecutable => event is MadeExecutable,
            Phase::AwaitListing => event is Listed,
            Phase::AwaitPrune => event is Pruned,
            Phase::Finished => false,
        }
    }

    /// The resolver moves to `next`, the cache's path to `next_cache`, and
    /// `action` is asked for, on `event` with `cache` held.
    pub open spec fn transition(
        self,
        cache: Option<String>,
        event: Event,
        next: Resolver,
        next_cache: Option<String>,
        action: Action,
    ) -> bool {
        match event {
            Event::Environment(env) => {
                &&& next == Resolver { phase: Phase::AwaitSettings, environment: Some(env), ..self }
                &&& next_cache == cache
                &&& action matches Action::ReadSettings { server } && server@ == tool_spec()
            },
            Event::Settings(s) => if s is Some && s->0.path is Some {
                &&& action == Action::Finish {
                    result: Ok(
                        OlsBinary {
                            path: s->0.path->0,
                            args: s->0.arguments,
                            environment: self.environment,
                        },
                    ),
                }
                &&& next.phase is Finished
                &&& next_cache == cache
            } else {
                let args = if s is Some { s->0.arguments } else { None };
                &&& next == Resolver { phase: Phase::AwaitSearch, args: args, ..self }
                &&& next_cache == cache
                &&& action matches Action::SearchPath { name } && name@ == tool_spec()
            },
            Event::Search(found) => match found {
                Some(p) => {
                    &&& action == finish_ok(self, p)
                    &&& next.phase is Finished
                    &&& next_cache == Some(p)
                },
                None => {
                    &&& next_cache == cache
                    &&& match cache {
                        Some(c) => {
                            &&& next == Resolver { phase: Phase::AwaitCachedFile, candidate: c, ..self }
                            &&& action == Action::CheckFile { path: c }
                        },
                        None => {
                            &&& next == Resolver { phase: Phase::AwaitRelease, ..self }
                            &&& fetches_release(action)
                        },
                    }
                },
            },
            Event::FileCheck(live) => if self.phase is AwaitCachedFile {
                &&& next_cache == cache
                &&& if live {
                    action == finish_ok(self, self.candidate) && next.phase is Finished
                } else {
                    next == Resolver { phase: Phase::AwaitRelease, ..self } && fetches_release(action)
                }
            } else if live {
                &&& action == finish_ok(self, self.binary_path)
                &&& next.phase is Finished
                &&& next_cache == Some(self.binary_path)
            } else {
                &&& next == Resolver { phase: Phase::AwaitDownload, ..self }
                &&& next_cache == cache
                &&& action == Action::Download { url: self.download_url, directory: self.version_dir }
            },
            Event::ReleaseFetched(fetched) => {
                &&& next_cache == cache
                &&& match fetched {
                    Err(e) => action == finish_err(ResolveError::ReleaseUnavailable { cause: e })
                        && next.phase is Finished,
                    Ok(rel) => {
                        let expected = asset_name_spec(tool_spec(), self.key);
                        if has_match(rel.assets@, expected) {
                            &&& next.phase is AwaitDirectory
                            &&& next.key == self.key
                            &&& next.environment == self.environment
                            &&& next.args == self.args
                            &&& exists|i: int|
                                is_first_match(rel.assets@, expected, i)
                                    && next.download_url == rel.assets@[i].download_url
                            &&& next.version_dir@ == version_dir_spec(tool_spec(), rel.version@)
                            &&& next.binary_path@ == binary_path_spec(
                                tool_spec(),
                                rel.version@,
                                self.key,
                            )
                            &&& action == Action::CreateDirectory { path: next.version_dir }
                        } else {
                            &&& next.phase is Finished
                            &&& action matches Action::Finish { result: Err(
                                ResolveError::AssetNotFound { expected_name },
                            ) } && expected_name@ == expected
                        }
                    },
                }
            },
            Event::DirectoryCreated(created) => {
                &&& next_cache == cache
                &&& match created {
                    Err(e) => action == finish_err(
                        ResolveError::DirectoryCreateFailed { path: self.version_dir, cause: e },
                    ) && next.phase is Finished,
                    Ok(_) => next == Resolver { phase: Phase::AwaitInstalledFile, ..self }
                        && action == Action::CheckFile { path: self.binary_path },
                }
            },
            Event::Downloaded(done) => {
                &&& next_cache == cache
                &&& match done {
                    Err(e) => action == finish_err(ResolveError::DownloadFailed { cause: e })
                        && next.phase is Finished,
                    Ok(_) => next == Resolver { phase: Phase::AwaitExecutable, ..self }
                        && action == Action::MakeExecutable { path: self.binary_path },
                }
            },
            Event::MadeExecutable(done) => {
                &&& next_cache == cache
                &&& match done {
                    Err(e) => action == finish_err(ResolveError::PermissionMarkFailed { cause: e })
                        && next.phase is Finished,
                    Ok(_) => next == Resolver { phase: Phase::AwaitListing, ..self }
                        && action == Action::ListWorkingDirectory,
                }
            },
            Event::Listed(listed) => {
                &&& next_cache == cache
                &&& match listed {
                    Err(e) => action == finish_err(ResolveError::DirectoryListFailed { cause: e })
                        && next.phase is Finished,
                    Ok(entries) => {
                        &&& next == Resolver { phase: Phase::AwaitPrune, ..self }
                        &&& action matches Action::RemoveEntries { names } && names.deep_view()
                            == without(entries.deep_view(), self.version_dir@)
                    },
                }
            },
            Event::Pruned => {
                &&& action == finish_ok(self, self.binary_path)
                &&& next.phase is Finished
                &&& next_cache == Some(self.binary_path)
            },
        }
    }

    /// A new resolution on `key`, and its first action: capture the shell
    /// environment where it is handed on, else read the settings.
    pub fn start(key: PlatformKey) -> (r: (Resolver, Action))
        ensures
            r.0.key == key,
            r.0.environment is None,
            r.0.args is None,
            inherits_shell_env_spec(key.os) ==> r.0.phase is AwaitEnvironment
                && r.1 is CaptureEnvironment,
            !inherits_shell_env_spec(key.os) ==> r.0.phase is AwaitSettings && (r.1 matches Action::ReadSettings {
                server,
            } && server@ == tool_spec()),
    {
        let inherits = inherits_shell_env(key.os);
        let r = Resolver {
            phase: if inherits { Phase::AwaitEnvironment } else { Phase::AwaitSettings },
            key,
            environment: None,
            args: None,
            candidate: String::new(),
            download_url: String::new(),
            version_dir: String::new(),
            binary_path: String::new(),
        };
        if inherits {
            (r, Action::CaptureEnvironment)
        } else {
            (r, Action::ReadSettings { server: tool_name() })
        }
    }

    /// Whether `event` answers the action this resolver asked for last.
    pub fn accepts(&self, event: &Event) -> (r: bool)
        ensures
            r == self.accepts_spec(event),
    {
        match self.phase {
            Phase::AwaitEnvironment => matches!(event, Event::Environment(_)),
            Phase::AwaitSettings => matches!(event, Event::Settings(_)),
            Phase::AwaitSearch => matches!(event, Event::Search(_)),
            Phase::AwaitCachedFile => matches!(event, Event::FileCheck(_)),
            Phase::AwaitRelease => matches!(event, Event::ReleaseFetched(_)),
            Phase::AwaitDirectory => matches!(event, Event::DirectoryCreated(_)),
            Phase::AwaitInstalledFile => matches!(event, Event::FileCheck(_)),
            Phase::AwaitDownload => matches!(event, Event::Downloaded(_)),
            Phase::AwaitExecutable => matches!(event, Event::MadeExecutable(_)),
            Phase::AwaitListing => matches!(event, Event::Listed(_)),
            Phase::AwaitPrune => matches!(event, Event::Pruned),
            Phase::Finished => false,
        }
    }

    /// End the resolution with `path` and the arguments and environment gathered.
    fn finish(&mut self, path: String) -> (a: Action)
        ensures
            a == finish_ok(*old(self), path),
            final(self).phase is Finished,
    {
        self.phase = Phase::Finished;
        Action::Finish {
            result: Ok(
                OlsBinary { path, args: self.args.take(), environment: self.environment.take() },
            ),
        }
    }

    /// End the resolution with `e`.
    fn fail(&mut self, e: ResolveError) -> (a: Action)
        ensures
            a == finish_err(e),
            final(self).phase is Finished,
    {
        self.phase = Phase::Finished;
        Action::Finish { result: Err(e) }
    }

    /// Take in what came of the last action and say what to do next.
    pub fn step(&mut self, cache: &mut BinaryCache, event: Event) -> (action: Action)
        requires
            old(self).accepts_spec(&event),
        ensures
            old(self).transition(
                old(cache).stored(),
                event,
                *final(self),
                final(cache).stored(),
                action,
            ),
    {
        match event {
            Event::Environment(env) => {
                self.environment = Some(env);
                self.phase = Phase::AwaitSettings;
                Action::ReadSettings { server: tool_name() }
            },
            Event::Settings(settings) => {
                match settings {
                    Some(BinarySettings { path: Some(path), arguments }) => {
                        self.phase = Phase::Finished;
                        Action::Finish {
                            result: Ok(
                                OlsBinary {
                                    path,
                                    args: arguments,
                                    environment: self.environment.take(),
                                },
                            ),
                        }
                    },
                    Some(BinarySettings { path: None, arguments }) => {
                        self.args = arguments;
                        self.phase = Phase::AwaitSearch;
                        Action::SearchPath { name: tool_name() }
                    },
                    None => {
                        self.args = None;
                        self.phase = Phase::AwaitSearch;
                        Action::SearchPath { name: tool_name() }
                    },
                }
            },
            Event::Search(found) => {
                match found {
                    Some(path) => {
                        cache.remember(path.clone());
                        self.finish(path)
                    },
                    None => match cache.candidate() {
                        Some(c) => {
                            self.candidate = c.clone();
                            self.phase = Phase::AwaitCachedFile;
                            Action::CheckFile { path: c }
                        },
                        None => {
                            self.phase = Phase::AwaitRelease;
                            Action::FetchRelease { repository: repository_name() }
                        },
                    },
                }
            },
            Event::FileCheck(live) => {
                if self.phase == Phase::AwaitCachedFile {
                    if live {
                        let path = self.candidate.clone();
                        self.finish(path)
                    } else {
                        self.phase = Phase::AwaitRelease;
                        Action::FetchRelease { repository: repository_name() }
                    }
                } else if live {
                    let path = self.binary_path.clone();
                    cache.remember(path.clone());
                    self.finish(path)
                } else {
                    self.phase = Phase::AwaitDownload;
                    Action::Download {
                        url: self.download_url.clone(),
                        directory: self.version_dir.clone(),
                    }
                }
            },
            Event::ReleaseFetched(fetched) => {
                match fetched {
                    Err(cause) => self.fail(ResolveError::ReleaseUnavailable { cause }),
                    Ok(release) => {
                        let tool = tool_name();
                        match select_asset(&release, tool.as_str(), self.key) {
                            Err(e) => self.fail(e),
                            Ok(asset) => {
                                self.download_url = asset.download_url;
                                self.version_dir = version_dir(tool.as_str(), release.version.as_str());
                                self.binary_path = binary_path(tool.as_str(), release.version.as_str(), self.key);
                                self.phase = Phase::AwaitDirectory;
                                Action::CreateDirectory { path: self.version_dir.clone() }
                            },
                        }
                    },
                }
            },
            Event::DirectoryCreated(created) => {
                match created {
                    Err(cause) => {
                        let path = self.version_dir.clone();
                        self.fail(ResolveError::DirectoryCreateFailed { path, cause })
                    },
                    Ok(()) => {
                        self.phase = Phase::AwaitInstalledFile;
                        Action::CheckFile { path: self.binary_path.clone() }
                    },
                }
            },
            Event::Downloaded(done) => {
                match done {
                    Err(cause) => self.fail(ResolveError::DownloadFailed { cause }),
                    Ok(()) => {
                        self.phase = Phase::AwaitExecutable;
                        Action::MakeExecutable { path: self.binary_path.clone() }
                    },
                }
            },
            Event::MadeExecutable(done) => {
                match done {
                    Err(cause) => self.fail(ResolveError::PermissionMarkFailed { cause }),
                    Ok(()) => {
                        self.phase = Phase::AwaitListing;
                        Action::ListWorkingDirectory
                    },
                }
            },
            Event::Listed(listed) => {
                match listed {
                    Err(cause) => self.fail(ResolveError::DirectoryListFailed { cause }),
                    Ok(entries) => {
                        let names = stale_entries(&entries, &self.version_dir);
                        self.phase = Phase::AwaitPrune;
                        Action::RemoveEntries { names }
                    },
                }
            },
            Event::Pruned => {
                let path = self.binary_path.clone();
                cache.remember(path.clone());
                self.finish(path)
            },
        }
    }
}

/// The server's name.
fn tool_name() -> (r: String)
    ensures
        r@ == tool_spec(),
{
    let mut r = String::new();
    proof { reveal_strlit("ols"); }
    append(&mut r, "ols");
    r
}

/// The repository that publishes the server.
fn repository_name() -> (r: String)
    ensures
        r@ == repository_spec(),
{
    let mut r = String::new();
    proof { reveal_strlit("DanielGavin/ols"); }
    append(&mut r, "DanielGavin/ols");
    r
}

/// A configured binary path ends the resolution at once: that path, the
/// configured arguments, nothing fetched, whatever the cache holds.
pub proof fn lemma_configured_path_wins(
    r: Resolver,
    cache: Option<String>,
    settings: BinarySettings,
    next: Resolver,
    next_cache: Option<String>,
    action: Action,
)
    requires
        r.phase is AwaitSettings,
        settings.path is Some,
        r.transition(cache, Event::Settings(Some(settings)), next, next_cache, action),
    ensures
        action == (Action::Finish {
            result: Ok(
                OlsBinary {
                    path: settings.path->0,
                    args: settings.arguments,
                    environment: r.environment,
                },
            ),
        }),
        !fetches_release(action),
        next.phase is Finished,
        next_cache == cache,
{
}

/// A match on the search path is returned and cached; asked again with that
/// cache and the same match, the resolver gives the same answer, again without
/// the release feed.
pub proof fn lemma_search_path_hit(
    r: Resolver,
    cache: Option<String>,
    path: String,
    next: Resolver,
    next_cache: Option<String>,
    action: Action,
    again: Resolver,
    again_next: Resolver,
    again_cache: Option<String>,
    again_action: Action,
)
    requires
        r.phase is AwaitSearch,
        r.transition(cache, Event::Search(Some(path)), next, next_cache, action),
        again.phase is AwaitSearch,
        again.args == r.args,
        again.environment == r.environment,
        again.transition(
            next_cache,
            Event::Search(Some(path)),
            again_next,
            again_cache,
            again_action,
        ),
    ensures
        action == finish_ok(r, path),
        next_cache == Some(path),
        again_action == action,
        again_cache == next_cache,
        !fetches_release(action),
        !fetches_release(again_action),
{
}

/// With no configured path and no match on the search path, a cached path
/// whose file exists is returned as it is, without the release feed.
pub proof fn lemma_live_cache_hit(
    r: Resolver,
    cached: String,
    checking: Resolver,
    cache1: Option<String>,
    ask: Action,
    done: Resolver,
    cache2: Option<String>,
    action: Action,
)
    requires
        r.phase is AwaitSearch,
        r.transition(Some(cached), Event::Search(None), checking, cache1, ask),
        checking.transition(cache1, Event::FileCheck(true), done, cache2, action),
    ensures
        ask == (Action::CheckFile { path: cached }),
        action == finish_ok(r, cached),
        !fetches_release(ask),
        !fetches_release(action),
        cache2 == Some(cached),
{
}

/// A cached path whose file is gone is not returned: the release feed is
/// consulted next.
pub proof fn lemma_stale_cache_fetches(
    r: Resolver,
    cached: String,
    checking: Resolver,
    cache1: Option<String>,
    ask: Action,
    next: Resolver,
    cache2: Option<String>,
    action: Action,
)
    requires
        r.phase is AwaitSearch,
        r.transition(Some(cached), Event::Search(None), checking, cache1, ask),
        checking.transition(cache1, Event::FileCheck(false), next, cache2, action),
    ensures
        fetches_release(action),
        next.phase is AwaitRelease,
        cache2 == Some(cached),
{
}

/// After an install the binary's path is cached; a later resolution with no
/// configured path and no match on the search path returns it once its file
/// is found, with no fetch and no download.
pub proof fn lemma_installed_binary_reused(
    installing: Resolver,
    cache: Option<String>,
    installed: Resolver,
    cache1: Option<String>,
    done: Action,
    later: Resolver,
    checking: Resolver,
    cache2: Option<String>,
    ask: Action,
    finished: Resolver,
    cache3: Option<String>,
    action: Action,
)
    requires
        installing.phase is AwaitPrune,
        installing.transition(cache, Event::Pruned, installed, cache1, done),
        later.phase is AwaitSearch,
        later.transition(cache1, Event::Search(None), checking, cache2, ask),
        checking.transition(cache2, Event::FileCheck(true), finished, cache3, action),
    ensures
        done == finish_ok(installing, installing.binary_path),
        cache1 == Some(installing.binary_path),
        ask == (Action::CheckFile { path: installing.binary_path }),
        action == finish_ok(later, installing.binary_path),
        !fetches_release(action),
        !(action is Download),
        cache3 == cache1,
{
}

} // verus!