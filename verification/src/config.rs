//! What a context is constructed from, and how construction or a run can fail.

use crate::limits::EdgeUserRuntimeOpts;
use std::collections::HashMap;
use vstd::prelude::*;
use vstd::string::StringExecFns;

verus! {

/// The failures that cross the library's boundary.
#[derive(Clone, Copy, Debug, PartialEq, Eq, Structural)]
pub enum ContextError {
    /// The host could not say what its working directory is.
    WorkingDirUnavailable,
    /// The service root does not name a directory that a URL can be made of.
    ServiceRootNotCanonical,
    /// The entry file's name could not be joined to the service root.
    InvalidMainModuleUrl,
    /// An import map was asked for and its file could not be read.
    ImportMapUnreadable,
    /// The import map's path names no directory that a URL can be made of.
    ImportMapLocationInvalid,
    /// The import map's text is not an import map.
    ImportMapMalformed,
    /// The bootstrap script failed.
    BootstrapFailed,
    /// The transport could not be queued for the worker.
    TransportClosed,
}

impl ContextError {
    /// Configuration errors end construction.
    pub open spec fn is_configuration(&self) -> bool {
        !self.is_setup()
    }

    /// Setup errors end a run before the module is driven.
    pub open spec fn is_setup(&self) -> bool {
        *self == ContextError::BootstrapFailed || *self == ContextError::TransportClosed
    }

    /// What the error says, in words.
    pub open spec fn message_text(&self) -> Seq<char> {
        match *self {
            ContextError::WorkingDirUnavailable => "the working directory is not available"@,
            ContextError::ServiceRootNotCanonical => "the service path is not an absolute directory"@,
            ContextError::InvalidMainModuleUrl => "the main module has no valid URL"@,
            ContextError::ImportMapUnreadable => "the import map could not be read"@,
            ContextError::ImportMapLocationInvalid => "the import map has no base URL"@,
            ContextError::ImportMapMalformed => "the import map could not be parsed"@,
            ContextError::BootstrapFailed => "failed to execute bootstrap script"@,
            ContextError::TransportClosed => "the transport channel is closed"@,
        }
    }

    /// Says what the error is, for logs and for the caller.
    pub fn message(&self) -> (text: &'static str)
        ensures
            text@ == self.message_text(),
    {
        match self {
            ContextError::WorkingDirUnavailable => "the working directory is not available",
            ContextError::ServiceRootNotCanonical => "the service path is not an absolute directory",
            ContextError::InvalidMainModuleUrl => "the main module has no valid URL",
            ContextError::ImportMapUnreadable => "the import map could not be read",
            ContextError::ImportMapLocationInvalid => "the import map has no base URL",
            ContextError::ImportMapMalformed => "the import map could not be parsed",
            ContextError::BootstrapFailed => "failed to execute bootstrap script",
            ContextError::TransportClosed => "the transport channel is closed",
        }
    }

    /// Tests `is_setup`.
    pub fn aborts_run(&self) -> (setup: bool)
        ensures
            setup == self.is_setup(),
    {
        match self {
            ContextError::BootstrapFailed => true,
            ContextError::TransportClosed => true,
            _ => false,
        }
    }
}

/// What only the main worker is configured with.
pub struct EdgeMainRuntimeOpts<S> {
    /// Sender of the channel on which the main worker asks the pool for work.
    pub worker_pool_tx: S,
}

/// The tier of a context, with what belongs to that tier alone.
pub enum EdgeContextOpts<S> {
    /// An unprivileged worker under resource caps.
    UserWorker(EdgeUserRuntimeOpts),
    /// The privileged worker, which holds the pool's dispatch channel.
    MainWorker(EdgeMainRuntimeOpts<S>),
}

impl<S> EdgeContextOpts<S> {
    /// The resource caps: those of a user worker, none for the main worker.
    pub open spec fn caps(&self) -> Option<EdgeUserRuntimeOpts> {
        match *self {
            EdgeContextOpts::UserWorker(caps) => Some(caps),
            EdgeContextOpts::MainWorker(_) => None,
        }
    }

    /// The pool's dispatch sender: that of the main worker, none for a user
    /// worker.
    pub open spec fn pool_dispatch(&self) -> Option<S> {
        match *self {
            EdgeContextOpts::UserWorker(_) => None,
            EdgeContextOpts::MainWorker(main) => Some(main.worker_pool_tx),
        }
    }

    /// A configuration can be used when the caps it carries can be written
    /// as byte counts.
    pub open spec fn usable(&self) -> bool {
        self.caps() matches Some(caps) ==> caps.representable()
    }

    /// Tests `usable`.
    pub fn is_usable(&self) -> (ok: bool)
        ensures
            ok == self.usable(),
    {
        match self {
            EdgeContextOpts::UserWorker(caps) => caps.is_representable(),
            EdgeContextOpts::MainWorker(_) => true,
        }
    }

    /// Whether this is a user worker's configuration.
    pub fn is_user_worker(&self) -> (user: bool)
        ensures
            user == (*self is UserWorker),
            user == self.caps().is_some(),
            user == self.pool_dispatch().is_none(),
    {
        match self {
            EdgeContextOpts::UserWorker(_) => true,
            EdgeContextOpts::MainWorker(_) => false,
        }
    }
}

/// What the orchestrator asks for when it wants a context.
pub struct EdgeContextInitOpts<S> {
    /// Directory of the service, absolute or relative to the working
    /// directory.
    pub service_path: String,
    /// Whether the module loader goes without its cache.
    pub no_module_cache: bool,
    /// Path of an import map, if one is to be used.
    pub import_map_path: Option<String>,
    /// The environment that the script sees.
    pub env_vars: HashMap<String, String>,
    /// The tier.
    pub conf: EdgeContextOpts<S>,
}

/// What the host has read from its surroundings before construction. Each
/// fact is there, or in its place the text of the error that kept the host
/// from it.
pub struct HostFacts {
    /// The working directory.
    pub working_dir: Result<String, String>,
    /// The service root made canonical: the absolute path of the directory
    /// that `service_path` names, as it exists on disk.
    pub service_root: Result<String, String>,
    /// The text of the file at `import_map_path`. Where no path was given
    /// there is nothing to read, and this fact is not looked at.
    pub import_map_text: Result<String, String>,
}

/// A failure in words: which error it is and what is known of its cause.
pub struct Failure {
    /// Which error.
    pub kind: ContextError,
    /// What is known of the cause.
    pub detail: Seq<char>,
}

/// Why construction failed.
#[derive(Clone, Debug, PartialEq, Eq)]
pub struct ConstructionError {
    /// Which error.
    pub kind: ContextError,
    /// What is known of the cause: the text that the host or an outside
    /// library gave, or the error's own message where there is none.
    pub detail: String,
}

impl View for ConstructionError {
    type V = Failure;

    open spec fn view(&self) -> Failure {
        Failure { kind: self.kind, detail: self.detail@ }
    }
}

/// The failure of a kind of which no more is known than its message.
pub open spec fn plain_failure(kind: ContextError) -> Failure {
    Failure { kind, detail: kind.message_text() }
}

impl ConstructionError {
    /// The error of a kind of which no more is known than its message.
    pub fn plain(kind: ContextError) -> (error: Self)
        ensures
            error@ == plain_failure(kind),
    {
        ConstructionError { kind, detail: String::from_str(kind.message()) }
    }

    /// The error of a kind with the text that tells its cause.
    pub fn because(kind: ContextError, why: &String) -> (error: Self)
        ensures
            error@ == (Failure { kind, detail: why@ }),
    {
        ConstructionError { kind, detail: why.clone() }
    }
}

/// The text of a string that may be missing.
pub open spec fn text_of(value: Option<String>) -> Option<Seq<char>> {
    match value {
        Some(text) => Some(text@),
        None => None,
    }
}

/// The text of a fact, or of the error in its place.
pub open spec fn texts_of(value: Result<String, String>) -> Result<Seq<char>, Seq<char>> {
    match value {
        Ok(text) => Ok(text@),
        Err(why) => Err(why@),
    }
}

/// What a step of construction gave, in words.
pub open spec fn step_text(step: Result<String, ConstructionError>) -> Result<Seq<char>, Failure> {
    match step {
        Ok(text) => Ok(text@),
        Err(error) => Err(error@),
    }
}

} // verus!
