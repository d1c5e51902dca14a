//! The execution context: how it is constructed and how it starts a run.

use crate::capabilities::{assemble_capabilities, capability_set, policy_mode, policy_of, Capability};
use crate::config::{
    text_of,
    texts_of,
    ConstructionError,
    ContextError,
    EdgeContextInitOpts,
    EdgeContextOpts,
    Failure,
    HostFacts,
};
use crate::import_maps::{
    diagnostics_report,
    import_map_outcome,
    load_import_map,
    render_import_map_diagnostics,
    texts,
    LoadedImportMap,
};
use crate::limits::{EdgeUserRuntimeOpts, HeapLimits};
use crate::locations::{main_module_text, resolve_main_module};
use crate::run::{
    lemma_main_worker_runs_uncapped,
    lemma_pool_sender_is_for_main_worker_only,
    ContextLocal,
    RunAction,
    RunEvent,
    RunPhase,
    RunSession,
    RunSessionState,
};
use std::collections::HashMap;
use vstd::prelude::*;
use vstd::string::StringExecFns;

verus! {

/// The user agent that the engine's network bundles announce.
pub fn user_agent() -> (name: &'static str)
    ensures
        name@ == "supabase-edge-runtime"@,
{
    "supabase-edge-runtime"
}

/// The heap ceiling that goes with a tier's caps: that of the caps for a
/// user worker, none for the main worker.
pub open spec fn heap_ceiling(caps: Option<EdgeUserRuntimeOpts>) -> Option<HeapLimits> {
    match caps {
        Some(caps) => Some(caps.heap_limits_spec()),
        None => None,
    }
}

/// What construction gives: the URL of the entry module and whether there
/// is an import map, or the failure of the first step that fails. The steps
/// are the working directory, the entry module and the import map, in this
/// order.
pub open spec fn construction_outcome(
    import_map_path: Option<Seq<char>>,
    host: HostFacts,
) -> Result<(Seq<char>, bool), Failure> {
    match texts_of(host.working_dir) {
        Err(why) => Err(Failure { kind: ContextError::WorkingDirUnavailable, detail: why }),
        Ok(working_dir) => match main_module_text(texts_of(host.service_root)) {
            Err(failure) => Err(failure),
            Ok(main_module) => match import_map_outcome(
                import_map_path,
                working_dir,
                texts_of(host.import_map_text),
            ) {
                Err(failure) => Err(failure),
                Ok(has_map) => Ok((main_module, has_map)),
            },
        },
    }
}

/// What the host builds the engine from.
pub struct EngineOptions {
    /// The capability set, in the order in which the bundles are installed.
    pub capabilities: Vec<Capability>,
    /// The user agent of the network bundles.
    pub user_agent: String,
    /// The heap sizes of a user worker; `None` leaves the heap unbounded.
    pub heap_limits: Option<HeapLimits>,
    /// The import map that the module loader resolves with, if any.
    pub import_map: Option<import_map::ImportMap>,
    /// Whether the module loader goes without its cache.
    pub no_module_cache: bool,
}

/// What a constructed context consists of.
pub struct ContextParts<S> {
    /// What the engine is built from.
    pub engine: EngineOptions,
    /// Location of the entry module: the text of its URL.
    pub main_module_url: String,
    /// Whether this is a user worker.
    pub is_user_runtime: bool,
    /// The environment that the script sees.
    pub env_vars: HashMap<String, String>,
    /// The tier, as it was configured.
    pub conf: EdgeContextOpts<S>,
    /// The resource caps; `None` for the main worker.
    pub curr_user_opts: Option<EdgeUserRuntimeOpts>,
    /// The warning about the import map's diagnostics, for the host to log.
    pub import_map_report: Option<String>,
}

impl<S> ContextParts<S> {
    /// The parts agree with the tier: the caps are those of the
    /// configuration, the heap ceiling is that of the caps, and the
    /// capability set is the fixed one under the tier's policy.
    pub open spec fn well_formed(&self) -> bool {
        &&& self.conf.usable()
        &&& self.is_user_runtime == (self.conf is UserWorker)
        &&& self.curr_user_opts == self.conf.caps()
        &&& self.engine.capabilities@ == capability_set(policy_of(self.is_user_runtime))
        &&& self.engine.user_agent@ == "supabase-edge-runtime"@
        &&& self.engine.heap_limits == heap_ceiling(self.conf.caps())
    }
}

/// One execution context, constructed and not yet running. A context is
/// made for one run and consumed by it.
pub struct EdgeRuntime<S> {
    parts: ContextParts<S>,
}

impl<S> View for EdgeRuntime<S> {
    type V = ContextParts<S>;

    closed spec fn view(&self) -> ContextParts<S> {
        self.parts
    }
}

/// The session that a run of a context starts in: nothing has been done
/// yet, and everything that the run will hand out is still held.
pub open spec fn initial_session<S, T, C>(
    parts: ContextParts<S>,
    stream: T,
    shutdown_tx: C,
) -> RunSessionState<S, T, C> {
    RunSessionState {
        phase: RunPhase::Bootstrapping,
        caps: parts.curr_user_opts,
        transport: Some(stream),
        local: Some(
            ContextLocal { env_vars: parts.env_vars, pool_dispatch: parts.conf.pool_dispatch() },
        ),
        main_module: Some(parts.main_module_url),
        completion: Some(shutdown_tx),
    }
}

impl<S> EdgeRuntime<S> {
    #[verifier::type_invariant]
    spec fn parts_agree(&self) -> bool {
        self.parts.well_formed()
    }

    /// Puts a context together from its options, the location of its entry
    /// module and its import map, if it has one.
    pub fn assemble(
        opts: EdgeContextInitOpts<S>,
        main_module_url: String,
        import_map: Option<LoadedImportMap>,
    ) -> (rt: Self)
        requires
            opts.conf.usable(),
        ensures
            rt@.well_formed(),
            rt@.is_user_runtime == (opts.conf is UserWorker),
            rt@.curr_user_opts == opts.conf.caps(),
            rt@.engine.heap_limits == heap_ceiling(opts.conf.caps()),
            rt@.engine.capabilities@ == capability_set(policy_of(opts.conf is UserWorker)),
            rt@.engine.user_agent@ == "supabase-edge-runtime"@,
            rt@.conf == opts.conf,
            rt@.env_vars == opts.env_vars,
            rt@.main_module_url == main_module_url,
            rt@.engine.no_module_cache == opts.no_module_cache,
            match import_map {
                Some(loaded) => {
                    &&& rt@.engine.import_map == Some(loaded.import_map)
                    &&& match rt@.import_map_report {
                        Some(report) => diagnostics_report(texts(loaded.diagnostics@)) == Some(
                            report@,
                        ),
                        None => loaded.diagnostics@.len() == 0,
                    }
                },
                None => rt@.engine.import_map is None && rt@.import_map_report is None,
            },
    {
        let EdgeContextInitOpts { service_path: _, no_module_cache, import_map_path: _, env_vars, conf } =
            opts;
        let is_user_runtime = conf.is_user_worker();
        let curr_user_opts = match &conf {
            EdgeContextOpts::UserWorker(caps) => Some(*caps),
            EdgeContextOpts::MainWorker(_) => None,
        };
        let heap_limits = match &curr_user_opts {
            Some(caps) => Some(caps.heap_limits()),
            None => None,
        };
        let (import_map, import_map_report) = match import_map {
            Some(loaded) => {
                let report = render_import_map_diagnostics(&loaded.diagnostics);
                (Some(loaded.import_map), report)
            },
            None => (None, None),
        };
        let engine = EngineOptions {
            capabilities: assemble_capabilities(policy_mode(is_user_runtime)),
            user_agent: String::from_str(user_agent()),
            heap_limits,
            import_map,
            no_module_cache,
        };
        EdgeRuntime {
            parts: ContextParts {
                engine,
                main_module_url,
                is_user_runtime,
                env_vars,
                conf,
                curr_user_opts,
                import_map_report,
            },
        }
    }

    /// Constructs the context that `opts` asks for, from what the host has
    /// read.
    ///
    /// The working directory is needed first, then the entry module is
    /// resolved, then the import map is loaded; the first step that fails
    /// decides the error, which is always a configuration error and carries
    /// what is known of its cause. Where no step fails, construction
    /// succeeds. A main worker gets no heap ceiling. Diagnostics of the
    /// import map do not fail construction: they end up in the context's
    /// report.
    pub fn new(opts: EdgeContextInitOpts<S>, host: HostFacts) -> (made: Result<
        Self,
        ConstructionError,
    >)
        requires
            opts.conf.usable(),
        ensures
            match made {
                Ok(rt) => {
                    &&& construction_outcome(text_of(opts.import_map_path), host) == Ok::<
                        (Seq<char>, bool),
                        Failure,
                    >((rt@.main_module_url@, rt@.engine.import_map is Some))
                    &&& rt@.well_formed()
                    &&& rt@.is_user_runtime == (opts.conf is UserWorker)
                    &&& rt@.curr_user_opts == opts.conf.caps()
                    &&& rt@.engine.heap_limits == heap_ceiling(opts.conf.caps())
                    &&& opts.conf is MainWorker ==> rt@.engine.heap_limits is None
                    &&& rt@.engine.capabilities@ == capability_set(
                        policy_of(opts.conf is UserWorker),
                    )
                    &&& rt@.conf == opts.conf
                    &&& rt@.env_vars == opts.env_vars
                    &&& rt@.engine.no_module_cache == opts.no_module_cache
                    &&& rt@.import_map_report is Some ==> rt@.engine.import_map is Some
                },
                Err(error) => {
                    &&& construction_outcome(text_of(opts.import_map_path), host) == Err::<
                        (Seq<char>, bool),
                        Failure,
                    >(error@)
                    &&& error@.kind.is_configuration()
                },
            },
            host.working_dir is Err ==> (made matches Err(error) && error@.kind
                == ContextError::WorkingDirUnavailable),
            host.working_dir is Ok && host.service_root is Err ==> (made matches Err(error)
                && error@.kind == ContextError::ServiceRootNotCanonical),
    {
        let working_dir = match &host.working_dir {
            Err(why) => {
                return Err(ConstructionError::because(ContextError::WorkingDirUnavailable, why));
            },
            Ok(dir) => dir,
        };
        let main_module_url = match resolve_main_module(&host.service_root) {
            Err(e) => { return Err(e); },
            Ok(url) => url,
        };
        let import_map = match load_import_map(
            &opts.import_map_path,
            working_dir.as_str(),
            &host.import_map_text,
        ) {
            Err(e) => { return Err(e); },
            Ok(found) => found,
        };
        Ok(Self::assemble(opts, main_module_url, import_map))
    }

    /// What the engine is built from.
    pub fn engine(&self) -> (engine: &EngineOptions)
        ensures
            *engine == self@.engine,
            engine.capabilities@ == capability_set(policy_of(self@.is_user_runtime)),
            engine.heap_limits == heap_ceiling(self@.curr_user_opts),
            self@.well_formed(),
    {
        proof {
            use_type_invariant(self);
        }
        &self.parts.engine
    }

    /// Location of the entry module: the text of its URL.
    pub fn main_module_url(&self) -> (url: &String)
        ensures
            *url == self@.main_module_url,
    {
        &self.parts.main_module_url
    }

    /// Whether this is a user worker.
    pub fn is_user_runtime(&self) -> (user: bool)
        ensures
            user == self@.is_user_runtime,
            user == (self@.conf is UserWorker),
    {
        proof {
            use_type_invariant(self);
        }
        self.parts.is_user_runtime
    }

    /// The environment that the script sees.
    pub fn env_vars(&self) -> (env: &HashMap<String, String>)
        ensures
            *env == self@.env_vars,
    {
        &self.parts.env_vars
    }

    /// The tier, as it was configured.
    pub fn conf(&self) -> (conf: &EdgeContextOpts<S>)
        ensures
            *conf == self@.conf,
    {
        &self.parts.conf
    }

    /// The resource caps, or `None` for the main worker.
    pub fn curr_user_opts(&self) -> (caps: Option<EdgeUserRuntimeOpts>)
        ensures
            caps == self@.curr_user_opts,
            caps == self@.conf.caps(),
    {
        proof {
            use_type_invariant(self);
        }
        self.parts.curr_user_opts
    }

    /// The warning about the import map's diagnostics, if there is one.
    pub fn import_map_report(&self) -> (report: &Option<String>)
        ensures
            *report == self@.import_map_report,
    {
        &self.parts.import_map_report
    }

    /// Starts the run of this context.
    ///
    /// The context takes the transport and the completion sender over and
    /// hands each out again at the step that uses it. The run starts with
    /// one thing to do: execute the bootstrap script. What the host reports
    /// back goes to the session's `step`.
    pub fn run<T, C>(self, stream: T, shutdown_tx: C) -> (started: (
        RunSession<S, T, C>,
        Vec<RunAction<S, T, C>>,
    ))
        ensures
            started.0@ == initial_session(self@, stream, shutdown_tx),
            started.0@.well_formed(),
            started.1@ == seq![
                RunAction::<S, T, C>::ExecuteBootstrap { is_user_tier: self@.is_user_runtime },
            ],
    {
        proof {
            use_type_invariant(&self);
        }
        let EdgeRuntime { parts } = self;
        let ContextParts {
            engine: _,
            main_module_url,
            is_user_runtime,
            env_vars,
            conf,
            curr_user_opts,
            import_map_report: _,
        } = parts;
        let pool_dispatch = match conf {
            EdgeContextOpts::UserWorker(_) => None,
            EdgeContextOpts::MainWorker(main) => Some(main.worker_pool_tx),
        };
        let state = RunSessionState {
            phase: RunPhase::Bootstrapping,
            caps: curr_user_opts,
            transport: Some(stream),
            local: Some(ContextLocal { env_vars, pool_dispatch }),
            main_module: Some(main_module_url),
            completion: Some(shutdown_tx),
        };
        let mut actions: Vec<RunAction<S, T, C>> = Vec::new();
        actions.push(RunAction::ExecuteBootstrap { is_user_tier: is_user_runtime });
        (RunSession::begin(state), actions)
    }
}

/// The session that the run of a well-formed context starts in is well
/// formed, and not over.
pub proof fn lemma_initial_session_is_well_formed<S, T, C>(
    parts: ContextParts<S>,
    stream: T,
    shutdown_tx: C,
)
    requires
        parts.well_formed(),
    ensures
        initial_session(parts, stream, shutdown_tx).well_formed(),
        !initial_session(parts, stream, shutdown_tx).finished(),
        initial_session(parts, stream, shutdown_tx).caps is Some <==> parts.is_user_runtime,
{
}

/// A main worker is never capped: its context has no heap ceiling, and
/// whatever is reported during its run, the run registers no heap-pressure
/// bridge, starts no resource controller and races no halt signal.
pub proof fn lemma_main_context_is_never_capped<S, T, C>(
    parts: ContextParts<S>,
    stream: T,
    shutdown_tx: C,
    events: Seq<RunEvent>,
)
    requires
        parts.well_formed(),
        parts.conf is MainWorker,
    ensures
        parts.engine.heap_limits is None,
        parts.curr_user_opts is None,
        forall|i: int|
            0 <= i < initial_session(parts, stream, shutdown_tx).actions_over(events).len() ==> {
                let action = #[trigger] initial_session(parts, stream, shutdown_tx).actions_over(
                    events,
                )[i];
                &&& !(action is RegisterHeapBridge)
                &&& !(action is StartController)
                &&& action matches RunAction::DriveModule { race_halt, .. } ==> !race_halt
            },
{
    lemma_main_worker_runs_uncapped(initial_session(parts, stream, shutdown_tx), events);
}

/// A user worker never gets the pool's dispatch sender: whatever is
/// reported during its run, the context-local state that the run installs
/// holds no sender.
pub proof fn lemma_user_context_never_gets_pool_sender<S, T, C>(
    parts: ContextParts<S>,
    stream: T,
    shutdown_tx: C,
    events: Seq<RunEvent>,
)
    requires
        parts.well_formed(),
        parts.conf is UserWorker,
    ensures
        forall|i: int|
            0 <= i < initial_session(parts, stream, shutdown_tx).actions_over(events).len() ==> (
            #[trigger] initial_session(parts, stream, shutdown_tx).actions_over(
                events,
            )[i] matches RunAction::InstallState(local) ==> local.pool_dispatch is None),
{
    lemma_initial_session_is_well_formed(parts, stream, shutdown_tx);
    lemma_pool_sender_is_for_main_worker_only(
        initial_session(parts, stream, shutdown_tx),
        events,
    );
}

} // verus!
