use edge_runtime::bootstrap::{bootstrap_call, bootstrap_script};
use edge_runtime::capabilities::{assemble_capabilities, policy_mode, Capability, PolicyMode};
use edge_runtime::config::{
    ConstructionError, ContextError, EdgeContextInitOpts, EdgeContextOpts, EdgeMainRuntimeOpts,
    HostFacts,
};
use edge_runtime::edge_runtime::{user_agent, EdgeRuntime};
use edge_runtime::import_maps::{
    import_map_from, load_import_map, render_import_map_diagnostics, LoadedImportMap,
};
use edge_runtime::limits::{EdgeUserRuntimeOpts, HeapLimits};
use edge_runtime::locations::{
    import_map_base_from, import_map_directory_from, main_module_file, main_module_from, resolve_import_map_base,
    resolve_main_module, service_root_from,
};
use std::collections::HashMap;

fn env() -> HashMap<String, String> {
    let mut env = HashMap::new();
    env.insert("REGION".to_string(), "eu-west-1".to_string());
    env.insert("EMPTY".to_string(), String::new());
    env
}

fn user_opts(memory_limit_mb: u64, worker_timeout_ms: u64) -> EdgeContextInitOpts<u32> {
    EdgeContextInitOpts {
        service_path: "functions/hello".to_string(),
        no_module_cache: false,
        import_map_path: None,
        env_vars: env(),
        conf: EdgeContextOpts::UserWorker(EdgeUserRuntimeOpts { memory_limit_mb, worker_timeout_ms }),
    }
}

fn main_opts(sender: u32) -> EdgeContextInitOpts<u32> {
    EdgeContextInitOpts {
        service_path: "main".to_string(),
        no_module_cache: true,
        import_map_path: None,
        env_vars: env(),
        conf: EdgeContextOpts::MainWorker(EdgeMainRuntimeOpts { worker_pool_tx: sender }),
    }
}

fn facts(working_dir: &str, service_root: &str, import_map_text: Option<&str>) -> HostFacts {
    HostFacts {
        working_dir: Ok(working_dir.to_string()),
        service_root: Ok(service_root.to_string()),
        import_map_text: match import_map_text {
            Some(text) => Ok(text.to_string()),
            None => Err("No such file or directory (os error 2)".to_string()),
        },
    }
}

fn host() -> HostFacts {
    facts("/srv/edge", "/srv/edge/functions/hello", None)
}

fn main_host() -> HostFacts {
    facts("/srv/edge", "/srv/edge/main", None)
}

fn because(kind: ContextError, why: &str) -> ConstructionError {
    ConstructionError { kind, detail: why.to_string() }
}

fn plain(kind: ContextError) -> ConstructionError {
    ConstructionError { kind, detail: kind.message().to_string() }
}

fn expected_bundles(mode: PolicyMode) -> Vec<Capability> {
    vec![
        Capability::Permissions(mode),
        Capability::WebIdl,
        Capability::Console,
        Capability::Url,
        Capability::Web,
        Capability::Fetch,
        Capability::WebSocket,
        Capability::Crypto,
        Capability::Net,
        Capability::Tls,
        Capability::Http,
        Capability::Env,
        Capability::UserWorkers,
        Capability::MainJs,
        Capability::CoreNet,
        Capability::CoreHttp,
        Capability::Runtime,
    ]
}

#[test]
fn capability_set_is_fixed_and_ordered() {
    assert_eq!(assemble_capabilities(PolicyMode::Restrictive), expected_bundles(PolicyMode::Restrictive));
    assert_eq!(assemble_capabilities(PolicyMode::Permissive), expected_bundles(PolicyMode::Permissive));
}

#[test]
fn tiers_differ_in_the_policy_bundle_only() {
    assert_eq!(policy_mode(true), PolicyMode::Restrictive);
    assert_eq!(policy_mode(false), PolicyMode::Permissive);
    let user = assemble_capabilities(policy_mode(true));
    let main = assemble_capabilities(policy_mode(false));
    assert_eq!(user.len(), 17);
    assert_eq!(main.len(), 17);
    assert_ne!(user[0], main[0]);
    assert_eq!(user[1..], main[1..]);
}

#[test]
fn entry_module_is_index_ts_under_the_service_root() {
    assert_eq!(main_module_file(), "index.ts");
    let url = resolve_main_module(&Ok("/srv/edge/functions/hello".to_string())).unwrap();
    assert_eq!(url, "file:///srv/edge/functions/hello/index.ts");
    let spaced = resolve_main_module(&Ok("/srv/my edge/fn/".to_string())).unwrap();
    assert_eq!(spaced, "file:///srv/my%20edge/fn/index.ts");
}

#[test]
fn root_that_the_host_could_not_make_canonical_is_a_configuration_error() {
    let why = "No such file or directory (os error 2)";
    assert_eq!(
        resolve_main_module(&Err(why.to_string())),
        Err(because(ContextError::ServiceRootNotCanonical, why))
    );
}

#[test]
fn relative_root_cannot_be_made_canonical() {
    assert_eq!(
        resolve_main_module(&Ok("relative/dir".to_string())),
        Err(plain(ContextError::ServiceRootNotCanonical))
    );
    assert_eq!(
        resolve_main_module(&Ok(String::new())),
        Err(plain(ContextError::ServiceRootNotCanonical))
    );
}

#[test]
fn import_map_base_is_the_directory_of_the_file() {
    let base = resolve_import_map_base("/srv/edge", "maps/import_map.json").unwrap();
    assert_eq!(base, "file:///srv/edge/maps/");
    let absolute = resolve_import_map_base("/srv/edge", "/etc/maps/import_map.json").unwrap();
    assert_eq!(absolute, "file:///etc/maps/");
}

#[test]
fn import_map_without_a_directory_is_rejected() {
    assert_eq!(resolve_import_map_base("", ""), Err(plain(ContextError::ImportMapLocationInvalid)));
    assert_eq!(
        resolve_import_map_base("rel", "map.json"),
        Err(plain(ContextError::ImportMapLocationInvalid))
    );
}

#[test]
fn no_import_map_path_is_no_error() {
    let loaded = load_import_map(&None, "/srv/edge", &Ok("not even json".to_string()));
    assert!(matches!(loaded, Ok(None)));
}

#[test]
fn unreadable_import_map_is_an_error() {
    let why = "Permission denied (os error 13)";
    let loaded =
        load_import_map(&Some("import_map.json".to_string()), "/srv/edge", &Err(why.to_string()));
    assert_eq!(loaded.err(), Some(because(ContextError::ImportMapUnreadable, why)));
}

#[test]
fn malformed_import_map_is_an_error() {
    let path = Some("import_map.json".to_string());
    let not_json = load_import_map(&path, "/srv/edge", &Ok("{".to_string())).err().unwrap();
    assert_eq!(not_json.kind, ContextError::ImportMapMalformed);
    assert!(not_json.detail.starts_with("Unable to parse import map JSON"));
    let not_object = load_import_map(&path, "/srv/edge", &Ok("[1, 2]".to_string()));
    assert_eq!(
        not_object.err(),
        Some(because(ContextError::ImportMapMalformed, "Import map JSON must be an object"))
    );
    let imports_not_object =
        load_import_map(&path, "/srv/edge", &Ok("{\"imports\": 3}".to_string()));
    assert_eq!(
        imports_not_object.err(),
        Some(because(
            ContextError::ImportMapMalformed,
            "Import map's 'imports' must be an object"
        ))
    );
}

#[test]
fn import_map_in_an_unusable_location_is_an_error() {
    let loaded = load_import_map(&Some("map.json".to_string()), "rel", &Ok("{}".to_string()));
    assert_eq!(loaded.err(), Some(plain(ContextError::ImportMapLocationInvalid)));
}

#[test]
fn clean_import_map_has_no_diagnostics() {
    let json = "{\"imports\": {\"std/\": \"https://deno.land/std/\"}}".to_string();
    let loaded = load_import_map(&Some("import_map.json".to_string()), "/srv/edge", &Ok(json))
        .unwrap()
        .unwrap();
    assert!(loaded.diagnostics.is_empty());
    assert_eq!(loaded.import_map.base_url().as_str(), "file:///srv/edge/");
    let referrer = url::Url::parse("file:///srv/edge/functions/hello/index.ts").unwrap();
    let resolved = loaded.import_map.resolve("std/path/mod.ts", &referrer).unwrap();
    assert_eq!(resolved.as_str(), "https://deno.land/std/path/mod.ts");
}

#[test]
fn report_of_no_diagnostics_is_absent() {
    assert_eq!(render_import_map_diagnostics(&vec![]), None);
}

#[test]
fn report_of_one_diagnostic() {
    let report = render_import_map_diagnostics(&vec!["Invalid empty string specifier.".to_string()]);
    assert_eq!(
        report,
        Some("Import map diagnostics:\n  - Invalid empty string specifier.".to_string())
    );
}

#[test]
fn report_lists_diagnostics_one_per_line() {
    let report = render_import_map_diagnostics(&vec![
        "first".to_string(),
        String::new(),
        "third".to_string(),
    ]);
    assert_eq!(report, Some("Import map diagnostics:\n  - first\n  - \n  - third".to_string()));
}

#[test]
fn bootstrap_script_names_target_and_tier() {
    assert_eq!(
        bootstrap_script("x86_64-unknown-linux-gnu", true),
        "globalThis.bootstrapSBEdge({\"target\":\"x86_64-unknown-linux-gnu\"}, true)"
    );
    assert_eq!(
        bootstrap_script("aarch64-apple-darwin", false),
        "globalThis.bootstrapSBEdge({\"target\":\"aarch64-apple-darwin\"}, false)"
    );
}

#[test]
fn bootstrap_script_escapes_the_target() {
    assert_eq!(
        bootstrap_script("a\"b\\c\n", true),
        "globalThis.bootstrapSBEdge({\"target\":\"a\\\"b\\\\c\\n\"}, true)"
    );
    assert_eq!(bootstrap_script("", false), "globalThis.bootstrapSBEdge({\"target\":\"\"}, false)");
}

#[test]
fn bootstrap_call_puts_the_literal_in_as_it_is() {
    assert_eq!(bootstrap_call("\"t\"", true), "globalThis.bootstrapSBEdge({\"target\":\"t\"}, true)");
    assert_eq!(bootstrap_call("", false), "globalThis.bootstrapSBEdge({\"target\":}, false)");
}

#[test]
fn user_worker_gets_a_heap_ceiling() {
    let rt = EdgeRuntime::new(user_opts(150, 60_000), host()).unwrap();
    assert!(rt.is_user_runtime());
    assert_eq!(
        rt.curr_user_opts(),
        Some(EdgeUserRuntimeOpts { memory_limit_mb: 150, worker_timeout_ms: 60_000 })
    );
    assert_eq!(
        rt.engine().heap_limits,
        Some(HeapLimits { initial_bytes: 1_048_576, max_bytes: 157_286_400 })
    );
    assert_eq!(rt.engine().capabilities, expected_bundles(PolicyMode::Restrictive));
    assert_eq!(rt.engine().user_agent, "supabase-edge-runtime");
    assert_eq!(user_agent(), "supabase-edge-runtime");
    assert!(!rt.engine().no_module_cache);
    assert!(rt.engine().import_map.is_none());
    assert_eq!(*rt.import_map_report(), None);
    assert_eq!(rt.main_module_url(), "file:///srv/edge/functions/hello/index.ts");
    assert_eq!(*rt.env_vars(), env());
    assert!(matches!(rt.conf(), EdgeContextOpts::UserWorker(_)));
}

#[test]
fn main_worker_gets_no_heap_ceiling() {
    let rt = EdgeRuntime::new(main_opts(7), main_host()).unwrap();
    assert!(!rt.is_user_runtime());
    assert_eq!(rt.curr_user_opts(), None);
    assert_eq!(rt.engine().heap_limits, None);
    assert_eq!(rt.engine().capabilities, expected_bundles(PolicyMode::Permissive));
    assert!(rt.engine().no_module_cache);
    assert_eq!(rt.main_module_url(), "file:///srv/edge/main/index.ts");
    assert!(matches!(
        rt.conf(),
        EdgeContextOpts::MainWorker(EdgeMainRuntimeOpts { worker_pool_tx: 7 })
    ));
}

#[test]
fn tier_configuration_tells_its_tier() {
    assert!(user_opts(1, 1).conf.is_user_worker());
    assert!(user_opts(1, 1).conf.is_usable());
    assert!(!user_opts(u64::MAX, 1).conf.is_usable());
    assert!(!main_opts(1).conf.is_user_worker());
    assert!(main_opts(1).conf.is_usable());
}

#[test]
fn construction_fails_without_a_working_directory() {
    let mut host = host();
    host.working_dir = Err("current directory was removed".to_string());
    assert_eq!(
        EdgeRuntime::new(user_opts(150, 0), host).err(),
        Some(because(ContextError::WorkingDirUnavailable, "current directory was removed"))
    );
}

#[test]
fn construction_fails_on_a_root_that_does_not_exist() {
    let mut host = host();
    host.service_root = Err("No such file or directory (os error 2)".to_string());
    assert_eq!(
        EdgeRuntime::new(user_opts(150, 0), host).err(),
        Some(because(
            ContextError::ServiceRootNotCanonical,
            "No such file or directory (os error 2)"
        ))
    );
}

#[test]
fn construction_fails_on_a_root_that_is_not_absolute() {
    let host = facts("/srv/edge", "functions/hello", None);
    assert_eq!(
        EdgeRuntime::new(user_opts(150, 0), host).err(),
        Some(plain(ContextError::ServiceRootNotCanonical))
    );
}

#[test]
fn construction_fails_on_an_unreadable_import_map() {
    let mut opts = user_opts(150, 0);
    opts.import_map_path = Some("import_map.json".to_string());
    assert_eq!(
        EdgeRuntime::new(opts, host()).err(),
        Some(because(ContextError::ImportMapUnreadable, "No such file or directory (os error 2)"))
    );
}

#[test]
fn construction_fails_on_a_malformed_import_map() {
    let mut opts = main_opts(1);
    opts.import_map_path = Some("import_map.json".to_string());
    let host = facts("/srv/edge", "/srv/edge/main", Some("{\"scopes\": []}"));
    assert_eq!(
        EdgeRuntime::new(opts, host).err(),
        Some(because(ContextError::ImportMapMalformed, "Import map's 'scopes' must be an object"))
    );
}

#[test]
fn first_step_that_fails_decides_the_error() {
    let mut opts = user_opts(150, 0);
    opts.import_map_path = Some("import_map.json".to_string());
    let mut host = facts("/srv/edge", "not/absolute", None);
    assert_eq!(
        EdgeRuntime::new(opts, host).err().map(|e| e.kind),
        Some(ContextError::ServiceRootNotCanonical)
    );

    let mut opts = user_opts(150, 0);
    opts.import_map_path = Some("import_map.json".to_string());
    host = facts("/srv/edge", "not/absolute", None);
    host.working_dir = Err("gone".to_string());
    assert_eq!(
        EdgeRuntime::new(opts, host).err().map(|e| e.kind),
        Some(ContextError::WorkingDirUnavailable)
    );
}

#[test]
fn import_map_text_is_ignored_without_a_path() {
    let host = facts("/srv/edge", "/srv/edge/functions/hello", Some("{"));
    let rt = EdgeRuntime::new(user_opts(150, 0), host).unwrap();
    assert!(rt.engine().import_map.is_none());
}

#[test]
fn construction_succeeds_where_no_step_fails() {
    let mut opts = user_opts(150, 0);
    opts.import_map_path = Some("maps/import_map.json".to_string());
    let host = facts("/srv/edge", "/srv/edge/functions/hello", Some("{\"imports\": {}}"));
    let rt = EdgeRuntime::new(opts, host).unwrap();
    assert_eq!(rt.main_module_url(), "file:///srv/edge/functions/hello/index.ts");
    let map = rt.engine().import_map.as_ref().unwrap();
    assert_eq!(map.base_url().as_str(), "file:///srv/edge/maps/");
    assert_eq!(*rt.import_map_report(), None);
}

#[test]
fn errors_are_classified() {
    assert!(ContextError::BootstrapFailed.aborts_run());
    assert!(ContextError::TransportClosed.aborts_run());
    assert!(!ContextError::WorkingDirUnavailable.aborts_run());
    assert!(!ContextError::ServiceRootNotCanonical.aborts_run());
    assert!(!ContextError::InvalidMainModuleUrl.aborts_run());
    assert!(!ContextError::ImportMapUnreadable.aborts_run());
    assert!(!ContextError::ImportMapLocationInvalid.aborts_run());
    assert!(!ContextError::ImportMapMalformed.aborts_run());
}

#[test]
fn assemble_takes_the_resolved_parts_as_they_are() {
    let url = "file:///x/index.ts".to_string();
    let rt = EdgeRuntime::assemble(user_opts(10, 50), url.clone(), None);
    assert_eq!(*rt.main_module_url(), url);
    assert_eq!(
        rt.engine().heap_limits,
        Some(HeapLimits { initial_bytes: 1_048_576, max_bytes: 10_485_760 })
    );
    assert_eq!(*rt.import_map_report(), None);
}

#[test]
fn errors_say_what_they_are() {
    assert_eq!(ContextError::WorkingDirUnavailable.message(), "the working directory is not available");
    assert_eq!(
        ContextError::ServiceRootNotCanonical.message(),
        "the service path is not an absolute directory"
    );
    assert_eq!(ContextError::InvalidMainModuleUrl.message(), "the main module has no valid URL");
    assert_eq!(ContextError::ImportMapUnreadable.message(), "the import map could not be read");
    assert_eq!(ContextError::ImportMapLocationInvalid.message(), "the import map has no base URL");
    assert_eq!(ContextError::ImportMapMalformed.message(), "the import map could not be parsed");
    assert_eq!(ContextError::BootstrapFailed.message(), "failed to execute bootstrap script");
    assert_eq!(ContextError::TransportClosed.message(), "the transport channel is closed");
}

#[test]
fn outcomes_of_the_url_library_become_configuration_errors() {
    let url = "file:///srv/edge/".to_string();
    assert_eq!(service_root_from(Some(url.clone())), Ok(url.clone()));
    assert_eq!(service_root_from(None), Err(plain(ContextError::ServiceRootNotCanonical)));
    assert_eq!(import_map_base_from(Some(url.clone())), Ok(url.clone()));
    assert_eq!(import_map_base_from(None), Err(plain(ContextError::ImportMapLocationInvalid)));
    assert_eq!(main_module_from(Ok(url.clone())), Ok(url));
    assert_eq!(
        main_module_from(Err("relative URL without a base".to_string())),
        Err(because(ContextError::InvalidMainModuleUrl, "relative URL without a base"))
    );
}

#[test]
fn outcomes_of_the_parser_become_a_map_or_a_configuration_error() {
    let base = url::Url::parse("file:///srv/edge/").unwrap();
    let parsed = import_map::parse_from_json(base.clone(), "{}").unwrap();
    let found = LoadedImportMap {
        import_map: parsed.import_map,
        diagnostics: vec!["kept as it is".to_string()],
    };
    let loaded = import_map_from(Ok(found)).unwrap().unwrap();
    assert_eq!(loaded.diagnostics, vec!["kept as it is".to_string()]);
    assert_eq!(loaded.import_map.base_url(), &base);

    assert_eq!(
        import_map_from(Err("the parser's words".to_string())).err(),
        Some(because(ContextError::ImportMapMalformed, "the parser's words"))
    );
}

#[test]
fn outcomes_of_the_path_library_become_a_directory_or_a_configuration_error() {
    assert_eq!(
        import_map_directory_from(Some("/srv/edge/maps".to_string())),
        Ok("/srv/edge/maps".to_string())
    );
    assert_eq!(import_map_directory_from(Some(String::new())), Ok(String::new()));
    assert_eq!(
        import_map_directory_from(None),
        Err(plain(ContextError::ImportMapLocationInvalid))
    );
}

#[test]
fn construction_errors_are_made_plain_or_with_a_cause() {
    assert_eq!(
        ConstructionError::plain(ContextError::ImportMapLocationInvalid),
        because(ContextError::ImportMapLocationInvalid, "the import map has no base URL")
    );
    assert_eq!(
        ConstructionError::because(ContextError::ImportMapUnreadable, &"why".to_string()),
        because(ContextError::ImportMapUnreadable, "why")
    );
}
