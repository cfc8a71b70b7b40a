use isolate_core::context::BlueboatBootstrapData;
use isolate_core::context::PackageInitError;
use isolate_core::clients::collect_clients;
use isolate_core::ctx::ApnsEndpointMetadata;
use isolate_core::ctx::ApnsMetadata;
use isolate_core::ctx::BlueboatCtx;
use isolate_core::ctx::BlueboatInitData;
use isolate_core::ctx::CtxPhase;
use isolate_core::ctx::InitAction;
use isolate_core::ctx::InitEvent;
use isolate_core::ctx::LogSink;
use isolate_core::ctx::Metadata;
use isolate_core::ctx::reset_steps;
use isolate_core::ctx::timeout_abort;
use isolate_core::ctx::MysqlMetadata;
use isolate_core::ctx::ResetStep;
use isolate_core::ctx::INIT_FAILURE_EXIT_CODE;
use isolate_core::ctx::INIT_TIMEOUT_SECS;

fn metadata() -> Metadata {
    Metadata {
        env: vec![
            ("MODE".to_string(), "test".to_string()),
            ("REGION".to_string(), "eu".to_string()),
        ],
        mysql: vec![
            (
                "main".to_string(),
                MysqlMetadata {
                    url: "mysql://db.example/main".to_string(),
                },
            ),
            (
                "broken".to_string(),
                MysqlMetadata {
                    url: "not a url".to_string(),
                },
            ),
        ],
        apns: vec![(
            "push".to_string(),
            ApnsMetadata {
                endpoint: ApnsEndpointMetadata::Sandbox,
                cert: vec![1, 2, 3],
            },
        )],
    }
}

fn init_data() -> BlueboatInitData<u32> {
    BlueboatInitData {
        key: "demo/app:7".to_string(),
        package: vec![9, 8, 7],
        metadata: metadata(),
        rch: Some(77),
    }
}

fn ctx_building_context() -> BlueboatCtx<u32> {
    let (mut ctx, _seed) = BlueboatCtx::<u32>::init(init_data());
    assert_eq!(ctx.advance(InitEvent::StepDone), InitAction::CreateEngine);
    assert_eq!(ctx.advance(InitEvent::StepDone), InitAction::LoadPackage);
    assert_eq!(
        ctx.advance(InitEvent::StepDone),
        InitAction::BuildContextTemplate
    );
    assert_eq!(
        ctx.advance(InitEvent::StepDone),
        InitAction::ArmWatchdog { timeout_secs: 3 }
    );
    assert_eq!(ctx.advance(InitEvent::StepDone), InitAction::BuildContext);
    assert_eq!(ctx.phase(), CtxPhase::BuildingContext);
    ctx
}

fn serving_ctx(first_context: u32) -> BlueboatCtx<u32> {
    let mut ctx = ctx_building_context();
    assert_eq!(
        ctx.advance(InitEvent::ContextBuilt {
            context: first_context
        }),
        InitAction::DisarmWatchdog
    );
    assert_eq!(ctx.advance(InitEvent::StepDone), InitAction::Serve);
    assert_eq!(ctx.phase(), CtxPhase::Serving);
    ctx
}

#[test]
fn init_budget_is_three_seconds_and_failure_exits_with_one() {
    assert_eq!(INIT_TIMEOUT_SECS, 3);
    assert_eq!(INIT_FAILURE_EXIT_CODE, 1);
}

#[test]
fn process_is_named_after_the_app_key() {
    assert_eq!(init_data().process_name(), "demo/app:7");
}

#[test]
fn init_takes_the_seed_and_keeps_the_rest() {
    let (ctx, seed) = BlueboatCtx::<u32>::init(init_data());
    assert_eq!(seed, 77);
    assert_eq!(ctx.key(), "demo/app:7");
    assert_eq!(ctx.package(), &vec![9u8, 8, 7]);
    assert_eq!(ctx.metadata(), &metadata());
    assert_eq!(ctx.phase(), CtxPhase::StartingChannel);
    assert_eq!(ctx.grab_v8_context(), None);
}

#[test]
fn init_runs_its_steps_in_order_and_then_serves() {
    let ctx = serving_ctx(1);
    assert_eq!(ctx.grab_v8_context(), Some(1));
}

#[test]
fn init_timeout_aborts_with_exit_code_one() {
    let mut ctx = ctx_building_context();
    let action = ctx.advance(InitEvent::WatchdogFired);
    assert_eq!(
        action,
        InitAction::Abort {
            exit_code: 1,
            sink: LogSink::HostLog,
            message: "app demo/app:7: initialization timed out".to_string()
        }
    );
    match action {
        InitAction::Abort { message, .. } => assert!(message.contains("initialization timed out")),
        _ => unreachable!(),
    }
    assert_eq!(ctx.phase(), CtxPhase::Aborted);
}

#[test]
fn deadline_still_counts_until_it_is_cancelled() {
    let mut ctx = ctx_building_context();
    ctx.advance(InitEvent::ContextBuilt { context: 5 });
    assert_eq!(ctx.phase(), CtxPhase::DisarmingWatchdog);
    let action = ctx.advance(InitEvent::WatchdogFired);
    assert!(matches!(
        action,
        InitAction::Abort {
            exit_code: 1,
            sink: LogSink::HostLog,
            ..
        }
    ));
    assert_eq!(ctx.phase(), CtxPhase::Aborted);
}

#[test]
fn deadline_means_nothing_before_it_is_set_or_after_it_is_cancelled() {
    let (mut ctx, _seed) = BlueboatCtx::<u32>::init(init_data());
    assert_eq!(ctx.advance(InitEvent::WatchdogFired), InitAction::Ignore);
    assert_eq!(ctx.phase(), CtxPhase::StartingChannel);
    let mut serving = serving_ctx(1);
    assert_eq!(serving.advance(InitEvent::WatchdogFired), InitAction::Ignore);
    assert_eq!(serving.phase(), CtxPhase::Serving);
}

#[test]
fn failed_build_aborts_with_the_error_in_the_app_log() {
    let mut ctx = ctx_building_context();
    let action = ctx.advance(InitEvent::BuildFailed {
        error: PackageInitError("ReferenceError: y is not defined".to_string()),
    });
    assert_eq!(
        action,
        InitAction::Abort {
            exit_code: 1,
            sink: LogSink::AppLog,
            message:
                "failed to build v8 context: package init error: ReferenceError: y is not defined"
                    .to_string()
        }
    );
    assert_eq!(ctx.phase(), CtxPhase::Aborted);
    assert_eq!(ctx.grab_v8_context(), None);
}

#[test]
fn abandoned_init_stays_abandoned() {
    let mut ctx = ctx_building_context();
    ctx.advance(InitEvent::WatchdogFired);
    assert_eq!(ctx.advance(InitEvent::StepDone), InitAction::Ignore);
    assert_eq!(
        ctx.advance(InitEvent::ContextBuilt { context: 3 }),
        InitAction::Ignore
    );
    assert_eq!(ctx.phase(), CtxPhase::Aborted);
    assert_eq!(ctx.grab_v8_context(), None);
}

#[test]
fn context_cannot_be_built_out_of_turn() {
    let (mut ctx, _seed) = BlueboatCtx::<u32>::init(init_data());
    assert_eq!(
        ctx.advance(InitEvent::ContextBuilt { context: 3 }),
        InitAction::Ignore
    );
    assert_eq!(
        ctx.advance(InitEvent::BuildFailed {
            error: PackageInitError("x".to_string())
        }),
        InitAction::Ignore
    );
    assert_eq!(ctx.phase(), CtxPhase::StartingChannel);
    assert_eq!(ctx.grab_v8_context(), None);
}

#[test]
fn context_reset_replaces_the_current_context() {
    let mut ctx = serving_ctx(1);
    let dirty = ctx.grab_v8_context();
    assert_eq!(dirty, Some(1));
    assert_eq!(ctx.reset_v8_context(Ok(2)), Ok(()));
    let pristine = ctx.grab_v8_context();
    assert_eq!(pristine, Some(2));
    assert_ne!(pristine, dirty);
    assert_eq!(ctx.phase(), CtxPhase::Serving);
}

#[test]
fn failed_reset_hands_the_error_back_and_keeps_the_context() {
    let mut ctx = serving_ctx(1);
    let outcome = ctx.reset_v8_context(Err(PackageInitError("SyntaxError".to_string())));
    assert_eq!(outcome, Err(PackageInitError("SyntaxError".to_string())));
    assert_eq!(ctx.grab_v8_context(), Some(1));
    assert_eq!(ctx.phase(), CtxPhase::Serving);
}

#[test]
fn bootstrap_descriptor_lists_binding_names_and_env() {
    assert_eq!(
        metadata().bootstrap_data(),
        BlueboatBootstrapData {
            mysql: vec!["main".to_string(), "broken".to_string()],
            apns: vec!["push".to_string()],
            env: vec![
                ("MODE".to_string(), "test".to_string()),
                ("REGION".to_string(), "eu".to_string()),
            ],
        }
    );
}

#[test]
fn bootstrap_descriptor_of_empty_metadata_is_empty() {
    let empty = Metadata {
        env: vec![],
        mysql: vec![],
        apns: vec![],
    };
    assert_eq!(
        empty.bootstrap_data(),
        BlueboatBootstrapData {
            mysql: vec![],
            apns: vec![],
            env: vec![],
        }
    );
}

#[test]
fn clients_that_could_not_be_built_are_left_out() {
    let kept = collect_clients(vec![
        ("main".to_string(), Some(10)),
        ("broken".to_string(), None),
        ("replica".to_string(), Some(30)),
        ("also-broken".to_string(), None),
    ]);
    assert_eq!(
        kept,
        vec![("main".to_string(), 10), ("replica".to_string(), 30)]
    );
}

#[test]
fn no_candidates_no_clients() {
    let kept: Vec<(String, u8)> = collect_clients(vec![]);
    assert_eq!(kept, vec![]);
    let none: Vec<(String, u8)> = collect_clients(vec![("a".to_string(), None)]);
    assert_eq!(none, vec![]);
}

#[test]
fn serving_context_has_pools_for_the_bindings_with_usable_urls() {
    let ctx = serving_ctx(1);
    let names: Vec<&str> = ctx.mysql().iter().map(|(name, _)| name.as_str()).collect();
    assert_eq!(names, vec!["main"]);
    assert!(ctx.mysql_pool(&"main".to_string()).is_some());
    assert!(ctx.mysql_pool(&"broken".to_string()).is_none());
    assert!(ctx.mysql_pool(&"absent".to_string()).is_none());
}

#[test]
fn context_has_no_pools_before_it_serves() {
    let ctx = ctx_building_context();
    assert!(ctx.mysql().is_empty());
    assert!(ctx.mysql_pool(&"main".to_string()).is_none());
}

#[test]
fn unreadable_certificate_leaves_the_push_binding_without_client() {
    let ctx = serving_ctx(1);
    assert!(ctx.apns().is_empty());
}

#[test]
fn reset_clears_before_it_builds_and_replaces_last() {
    assert_eq!(
        reset_steps(),
        vec![
            ResetStep::ClearSymbolRegistry,
            ResetStep::ClearJobSlots,
            ResetStep::BuildContext,
            ResetStep::ReplaceContext,
        ]
    );
}

#[test]
fn metadata_is_valid_when_no_name_occurs_twice() {
    assert!(metadata().is_valid());
    let empty = Metadata {
        env: vec![],
        mysql: vec![],
        apns: vec![],
    };
    assert!(empty.is_valid());
}

#[test]
fn metadata_with_a_repeated_name_is_not_valid() {
    let mut twice_env = metadata();
    twice_env.env.push(("MODE".to_string(), "other".to_string()));
    assert!(!twice_env.is_valid());

    let mut twice_mysql = metadata();
    twice_mysql.mysql.push((
        "main".to_string(),
        MysqlMetadata {
            url: "mysql://elsewhere.example/main".to_string(),
        },
    ));
    assert!(!twice_mysql.is_valid());

    let mut twice_apns = metadata();
    twice_apns.apns.push((
        "push".to_string(),
        ApnsMetadata {
            endpoint: ApnsEndpointMetadata::Production,
            cert: vec![],
        },
    ));
    assert!(!twice_apns.is_valid());
}

#[test]
fn the_pool_found_is_the_one_kept_under_the_name() {
    let (mut ctx, _seed) = BlueboatCtx::<u32>::init(BlueboatInitData {
        key: "demo/app:7".to_string(),
        package: vec![],
        metadata: Metadata {
            env: vec![],
            mysql: vec![
                (
                    "first".to_string(),
                    MysqlMetadata {
                        url: "mysql://first.example/app".to_string(),
                    },
                ),
                (
                    "second".to_string(),
                    MysqlMetadata {
                        url: "mysql://second.example/app".to_string(),
                    },
                ),
            ],
            apns: vec![],
        },
        rch: Some(1u8),
    });
    ctx.advance(InitEvent::StepDone);
    ctx.advance(InitEvent::StepDone);
    ctx.advance(InitEvent::StepDone);
    ctx.advance(InitEvent::StepDone);
    ctx.advance(InitEvent::StepDone);
    ctx.advance(InitEvent::ContextBuilt { context: 1 });
    assert_eq!(ctx.advance(InitEvent::StepDone), InitAction::Serve);
    let second = ctx.mysql_pool(&"second".to_string()).unwrap();
    assert!(format!("{:?}", second).contains("second.example"));
    assert!(!format!("{:?}", second).contains("first.example"));
    let first = ctx.mysql_pool(&"first".to_string()).unwrap();
    assert!(format!("{:?}", first).contains("first.example"));
}

#[test]
fn passed_deadline_is_worded_for_the_app() {
    assert_eq!(
        timeout_abort("demo/app:7"),
        InitAction::Abort {
            exit_code: 1,
            sink: LogSink::HostLog,
            message: "app demo/app:7: initialization timed out".to_string()
        }
    );
}

#[test]
fn push_client_is_looked_up_by_name() {
    let ctx = serving_ctx(1);
    assert!(ctx.apns_client(&"push".to_string()).is_none());
    assert!(ctx.apns_client(&"absent".to_string()).is_none());
    let starting = ctx_building_context();
    assert!(starting.apns_client(&"push".to_string()).is_none());
}
