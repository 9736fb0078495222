use gateway_protocol::cron::{
    is_valid_cron_config_revision, is_valid_cron_declaration_key, is_valid_cron_display_name,
    is_valid_cron_run_log_job_id, is_valid_cron_run_status, is_valid_cron_wake_mode,
    CronAddParamsSchema, CronAnnounceChannelSchema, CronCommandPayloadSchema,
    CronCommonOptionalFields, CronCompletionDestinationMode, CronCompletionDestinationSchema,
    CronDeliverySchema, CronDeliverySharedProperties, CronFailureAlertOption,
    CronFailureAlertSchema, CronFailureDestinationSchema, CronJobSchema, CronJobStateSchema,
    CronListParamsSchema, CronOwnerSchema, CronPayloadCommandKind, CronPayloadSchema,
    CronPayloadSystemEventKind, CronRunDiagnosticSchema, CronRunDiagnosticSeveritySchema,
    CronRunDiagnosticSourceSchema, CronRunDiagnosticsSchema, CronRunStatusSchema,
    CronRunsParamsSchema, CronScheduleSchema, CronSessionTargetSchema,
    CronSystemEventPayloadSchema, CronTriggerSchema, CronWakeModeSchema,
};

fn system_event(text: &str) -> CronPayloadSchema {
    CronPayloadSchema::SystemEvent(CronSystemEventPayloadSchema {
        kind_value: CronPayloadSystemEventKind::SystemEvent,
        text: text.to_string(),
    })
}

fn every(ms: i64) -> CronScheduleSchema {
    CronScheduleSchema::Every { every_ms: ms, anchor_ms: None }
}

fn add_params() -> CronAddParamsSchema {
    CronAddParamsSchema {
        name: "nightly".to_string(),
        declaration_key: None,
        display_name: None,
        owner: None,
        common: CronCommonOptionalFields::default(),
        schedule: every(60_000),
        trigger: None,
        session_target: CronSessionTargetSchema::Main,
        wake_mode: CronWakeModeSchema::Now,
        payload: system_event("tick"),
        delivery: None,
        failure_alert: None,
    }
}

fn job() -> CronJobSchema {
    CronJobSchema {
        id: "job-1".to_string(),
        declaration_key: None,
        display_name: None,
        owner: None,
        agent_id: None,
        session_key: None,
        name: "nightly".to_string(),
        description: None,
        enabled: true,
        delete_after_run: None,
        created_at_ms: 1,
        updated_at_ms: 2,
        config_revision: None,
        schedule: every(1000),
        trigger: None,
        session_target: CronSessionTargetSchema::Isolated,
        wake_mode: CronWakeModeSchema::NextHeartbeat,
        payload: system_event("tick"),
        delivery: None,
        failure_alert: None,
        state: CronJobStateSchema::default(),
        next_run_at_ms_flat: None,
        last_run_at_ms_flat: None,
        last_run_status_flat: None,
        last_run_error: None,
        last_delivered_flat: None,
        last_delivery_status_flat: None,
        last_delivery_error_flat: None,
        last_failure_notification_delivered_flat: None,
        last_failure_notification_delivery_status_flat: None,
        last_failure_notification_delivery_error_flat: None,
    }
}

#[test]
fn cron_grammars() {
    assert!(is_valid_cron_declaration_key("daily-report"));
    assert!(!is_valid_cron_declaration_key(""));
    assert!(!is_valid_cron_declaration_key(" \t\n"));
    assert!(is_valid_cron_declaration_key(&"k".repeat(200)));
    assert!(!is_valid_cron_declaration_key(&"k".repeat(201)));
    assert!(is_valid_cron_display_name(" Morning brief "));
    assert!(!is_valid_cron_display_name("   "));
    assert!(is_valid_cron_run_log_job_id("job-1.2"));
    assert!(!is_valid_cron_run_log_job_id(""));
    assert!(!is_valid_cron_run_log_job_id("a/b"));
    assert!(!is_valid_cron_run_log_job_id("a\\b"));
    assert!(is_valid_cron_config_revision(&"r".repeat(128)));
    assert!(!is_valid_cron_config_revision(&"r".repeat(129)));
    assert!(!is_valid_cron_config_revision(""));
}

#[test]
fn cron_enums() {
    assert_eq!(CronRunStatusSchema::Succeeded.as_str(), "ok");
    assert_eq!(CronRunStatusSchema::from_str("skipped"), Some(CronRunStatusSchema::Skipped));
    assert!(is_valid_cron_run_status("error"));
    assert!(!is_valid_cron_run_status("failed"));
    assert_eq!(CronWakeModeSchema::NextHeartbeat.as_str(), "next-heartbeat");
    assert!(is_valid_cron_wake_mode("now"));
    assert!(!is_valid_cron_wake_mode("later"));
    assert_eq!(CronSessionTargetSchema::Other("session:abc".to_string()).as_str(), "session:abc");
    assert_eq!(CronAnnounceChannelSchema::Last.as_str(), "last");
}

#[test]
fn schedule_checks() {
    assert_eq!(every(1).validate(), Ok(()));
    assert_eq!(every(0).validate(), Err("everyMs: expected >= 1, got 0".to_string()));
    let anchored = CronScheduleSchema::Every { every_ms: 5, anchor_ms: Some(-1) };
    assert_eq!(anchored.validate(), Err("anchorMs: expected >= 0, got -1".to_string()));
    let at = CronScheduleSchema::At { at: String::new() };
    assert_eq!(at.validate(), Err("at: expected non-empty string, got \"\"".to_string()));
    let cron = CronScheduleSchema::Cron { expr: "0 * * * *".to_string(), tz: None, stagger_ms: Some(-5) };
    assert_eq!(cron.validate(), Err("staggerMs: expected >= 0, got -5".to_string()));
    let on_exit = CronScheduleSchema::OnExit { command: "make".to_string(), cwd: Some(String::new()) };
    assert_eq!(on_exit.validate(), Err("cwd: expected non-empty string, got \"\"".to_string()));
}

#[test]
fn trigger_script_length() {
    assert_eq!(CronTriggerSchema { script: "x".to_string(), once: None }.validate(), Ok(()));
    assert_eq!(
        CronTriggerSchema { script: String::new(), once: None }.validate(),
        Err("script: expected length [1, 65536], got 0".to_string())
    );
    assert_eq!(
        CronTriggerSchema { script: "x".repeat(65537), once: Some(true) }.validate(),
        Err("script: expected length [1, 65536], got 65537".to_string())
    );
}

#[test]
fn payload_checks() {
    assert_eq!(system_event("").validate(), Err("text: expected non-empty string, got \"\"".to_string()));
    let cmd = |argv: Vec<&str>| {
        CronPayloadSchema::Command(CronCommandPayloadSchema {
            kind_value: CronPayloadCommandKind::Command,
            argv: argv.into_iter().map(|s| s.to_string()).collect(),
            cwd: None,
            env: None,
            input: None,
            timeout_seconds: None,
            no_output_timeout_seconds: None,
            output_max_bytes: None,
        })
    };
    assert_eq!(cmd(vec![]).validate(), Err("argv: minItems 1, got 0".to_string()));
    assert_eq!(cmd(vec!["ls", ""]).validate(), Err("argv[1]: expected non-empty string, got \"\"".to_string()));
    assert_eq!(cmd(vec!["ls", "-la"]).validate(), Ok(()));
}

#[test]
fn list_and_runs_params() {
    let mut p = CronListParamsSchema::default();
    assert_eq!(p.validate(), Ok(()));
    p.limit = Some(201);
    assert_eq!(p.validate(), Err("limit: expected [1, 200], got 201".to_string()));
    p.limit = Some(200);
    p.offset = Some(-1);
    assert_eq!(p.validate(), Err("offset: expected >= 0, got -1".to_string()));
    let mut r = CronRunsParamsSchema::default();
    r.statuses = Some(vec![]);
    assert_eq!(r.validate(), Err("statuses: expected [1, 3] items, got 0".to_string()));
    r.statuses = Some(vec![CronRunStatusSchema::Succeeded; 3]);
    assert_eq!(r.validate(), Ok(()));
    r.delivery_statuses = Some(vec![]);
    assert_eq!(r.validate(), Err("deliveryStatuses: expected [1, 4] items, got 0".to_string()));
    r.limit = Some(0);
    assert_eq!(r.validate(), Err("limit: expected [1, 200], got 0".to_string()));
}

#[test]
fn delivery_checks() {
    let webhook = CronDeliverySchema::Webhook { shared: CronDeliverySharedProperties::default(), to: "  ".to_string() };
    assert_eq!(webhook.validate(), Err("to: expected string matching \"\\\\S\", got \"  \"".to_string()));
    let webhook = CronDeliverySchema::Webhook { shared: CronDeliverySharedProperties::default(), to: String::new() };
    assert_eq!(webhook.validate(), Err("to: expected non-blank string (>= 1 char), got \"\"".to_string()));
    let announce = CronDeliverySchema::Announce {
        shared: CronDeliverySharedProperties {
            failure_destination: Some(CronFailureDestinationSchema {
                account_id: Some(String::new()),
                ..Default::default()
            }),
            ..Default::default()
        },
        completion_destination: None,
        to: None,
    };
    assert_eq!(
        announce.validate(),
        Err("shared: failureDestination: accountId: expected non-empty string, got \"\"".to_string())
    );
    let announce = CronDeliverySchema::Announce {
        shared: CronDeliverySharedProperties::default(),
        completion_destination: Some(CronCompletionDestinationSchema {
            mode: CronCompletionDestinationMode::Webhook,
            to: "\t".to_string(),
        }),
        to: Some("chan".to_string()),
    };
    assert_eq!(
        announce.validate(),
        Err("completionDestination: to: expected string matching \"\\\\S\", got \"\\t\"".to_string())
    );
}

#[test]
fn failure_alert_checks() {
    let a = CronFailureAlertSchema { after: Some(0), ..Default::default() };
    assert_eq!(a.validate(), Err("after: expected >= 1, got 0".to_string()));
    let a = CronFailureAlertSchema { cooldown_ms: Some(-1), ..Default::default() };
    assert_eq!(a.validate(), Err("cooldownMs: expected >= 0, got -1".to_string()));
    let mut p = add_params();
    p.failure_alert = Some(CronFailureAlertOption::Alert(CronFailureAlertSchema { after: Some(-2), ..Default::default() }));
    assert_eq!(p.validate(), Err("failureAlert: after: expected >= 1, got -2".to_string()));
    p.failure_alert = Some(CronFailureAlertOption::Disabled(false));
    assert_eq!(p.validate(), Ok(()));
}

#[test]
fn add_params_order_of_checks() {
    let mut p = add_params();
    assert_eq!(p.validate(), Ok(()));
    p.declaration_key = Some("   ".to_string());
    assert_eq!(p.validate(), Err("declarationKey: invalid cron declaration key: \"   \"".to_string()));
    p.declaration_key = None;
    p.display_name = Some(String::new());
    assert_eq!(p.validate(), Err("displayName: invalid cron display name: \"\"".to_string()));
    p.display_name = None;
    p.owner = Some(CronOwnerSchema { agent_id: Some(String::new()), session_key: None });
    assert_eq!(p.validate(), Err("owner: agentId: expected non-empty string, got \"\"".to_string()));
    p.owner = None;
    p.schedule = every(0);
    p.payload = system_event("");
    assert_eq!(p.validate(), Err("schedule: everyMs: expected >= 1, got 0".to_string()));
    p.schedule = every(10);
    p.trigger = Some(CronTriggerSchema { script: String::new(), once: None });
    assert_eq!(p.validate(), Err("trigger: script: expected length [1, 65536], got 0".to_string()));
    p.trigger = None;
    assert_eq!(p.validate(), Err("payload: text: expected non-empty string, got \"\"".to_string()));
    p.payload = system_event("ok");
    p.name = String::new();
    assert_eq!(p.validate(), Err("name: expected non-empty string, got \"\"".to_string()));
}

#[test]
fn job_checks() {
    let mut j = job();
    assert_eq!(j.validate(), Ok(()));
    j.updated_at_ms = -1;
    assert_eq!(j.validate(), Err("updatedAtMs: expected >= 0, got -1".to_string()));
    j.updated_at_ms = 0;
    j.config_revision = Some(String::new());
    assert_eq!(j.validate(), Err("configRevision: invalid cron config revision: \"\"".to_string()));
    j.config_revision = Some("rev-1".to_string());
    j.state.consecutive_errors = Some(-3);
    assert_eq!(j.validate(), Err("state: consecutiveErrors: expected >= 0, got -3".to_string()));
    j.state.consecutive_errors = None;
    j.state.last_diagnostics = Some(CronRunDiagnosticsSchema {
        summary: None,
        entries: vec![CronRunDiagnosticSchema {
            ts: -1,
            source: CronRunDiagnosticSourceSchema::CronPreflight,
            severity: CronRunDiagnosticSeveritySchema::Info,
            message: "m".to_string(),
            tool_name: None,
            exit_code: None,
            truncated: None,
        }],
    });
    assert_eq!(j.validate(), Err("state: lastDiagnostics: entries[0]: ts: expected >= 0, got -1".to_string()));
}

#[test]
fn runs_params_ids() {
    let mut r = CronRunsParamsSchema::default();
    r.id = Some("job-1".to_string());
    r.job_id = Some("job-2".to_string());
    r.run_id = Some("run-9".to_string());
    assert_eq!(r.validate(), Ok(()));
    r.id = Some("a/b".to_string());
    assert_eq!(r.validate(), Err("id: invalid cron run-log job id: \"a/b\"".to_string()));
    r.id = None;
    r.job_id = Some("a\\b".to_string());
    assert_eq!(r.validate(), Err("jobId: invalid cron run-log job id: \"a\\\\b\"".to_string()));
    r.job_id = Some(String::new());
    assert_eq!(r.validate(), Err("jobId: invalid cron run-log job id: \"\"".to_string()));
    r.job_id = None;
    r.run_id = Some(String::new());
    assert_eq!(r.validate(), Err("runId: expected non-empty string, got \"\"".to_string()));
}

#[test]
fn session_target_pattern() {
    let mut p = add_params();
    p.session_target = CronSessionTargetSchema::Other("session:abc".to_string());
    assert_eq!(p.validate(), Ok(()));
    p.session_target = CronSessionTargetSchema::Other("foo".to_string());
    assert_eq!(
        p.validate(),
        Err("sessionTarget: expected string matching ^session:.+, got \"foo\"".to_string())
    );
    p.session_target = CronSessionTargetSchema::Other("session:".to_string());
    assert_eq!(
        p.validate(),
        Err("sessionTarget: expected string matching ^session:.+, got \"session:\"".to_string())
    );
    p.session_target = CronSessionTargetSchema::Other("session:\nx".to_string());
    assert!(p.validate().is_err());
    let mut j = job();
    j.session_target = CronSessionTargetSchema::Other("main2".to_string());
    assert_eq!(
        j.validate(),
        Err("sessionTarget: expected string matching ^session:.+, got \"main2\"".to_string())
    );
    j.session_target = CronSessionTargetSchema::Current;
    assert_eq!(j.validate(), Ok(()));
}

#[test]
fn channels_are_non_blank() {
    let a = CronFailureAlertSchema { channel: Some(CronAnnounceChannelSchema::Other("  ".to_string())), ..Default::default() };
    assert_eq!(a.validate(), Err("channel: expected string matching \"\\\\S\", got \"  \"".to_string()));
    let a = CronFailureAlertSchema { channel: Some(CronAnnounceChannelSchema::Last), ..Default::default() };
    assert_eq!(a.validate(), Ok(()));
    let d = CronFailureDestinationSchema { channel: Some(CronAnnounceChannelSchema::Other(String::new())), ..Default::default() };
    assert_eq!(d.validate(), Err("channel: expected non-blank string (>= 1 char), got \"\"".to_string()));
    let webhook = CronDeliverySchema::Webhook {
        shared: CronDeliverySharedProperties {
            channel: Some(CronAnnounceChannelSchema::Other("\t".to_string())),
            ..Default::default()
        },
        to: "https://hook".to_string(),
    };
    assert_eq!(
        webhook.validate(),
        Err("shared: channel: expected string matching \"\\\\S\", got \"\\t\"".to_string())
    );
}
