use coverage_ingest::clock::{get_epoch_ms, MAX_DURATION_MS};
use coverage_ingest::config::ServiceConfig;
use coverage_ingest::ingest::{
    authorize, insert_statement, timestamp_from_epoch_ms, CoverageRecord, CoverageReport, IngestAction,
    IngestEvent, IngestState, STATUS_ACCEPTED, STATUS_BAD_REQUEST, STATUS_INTERNAL_SERVER_ERROR,
};

fn config(phrase: &str) -> ServiceConfig {
    ServiceConfig::from_secrets(
        Some(phrase.to_string()),
        Some("libsql://example.turso.io".to_string()),
        Some("token".to_string()),
    )
    .unwrap()
}

fn report(phrase: &str, percent: f32) -> CoverageReport {
    CoverageReport {
        secret_phrase: phrase.to_string(),
        statement_percent_bits: percent.to_bits(),
    }
}

fn drive(config: &ServiceConfig, events: Vec<IngestEvent>) -> (IngestState, Vec<IngestAction>) {
    let mut state = IngestState::new();
    let mut actions = Vec::new();
    for event in events {
        let (next, action) = state.step(config, event);
        state = next;
        actions.push(action);
    }
    (state, actions)
}

fn inserts(actions: &[IngestAction]) -> usize {
    actions
        .iter()
        .filter(|a| matches!(a, IngestAction::Insert(_)))
        .count()
}

#[test]
fn authorized_report_is_accepted_and_recorded() {
    let cfg = config("s3cr3t");
    let ms: u128 = 1_700_000_000_123;
    let (state, actions) = drive(
        &cfg,
        vec![
            IngestEvent::Submitted(report("s3cr3t", 87.5)),
            IngestEvent::DatabaseOpened(true),
            IngestEvent::ClockRead(Some(ms)),
            IngestEvent::Connected(true),
            IngestEvent::Inserted(true),
        ],
    );
    let record = CoverageRecord {
        timestamp_ms: 1_700_000_000_123,
        statement_percent_bits: 87.5f32.to_bits(),
    };
    assert_eq!(
        actions,
        vec![
            IngestAction::OpenDatabase {
                url: "libsql://example.turso.io".to_string(),
                auth_token: "token".to_string(),
            },
            IngestAction::ReadClock,
            IngestAction::Connect,
            IngestAction::Insert(record),
            IngestAction::Respond(202),
        ]
    );
    assert_eq!(state, IngestState::Finished { status: STATUS_ACCEPTED });
    assert_eq!(inserts(&actions), 1);
    assert_eq!(f32::from_bits(record.statement_percent_bits), 87.5);
}

#[test]
fn wrong_phrase_is_rejected_without_a_row() {
    let cfg = config("s3cr3t");
    let (state, actions) = drive(
        &cfg,
        vec![
            IngestEvent::Submitted(report("wrong", 50.0)),
            IngestEvent::DatabaseOpened(true),
            IngestEvent::ClockRead(Some(5)),
            IngestEvent::Connected(true),
            IngestEvent::Inserted(true),
        ],
    );
    assert_eq!(actions[0], IngestAction::Respond(400));
    assert!(actions[1..].iter().all(|a| *a == IngestAction::Idle));
    assert_eq!(state, IngestState::Finished { status: STATUS_BAD_REQUEST });
    assert_eq!(inserts(&actions), 0);
}

#[test]
fn missing_field_is_rejected_without_a_row() {
    let cfg = config("s3cr3t");
    let (state, actions) = drive(
        &cfg,
        vec![IngestEvent::Malformed, IngestEvent::DatabaseOpened(true)],
    );
    assert_eq!(actions, vec![IngestAction::Respond(400), IngestAction::Idle]);
    assert_eq!(state, IngestState::Finished { status: STATUS_BAD_REQUEST });
}

#[test]
fn near_miss_phrases_are_rejected() {
    let cfg = config("s3cr3t");
    for phrase in ["", "S3CR3T", "s3cr3", "s3cr3t!", " s3cr3t"] {
        let (_, actions) = drive(&cfg, vec![IngestEvent::Submitted(report(phrase, 10.0))]);
        assert_eq!(actions, vec![IngestAction::Respond(STATUS_BAD_REQUEST)]);
    }
}

#[test]
fn authorize_compares_exactly() {
    let configured = "s3cr3t".to_string();
    assert!(authorize(&"s3cr3t".to_string(), &configured));
    assert!(!authorize(&"".to_string(), &configured));
    assert!(!authorize(&"S3cr3t".to_string(), &configured));
    assert!(!authorize(&"s3cr3tt".to_string(), &configured));
    assert!(authorize(&"".to_string(), &"".to_string()));
}

#[test]
fn database_open_failure_answers_server_error() {
    let cfg = config("s3cr3t");
    let (state, actions) = drive(
        &cfg,
        vec![
            IngestEvent::Submitted(report("s3cr3t", 1.0)),
            IngestEvent::DatabaseOpened(false),
        ],
    );
    assert_eq!(
        actions,
        vec![
            IngestAction::OpenDatabase {
                url: "libsql://example.turso.io".to_string(),
                auth_token: "token".to_string(),
            },
            IngestAction::Respond(500)
        ]
    );
    assert_eq!(state, IngestState::Finished { status: STATUS_INTERNAL_SERVER_ERROR });
}

#[test]
fn clock_before_epoch_answers_server_error() {
    let cfg = config("s3cr3t");
    let (_, actions) = drive(
        &cfg,
        vec![
            IngestEvent::Submitted(report("s3cr3t", 1.0)),
            IngestEvent::DatabaseOpened(true),
            IngestEvent::ClockRead(None),
        ],
    );
    assert_eq!(actions[2], IngestAction::Respond(500));
    assert_eq!(inserts(&actions), 0);
}

#[test]
fn connect_failure_answers_server_error() {
    let cfg = config("s3cr3t");
    let (_, actions) = drive(
        &cfg,
        vec![
            IngestEvent::Submitted(report("s3cr3t", 1.0)),
            IngestEvent::DatabaseOpened(true),
            IngestEvent::ClockRead(Some(10)),
            IngestEvent::Connected(false),
        ],
    );
    assert_eq!(actions[3], IngestAction::Respond(500));
    assert_eq!(inserts(&actions), 0);
}

#[test]
fn insert_failure_answers_server_error() {
    let cfg = config("s3cr3t");
    let (state, actions) = drive(
        &cfg,
        vec![
            IngestEvent::Submitted(report("s3cr3t", 1.0)),
            IngestEvent::DatabaseOpened(true),
            IngestEvent::ClockRead(Some(10)),
            IngestEvent::Connected(true),
            IngestEvent::Inserted(false),
        ],
    );
    assert_eq!(actions[4], IngestAction::Respond(500));
    assert_eq!(state, IngestState::Finished { status: 500 });
}

#[test]
fn next_request_after_failure_is_served() {
    let cfg = config("s3cr3t");
    let (_, failed) = drive(
        &cfg,
        vec![
            IngestEvent::Submitted(report("s3cr3t", 1.0)),
            IngestEvent::DatabaseOpened(false),
        ],
    );
    assert_eq!(failed[1], IngestAction::Respond(500));
    let (state, _) = drive(
        &cfg,
        vec![
            IngestEvent::Submitted(report("s3cr3t", 2.0)),
            IngestEvent::DatabaseOpened(true),
            IngestEvent::ClockRead(Some(10)),
            IngestEvent::Connected(true),
            IngestEvent::Inserted(true),
        ],
    );
    assert_eq!(state, IngestState::Finished { status: 202 });
}

#[test]
fn out_of_order_event_answers_server_error() {
    let cfg = config("s3cr3t");
    let (state, actions) = drive(&cfg, vec![IngestEvent::Inserted(true)]);
    assert_eq!(actions, vec![IngestAction::Respond(500)]);
    assert_eq!(state, IngestState::Finished { status: 500 });
}

#[test]
fn timestamp_keeps_low_64_bits() {
    assert_eq!(timestamp_from_epoch_ms(1_700_000_000_000), 1_700_000_000_000);
    assert_eq!(timestamp_from_epoch_ms((1u128 << 64) + 5), 5);
    assert_eq!(timestamp_from_epoch_ms(u64::MAX as u128), u64::MAX);
}

#[test]
fn clock_reads_after_2020() {
    let ms = get_epoch_ms().unwrap();
    assert!(ms > 1_577_836_800_000);
    assert!(ms <= MAX_DURATION_MS);
    assert_eq!(MAX_DURATION_MS, u64::MAX as u128 * 1000 + 999);
}

#[test]
fn insert_binds_both_values() {
    assert_eq!(insert_statement(), "INSERT INTO code_coverage VALUES (?1, ?2)");
}

#[test]
fn database_is_opened_with_configured_credentials() {
    let cfg = ServiceConfig::from_secrets(
        Some("p".to_string()),
        Some("libsql://db.example".to_string()),
        Some("SECRET-REDACTED".to_string()),
    )
    .unwrap();
    let (_, actions) = drive(&cfg, vec![IngestEvent::Submitted(report("p", 3.0))]);
    assert_eq!(
        actions,
        vec![IngestAction::OpenDatabase {
            url: "libsql://db.example".to_string(),
            auth_token: "SECRET-REDACTED".to_string(),
        }]
    );
}

#[test]
fn repeated_outcomes_write_one_row() {
    let cfg = config("s3cr3t");
    let (state, actions) = drive(
        &cfg,
        vec![
            IngestEvent::Submitted(report("s3cr3t", 42.25)),
            IngestEvent::DatabaseOpened(true),
            IngestEvent::ClockRead(Some(7)),
            IngestEvent::Connected(true),
            IngestEvent::Connected(true),
            IngestEvent::Inserted(true),
            IngestEvent::Submitted(report("s3cr3t", 1.0)),
        ],
    );
    assert_eq!(inserts(&actions), 1);
    assert_eq!(
        actions[3],
        IngestAction::Insert(CoverageRecord {
            timestamp_ms: 7,
            statement_percent_bits: 42.25f32.to_bits(),
        })
    );
    assert_eq!(actions[4], IngestAction::Respond(500));
    assert_eq!(state, IngestState::Finished { status: 500 });
}
