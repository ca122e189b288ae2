//! What one coverage submission leads to.
//!
//! A request is a short sequence: check the shared phrase, open the database,
//! read the clock, connect, insert one row, answer. The outside work (the
//! database, the clock) is done by the caller; `IngestState::step` takes the
//! outcome of each piece of work as an event and names the next action.
use vstd::prelude::*;
use crate::config::ServiceConfig;

verus! {

/// The row was written.
pub const STATUS_ACCEPTED: u16 = 202;

/// Wrong phrase or malformed body; the two are not told apart.
pub const STATUS_BAD_REQUEST: u16 = 400;

/// The database or the clock failed.
pub const STATUS_INTERNAL_SERVER_ERROR: u16 = 500;

/// A submitted coverage report. The percentage is carried as the bit pattern
/// of its single-precision IEEE-754 value: it is stored as received and never
/// interpreted here.
pub struct CoverageReport {
    pub secret_phrase: String,
    pub statement_percent_bits: u32,
}

/// The row written to the database.
#[derive(Clone, Copy, Debug, PartialEq, Eq, Structural)]
pub struct CoverageRecord {
    pub timestamp_ms: u64,
    pub statement_percent_bits: u32,
}

/// Where a request stands.
#[derive(Clone, Copy, Debug, PartialEq, Eq, Structural)]
pub enum IngestState {
    /// Waiting for the parsed body.
    Received,
    /// Authorized; the database handle is being opened.
    OpeningDatabase { statement_percent_bits: u32 },
    /// The database handle is open; the clock is being read.
    ReadingClock { statement_percent_bits: u32 },
    /// The row is stamped; a connection is being made.
    Connecting { record: CoverageRecord },
    /// The insert of the row is under way.
    Inserting { record: CoverageRecord },
    /// The response has been decided.
    Finished { status: u16 },
}

/// The outcome of the work last asked for.
pub enum IngestEvent {
    /// The body parsed into a report.
    Submitted(CoverageReport),
    /// The body was not a well-formed report (bad JSON, a missing or
    /// mistyped field).
    Malformed,
    /// Whether the database handle could be opened.
    DatabaseOpened(bool),
    /// The clock in milliseconds since the Unix epoch, if it reads a time
    /// after the epoch.
    ClockRead(Option<u128>),
    /// Whether a connection could be made.
    Connected(bool),
    /// Whether the insert succeeded.
    Inserted(bool),
}

/// The work the caller performs next.
#[derive(Clone, Debug, PartialEq, Eq)]
pub enum IngestAction {
    /// Open the remote database at this URL with this auth token.
    OpenDatabase { url: String, auth_token: String },
    /// Read the wall clock.
    ReadClock,
    /// Connect to the opened database.
    Connect,
    /// Insert this row with bound parameters.
    Insert(CoverageRecord),
    /// Answer with this status code and an empty body.
    Respond(u16),
    /// Nothing: the request is over.
    Idle,
}

/// The shared phrase matches exactly.
pub open spec fn authorized(given: Seq<char>, configured: Seq<char>) -> bool {
    given == configured
}

/// A millisecond count cut down to its low 64 bits.
pub open spec fn timestamp_of(ms: u128) -> u64 {
    (ms % 0x1_0000_0000_0000_0000) as u64
}

/// The request ends with a server error.
pub open spec fn failed() -> (IngestState, IngestAction) {
    (
        IngestState::Finished { status: STATUS_INTERNAL_SERVER_ERROR },
        IngestAction::Respond(STATUS_INTERNAL_SERVER_ERROR),
    )
}

/// The request ends as a bad request.
pub open spec fn rejected() -> (IngestState, IngestAction) {
    (
        IngestState::Finished { status: STATUS_BAD_REQUEST },
        IngestAction::Respond(STATUS_BAD_REQUEST),
    )
}

/// One transition under `config`. An event that does
/// not answer the work asked for ends the request as a server error.
pub open spec fn next(config: ServiceConfig, s: IngestState, e: IngestEvent) -> (
    IngestState,
    IngestAction,
) {
    match s {
        IngestState::Received => match e {
            IngestEvent::Submitted(report) => if authorized(report.secret_phrase@, config.secret_phrase@) {
                (
                    IngestState::OpeningDatabase {
                        statement_percent_bits: report.statement_percent_bits,
                    },
                    IngestAction::OpenDatabase {
                        url: config.turso_db_url,
                        auth_token: config.turso_auth_token,
                    },
                )
            } else {
                rejected()
            },
            IngestEvent::Malformed => rejected(),
            _ => failed(),
        },
        IngestState::OpeningDatabase { statement_percent_bits } => match e {
            IngestEvent::DatabaseOpened(true) => (
                IngestState::ReadingClock { statement_percent_bits },
                IngestAction::ReadClock,
            ),
            _ => failed(),
        },
        IngestState::ReadingClock { statement_percent_bits } => match e {
            IngestEvent::ClockRead(Some(ms)) => (
                IngestState::Connecting {
                    record: CoverageRecord { timestamp_ms: timestamp_of(ms), statement_percent_bits },
                },
                IngestAction::Connect,
            ),
            _ => failed(),
        },
        IngestState::Connecting { record } => match e {
            IngestEvent::Connected(true) => (
                IngestState::Inserting { record },
                IngestAction::Insert(record),
            ),
            _ => failed(),
        },
        IngestState::Inserting { record } => match e {
            IngestEvent::Inserted(true) => (
                IngestState::Finished { status: STATUS_ACCEPTED },
                IngestAction::Respond(STATUS_ACCEPTED),
            ),
            _ => failed(),
        },
        IngestState::Finished { .. } => (s, IngestAction::Idle),
    }
}

/// The state reached and the actions named when `events` arrive in order.
pub open spec fn run(config: ServiceConfig, s: IngestState, events: Seq<IngestEvent>) -> (
    IngestState,
    Seq<IngestAction>,
)
    decreases events.len(),
{
    if events.len() == 0 {
        (s, Seq::empty())
    } else {
        let (s1, a) = next(config, s, events[0]);
        let (s2, rest) = run(config, s1, events.drop_first());
        (s2, seq![a] + rest)
    }
}

/// No action in the sequence writes a row.
pub open spec fn writes_nothing(actions: Seq<IngestAction>) -> bool {
    forall|i: int| 0 <= i < actions.len() ==> !(#[trigger] actions[i] is Insert)
}

/// A finished request stays finished and writes nothing, whatever arrives.
pub proof fn lemma_finished_is_final(config: ServiceConfig, status: u16, events: Seq<IngestEvent>)
    ensures
        run(config, IngestState::Finished { status }, events).0 == (IngestState::Finished {
            status,
        }),
        writes_nothing(run(config, IngestState::Finished { status }, events).1),
    decreases events.len(),
{
    if events.len() > 0 {
        lemma_finished_is_final(config, status, events.drop_first());
        let rest = run(config, IngestState::Finished { status }, events.drop_first()).1;
        let all = run(config, IngestState::Finished { status }, events).1;
        assert(all == seq![IngestAction::Idle] + rest);
        assert forall|i: int| 0 <= i < all.len() implies !(#[trigger] all[i] is Insert) by {
            if i > 0 {
                assert(all[i] == rest[i - 1]);
            }
        }
    }
}

/// A report whose phrase differs from the configured one is answered with
/// 400 and no row is written, whatever happens afterwards.
pub proof fn lemma_wrong_phrase_writes_nothing(
    config: ServiceConfig,
    report: CoverageReport,
    later: Seq<IngestEvent>,
)
    requires
        report.secret_phrase@ != config.secret_phrase@,
    ensures
        ({
            let (s, actions) = run(
                config,
                IngestState::Received,
                seq![IngestEvent::Submitted(report)] + later,
            );
            &&& actions[0] == IngestAction::Respond(STATUS_BAD_REQUEST)
            &&& s == IngestState::Finished { status: STATUS_BAD_REQUEST }
            &&& writes_nothing(actions)
        }),
{
    lemma_rejection_writes_nothing(config, IngestEvent::Submitted(report), later);
}

/// A body that is not a well-formed report is answered with 400 and no row
/// is written, whatever happens afterwards.
pub proof fn lemma_malformed_writes_nothing(config: ServiceConfig, later: Seq<IngestEvent>)
    ensures
        ({
            let (s, actions) = run(
                config,
                IngestState::Received,
                seq![IngestEvent::Malformed] + later,
            );
            &&& actions[0] == IngestAction::Respond(STATUS_BAD_REQUEST)
            &&& s == IngestState::Finished { status: STATUS_BAD_REQUEST }
            &&& writes_nothing(actions)
        }),
{
    lemma_rejection_writes_nothing(config, IngestEvent::Malformed, later);
}

proof fn lemma_rejection_writes_nothing(
    config: ServiceConfig,
    first: IngestEvent,
    later: Seq<IngestEvent>,
)
    requires
        next(config, IngestState::Received, first) == rejected(),
    ensures
        ({
            let (s, actions) = run(config, IngestState::Received, seq![first] + later);
            &&& actions[0] == IngestAction::Respond(STATUS_BAD_REQUEST)
            &&& s == IngestState::Finished { status: STATUS_BAD_REQUEST }
            &&& writes_nothing(actions)
        }),
{
    let events = seq![first] + later;
    assert(events[0] == first);
    assert(events.drop_first() =~= later);
    lemma_finished_is_final(config, STATUS_BAD_REQUEST, later);
    let rest = run(config, IngestState::Finished { status: STATUS_BAD_REQUEST }, later).1;
    let all = run(config, IngestState::Received, events).1;
    assert(all == seq![IngestAction::Respond(STATUS_BAD_REQUEST)] + rest);
    assert forall|i: int| 0 <= i < all.len() implies !(#[trigger] all[i] is Insert) by {
        if i > 0 {
            assert(all[i] == rest[i - 1]);
        }
    }
}

/// The events of a request whose database work all succeeds.
pub open spec fn successful_events(report: CoverageReport, ms: u128) -> Seq<IngestEvent> {
    seq![
        IngestEvent::Submitted(report),
        IngestEvent::DatabaseOpened(true),
        IngestEvent::ClockRead(Some(ms)),
        IngestEvent::Connected(true),
        IngestEvent::Inserted(true),
    ]
}

/// An authorized report is written as one row stamped with the clock reading
/// taken during the request and holding the submitted percentage, and the
/// answer is 202.
pub proof fn lemma_authorized_report_is_recorded(
    config: ServiceConfig,
    report: CoverageReport,
    ms: u128,
)
    requires
        report.secret_phrase@ == config.secret_phrase@,
    ensures
        run(config, IngestState::Received, successful_events(report, ms)) == (
            IngestState::Finished { status: STATUS_ACCEPTED },
            seq![
                IngestAction::OpenDatabase {
                    url: config.turso_db_url,
                    auth_token: config.turso_auth_token,
                },
                IngestAction::ReadClock,
                IngestAction::Connect,
                IngestAction::Insert(
                    CoverageRecord {
                        timestamp_ms: timestamp_of(ms),
                        statement_percent_bits: report.statement_percent_bits,
                    },
                ),
                IngestAction::Respond(STATUS_ACCEPTED),
            ],
        ),
{
    let events = successful_events(report, ms);
    reveal_with_fuel(run, 6);
    assert(events.drop_first() =~= events.subrange(1, 5));
    assert(events.drop_first().drop_first() =~= events.subrange(2, 5));
    assert(events.subrange(2, 5).drop_first() =~= events.subrange(3, 5));
    assert(events.subrange(3, 5).drop_first() =~= events.subrange(4, 5));
    assert(events.subrange(4, 5).drop_first() =~= Seq::<IngestEvent>::empty());
    let record = CoverageRecord {
        timestamp_ms: timestamp_of(ms),
        statement_percent_bits: report.statement_percent_bits,
    };
    assert(run(config, IngestState::Inserting { record }, events.subrange(4, 5)).1 =~= seq![
        IngestAction::Respond(STATUS_ACCEPTED),
    ]);
    assert(run(config, IngestState::Connecting { record }, events.subrange(3, 5)).1 =~= seq![
        IngestAction::Insert(record),
        IngestAction::Respond(STATUS_ACCEPTED),
    ]);
    assert(run(
        config,
        IngestState::ReadingClock { statement_percent_bits: report.statement_percent_bits },
        events.subrange(2, 5),
    ).1 =~= seq![
        IngestAction::Connect,
        IngestAction::Insert(record),
        IngestAction::Respond(STATUS_ACCEPTED),
    ]);
    assert(run(
        config,
        IngestState::OpeningDatabase { statement_percent_bits: report.statement_percent_bits },
        events.subrange(1, 5),
    ).1 =~= seq![
        IngestAction::ReadClock,
        IngestAction::Connect,
        IngestAction::Insert(record),
        IngestAction::Respond(STATUS_ACCEPTED),
    ]);
    assert(run(config, IngestState::Received, events).1 =~= seq![
        IngestAction::OpenDatabase {
            url: config.turso_db_url,
            auth_token: config.turso_auth_token,
        },
        IngestAction::ReadClock,
        IngestAction::Connect,
        IngestAction::Insert(record),
        IngestAction::Respond(STATUS_ACCEPTED),
    ]);
}

/// The percentage that an authorized request in state `s` carries.
pub open spec fn carried_percent(s: IngestState) -> Option<u32> {
    match s {
        IngestState::OpeningDatabase { statement_percent_bits } => Some(statement_percent_bits),
        IngestState::ReadingClock { statement_percent_bits } => Some(statement_percent_bits),
        IngestState::Connecting { record } => Some(record.statement_percent_bits),
        IngestState::Inserting { record } => Some(record.statement_percent_bits),
        _ => None,
    }
}

/// Every row named in the sequence holds the percentage `bits`.
pub open spec fn rows_hold(actions: Seq<IngestAction>, bits: u32) -> bool {
    forall|i: int|
        0 <= i < actions.len() && #[trigger] actions[i] is Insert ==> actions[i]->Insert_0.statement_percent_bits
            == bits
}

/// At most one action in the sequence writes a row.
pub open spec fn at_most_one_row(actions: Seq<IngestAction>) -> bool {
    forall|i: int, j: int|
        0 <= i < actions.len() && 0 <= j < actions.len() && #[trigger] actions[i] is Insert
            && #[trigger] actions[j] is Insert ==> i == j
}

proof fn lemma_run_unfold(config: ServiceConfig, s: IngestState, events: Seq<IngestEvent>)
    requires
        events.len() > 0,
    ensures
        run(config, s, events).1 == seq![next(config, s, events[0]).1] + run(
            config,
            next(config, s, events[0]).0,
            events.drop_first(),
        ).1,
{
}

proof fn lemma_rows_hold_from(
    config: ServiceConfig,
    s: IngestState,
    events: Seq<IngestEvent>,
    bits: u32,
)
    requires
        s is Finished || carried_percent(s) == Some(bits),
    ensures
        rows_hold(run(config, s, events).1, bits),
        at_most_one_row(run(config, s, events).1),
    decreases events.len(),
{
    if let IngestState::Finished { status } = s {
        lemma_finished_is_final(config, status, events);
    } else if events.len() > 0 {
        let (s1, a) = next(config, s, events[0]);
        lemma_rows_hold_from(config, s1, events.drop_first(), bits);
        lemma_run_unfold(config, s, events);
        let rest = run(config, s1, events.drop_first()).1;
        let all = run(config, s, events).1;
        if a is Insert {
            assert(s1 is Inserting);
            if events.len() > 1 {
                let (s2, b) = next(config, s1, events[1]);
                assert(events.drop_first()[0] == events[1]);
                lemma_run_unfold(config, s1, events.drop_first());
                if let IngestState::Finished { status } = s2 {
                    lemma_finished_is_final(config, status, events.drop_first().drop_first());
                }
                assert(rest[0] == b);
                assert forall|k: int| 0 <= k < rest.len() implies !(#[trigger] rest[k] is Insert) by {
                    if k > 0 {
                        assert(rest[k] == run(config, s2, events.drop_first().drop_first()).1[k
                            - 1]);
                    }
                }
            }
        }
        assert forall|i: int| 0 <= i < all.len() && #[trigger] all[i] is Insert implies all[i]->Insert_0.statement_percent_bits
            == bits by {
            if i > 0 {
                assert(all[i] == rest[i - 1]);
            }
        }
        assert forall|i: int, j: int|
            0 <= i < all.len() && 0 <= j < all.len() && #[trigger] all[i] is Insert
                && #[trigger] all[j] is Insert implies i == j by {
            if i > 0 {
                assert(all[i] == rest[i - 1]);
            }
            if j > 0 {
                assert(all[j] == rest[j - 1]);
            }
        }
    }
}

/// Whatever happens after a report arrives, the request writes at most one
/// row, and any row it writes holds the percentage that was submitted.
pub proof fn lemma_rows_hold_submitted_percentage(
    config: ServiceConfig,
    report: CoverageReport,
    later: Seq<IngestEvent>,
)
    ensures
        rows_hold(
            run(config, IngestState::Received, seq![IngestEvent::Submitted(report)] + later).1,
            report.statement_percent_bits,
        ),
        at_most_one_row(
            run(config, IngestState::Received, seq![IngestEvent::Submitted(report)] + later).1,
        ),
{
    let events = seq![IngestEvent::Submitted(report)] + later;
    assert(events[0] == IngestEvent::Submitted(report));
    assert(events.drop_first() =~= later);
    lemma_run_unfold(config, IngestState::Received, events);
    let (s1, a) = next(config, IngestState::Received, events[0]);
    lemma_rows_hold_from(config, s1, later, report.statement_percent_bits);
    let rest = run(config, s1, later).1;
    let all = run(config, IngestState::Received, events).1;
    assert forall|i: int| 0 <= i < all.len() && #[trigger] all[i] is Insert implies all[i]->Insert_0.statement_percent_bits
        == report.statement_percent_bits by {
        if i > 0 {
            assert(all[i] == rest[i - 1]);
        }
    }
    assert forall|i: int, j: int|
        0 <= i < all.len() && 0 <= j < all.len() && #[trigger] all[i] is Insert
            && #[trigger] all[j] is Insert implies i == j by {
        if i > 0 {
            assert(all[i] == rest[i - 1]);
        }
        if j > 0 {
            assert(all[j] == rest[j - 1]);
        }
    }
}

/// An event that reports failed database or clock work.
pub open spec fn is_failure(e: IngestEvent) -> bool {
    match e {
        IngestEvent::DatabaseOpened(ok) => !ok,
        IngestEvent::ClockRead(ms) => ms is None,
        IngestEvent::Connected(ok) => !ok,
        IngestEvent::Inserted(ok) => !ok,
        _ => false,
    }
}

/// Once a request is authorized, a failure to open the database, read the
/// clock, connect or insert ends it with 500; the request is over and
/// nothing else is affected.
pub proof fn lemma_failure_answers_server_error(config: ServiceConfig, s: IngestState, e: IngestEvent)
    requires
        !(s is Received),
        !(s is Finished),
        is_failure(e),
    ensures
        next(config, s, e) == (
            IngestState::Finished { status: STATUS_INTERNAL_SERVER_ERROR },
            IngestAction::Respond(STATUS_INTERNAL_SERVER_ERROR),
        ),
        writes_nothing(seq![next(config, s, e).1]),
{
}

/// An authorized request whose work succeeds stores a timestamp inside any
/// window of milliseconds that holds the clock reading taken for it, as long
/// as the window ends below 2^64.
pub proof fn lemma_recorded_timestamp_in_window(
    config: ServiceConfig,
    report: CoverageReport,
    ms: u128,
    t_start: u128,
    t_end: u128,
)
    requires
        report.secret_phrase@ == config.secret_phrase@,
        t_start <= ms <= t_end,
        t_end < 0x1_0000_0000_0000_0000,
    ensures
        ({
            let actions = run(config, IngestState::Received, successful_events(report, ms)).1;
            &&& actions[3] is Insert
            &&& t_start <= actions[3]->Insert_0.timestamp_ms <= t_end
            &&& actions[4] == IngestAction::Respond(STATUS_ACCEPTED)
        }),
{
    lemma_authorized_report_is_recorded(config, report, ms);
    assert(ms % 0x1_0000_0000_0000_0000 == ms);
}

/// The statement that writes one row, with the timestamp and the percentage
/// bound as its two parameters.
pub fn insert_statement() -> (r: &'static str)
    ensures
        r@ == "INSERT INTO code_coverage VALUES (?1, ?2)"@,
{
    proof {
        reveal_strlit("INSERT INTO code_coverage VALUES (?1, ?2)");
    }
    "INSERT INTO code_coverage VALUES (?1, ?2)"
}

/// Exact comparison of a submitted phrase with the configured one.
pub fn authorize(given: &String, configured: &String) -> (r: bool)
    ensures
        r == authorized(given@, configured@),
{
    <String as PartialEq>::eq(given, configured)
}

/// The stored timestamp for a clock reading: its low 64 bits.
pub fn timestamp_from_epoch_ms(ms: u128) -> (r: u64)
    ensures
        r == timestamp_of(ms),
{
    (ms % 0x1_0000_0000_0000_0000u128) as u64
}

fn server_error() -> (r: (IngestState, IngestAction))
    ensures
        r == failed(),
{
    (
        IngestState::Finished { status: STATUS_INTERNAL_SERVER_ERROR },
        IngestAction::Respond(STATUS_INTERNAL_SERVER_ERROR),
    )
}

impl IngestState {
    /// The state of a request that has just arrived.
    pub fn new() -> (r: IngestState)
        ensures
            r == IngestState::Received,
    {
        IngestState::Received
    }

    /// Takes the outcome of the last piece of work and names the next one.
    pub fn step(self, config: &ServiceConfig, event: IngestEvent) -> (r: (
        IngestState,
        IngestAction,
    ))
        ensures
            r == next(*config, self, event),
    {
        match self {
            IngestState::Received => match event {
                IngestEvent::Submitted(report) => {
                    if authorize(&report.secret_phrase, &config.secret_phrase) {
                        (
                            IngestState::OpeningDatabase {
                                statement_percent_bits: report.statement_percent_bits,
                            },
                            IngestAction::OpenDatabase {
                                url: config.turso_db_url.clone(),
                                auth_token: config.turso_auth_token.clone(),
                            },
                        )
                    } else {
                        (
                            IngestState::Finished { status: STATUS_BAD_REQUEST },
                            IngestAction::Respond(STATUS_BAD_REQUEST),
                        )
                    }
                },
                IngestEvent::Malformed => (
                    IngestState::Finished { status: STATUS_BAD_REQUEST },
                    IngestAction::Respond(STATUS_BAD_REQUEST),
                ),
                _ => server_error(),
            },
            IngestState::OpeningDatabase { statement_percent_bits } => match event {
                IngestEvent::DatabaseOpened(true) => (
                    IngestState::ReadingClock { statement_percent_bits },
                    IngestAction::ReadClock,
                ),
                _ => server_error(),
            },
            IngestState::ReadingClock { statement_percent_bits } => match event {
                IngestEvent::ClockRead(Some(ms)) => (
                    IngestState::Connecting {
                        record: CoverageRecord {
                            timestamp_ms: timestamp_from_epoch_ms(ms),
                            statement_percent_bits,
                        },
                    },
                    IngestAction::Connect,
                ),
                _ => server_error(),
            },
            IngestState::Connecting { record } => match event {
                IngestEvent::Connected(true) => (
                    IngestState::Inserting { record },
                    IngestAction::Insert(record),
                ),
                _ => server_error(),
            },
            IngestState::Inserting { record } => match event {
                IngestEvent::Inserted(true) => (
                    IngestState::Finished { status: STATUS_ACCEPTED },
                    IngestAction::Respond(STATUS_ACCEPTED),
                ),
                _ => server_error(),
            },
            IngestState::Finished { .. } => (self, IngestAction::Idle),
        }
    }
}

} // verus!
