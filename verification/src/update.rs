//! One update cycle: the request it sends, what the provider may answer, and
//! what is logged and done next at each turn.

use vstd::prelude::*;
use vstd::string::*;
use crate::address::{parse_ipv4, parsed, Ipv4Address};
use crate::error::ErrorKind;

verus! {

/// The type of the DNS record that is kept up to date.
#[derive(Clone, Copy, Debug, PartialEq, Eq, Structural)]
pub enum RecordKind {
    /// An IPv4 address record.
    A,
}

/// The time-to-live that the provider reads as "automatic".
pub const AUTOMATIC_TTL: u32 = 1;

/// A request to set one DNS record.
#[derive(Clone, Debug, PartialEq, Eq)]
pub struct UpdateRequest {
    pub record_id: String,
    pub zone_id: String,
    pub name: String,
    pub kind: RecordKind,
    pub address: Ipv4Address,
    pub ttl: u32,
    pub proxied: bool,
}

/// A key with its value, as the provider adds them to its error reports.
#[derive(Clone, Debug, PartialEq, Eq)]
pub struct Detail {
    pub key: String,
    pub value: String,
}

/// One error of the provider's report.
#[derive(Clone, Debug, PartialEq, Eq)]
pub struct ApiError {
    pub code: u16,
    pub message: String,
    pub other: Vec<Detail>,
}

/// What came of submitting an update.
#[derive(Clone, Debug, PartialEq, Eq)]
pub enum UpdateOutcome {
    /// The provider accepted the update; the payload is the record as it
    /// now stands, in the provider's words.
    Success(String),
    /// The provider answered with an HTTP status and a report of errors.
    Rejected { status: u16, errors: Vec<ApiError>, other: Vec<Detail> },
    /// The request did not get through; the payload is the transport's
    /// account of why.
    TransportFailure(String),
}

/// How loud a log entry is.
#[derive(Clone, Copy, Debug, PartialEq, Eq, Structural)]
pub enum Level {
    Debug,
    Info,
    Warn,
}

/// What a log entry says.
#[derive(Clone, Debug, PartialEq, Eq)]
pub enum Message {
    /// The public address that the lookup found.
    AddressDetected(Ipv4Address),
    /// The record as the provider returned it.
    UpdateAccepted(String),
    /// The HTTP status of a rejected update.
    HttpStatus(u16),
    /// One error of a rejected update.
    ProviderError { code: u16, message: String },
    /// One key with its value from a rejected update.
    Detail { key: String, value: String },
    /// Why the request to the provider did not get through.
    TransportError(String),
    /// The cycle ended before anything was submitted.
    CycleFailed { kind: ErrorKind, detail: String },
    /// The cycle is over and the updater pauses for so many seconds.
    Sleeping(u64),
}

/// One line for the log.
#[derive(Clone, Debug, PartialEq, Eq)]
pub struct LogEntry {
    pub level: Level,
    pub message: Message,
}

/// What the world reports back to the updater.
#[derive(Clone, Debug, PartialEq, Eq)]
pub enum Event {
    /// The process has started, or a pause is over.
    Wake,
    /// The address lookup answered with this body.
    AddressReceived(String),
    /// The address lookup could not complete its request.
    LookupFailed(String),
    /// The provider's client returned from submitting the update.
    ProviderAnswered(UpdateOutcome),
}

/// What the updater wants done next.
#[derive(Clone, Debug, PartialEq, Eq)]
pub enum Action {
    /// Ask the address lookup for the public address.
    LookUpAddress,
    /// Submit this request to the provider.
    Submit(UpdateRequest),
    /// Pause for so many seconds.
    Sleep(u64),
}

/// The updater's answer to an event: what to log, then what to do.
#[derive(Clone, Debug, PartialEq, Eq)]
pub struct Reaction {
    pub log: Vec<LogEntry>,
    pub action: Action,
}

/// The record that is kept up to date and the pause between two cycles.
/// Nothing else is carried from one cycle to the next.
#[derive(Clone, Debug, PartialEq, Eq)]
pub struct Updater {
    pub record_id: String,
    pub record_name: String,
    pub zone_id: String,
    pub interval: u64,
}

/// The request that sets the named record to `address`: type A, automatic
/// time-to-live, not proxied.
pub open spec fn request_for(
    record_id: String,
    record_name: String,
    zone_id: String,
    address: Ipv4Address,
) -> UpdateRequest {
    UpdateRequest {
        record_id,
        zone_id,
        name: record_name,
        kind: RecordKind::A,
        address,
        ttl: 1,
        proxied: false,
    }
}

/// A warning that says `message`.
pub open spec fn warning(message: Message) -> LogEntry {
    LogEntry { level: Level::Warn, message }
}

/// The warning for one key with its value.
pub open spec fn detail_entry(detail: Detail) -> LogEntry {
    warning(Message::Detail { key: detail.key, value: detail.value })
}

/// One warning for each key with its value, in their order.
pub open spec fn detail_entries(details: Seq<Detail>) -> Seq<LogEntry> {
    details.map_values(|d: Detail| detail_entry(d))
}

/// The warnings for one error: its code and message, then its details.
pub open spec fn error_entries(error: ApiError) -> Seq<LogEntry> {
    seq![warning(Message::ProviderError { code: error.code, message: error.message })]
        + detail_entries(error.other@)
}

/// The warnings for a list of errors, error by error in their order.
pub open spec fn errors_entries(errors: Seq<ApiError>) -> Seq<LogEntry>
    decreases errors.len(),
{
    if errors.len() == 0 {
        Seq::empty()
    } else {
        errors_entries(errors.drop_last()) + error_entries(errors.last())
    }
}

/// What is logged for an outcome. A success is one debug entry with the
/// returned record. A rejection is the status, then each error with its
/// details, then the report's own details, all as warnings. A transport
/// failure is one warning.
pub open spec fn outcome_entries(outcome: UpdateOutcome) -> Seq<LogEntry> {
    match outcome {
        UpdateOutcome::Success(record) => seq![
            LogEntry { level: Level::Debug, message: Message::UpdateAccepted(record) },
        ],
        UpdateOutcome::Rejected { status, errors, other } => seq![
            warning(Message::HttpStatus(status)),
        ] + errors_entries(errors@) + detail_entries(other@),
        UpdateOutcome::TransportFailure(reason) => seq![warning(Message::TransportError(reason))],
    }
}

/// The kind of failure that an outcome stands for, if it is one.
pub open spec fn outcome_failure(outcome: UpdateOutcome) -> Option<ErrorKind> {
    match outcome {
        UpdateOutcome::Success(_) => None,
        _ => Some(ErrorKind::ProviderError),
    }
}

/// The bytes of a text.
pub open spec fn bytes_of(text: String) -> Seq<u8> {
    vstd::utf8::encode_utf8(text@)
}

/// What the updater logs in answer to an event.
pub open spec fn reaction_log(updater: Updater, event: Event) -> Seq<LogEntry> {
    match event {
        Event::Wake => Seq::empty(),
        Event::AddressReceived(body) => match parsed(bytes_of(body)) {
            Ok(address) => seq![
                LogEntry { level: Level::Info, message: Message::AddressDetected(address) },
            ],
            Err(kind) => seq![warning(Message::CycleFailed { kind, detail: body })],
        },
        Event::LookupFailed(reason) => seq![
            warning(Message::CycleFailed { kind: ErrorKind::NetworkError, detail: reason }),
        ],
        Event::ProviderAnswered(outcome) => outcome_entries(outcome).push(
            LogEntry { level: Level::Info, message: Message::Sleeping(updater.interval) },
        ),
    }
}

/// What the updater wants done in answer to an event.
pub open spec fn reaction_action(updater: Updater, event: Event) -> Action {
    match event {
        Event::Wake => Action::LookUpAddress,
        Event::AddressReceived(body) => match parsed(bytes_of(body)) {
            Ok(address) => Action::Submit(
                request_for(updater.record_id, updater.record_name, updater.zone_id, address),
            ),
            Err(_) => Action::Sleep(updater.interval),
        },
        Event::LookupFailed(_) => Action::Sleep(updater.interval),
        Event::ProviderAnswered(_) => Action::Sleep(updater.interval),
    }
}

/// Whether an event ends its cycle, so that the updater pauses next.
pub open spec fn ends_cycle(event: Event) -> bool {
    match event {
        Event::Wake => false,
        Event::AddressReceived(body) => parsed(bytes_of(body)) is Err,
        Event::LookupFailed(_) => true,
        Event::ProviderAnswered(_) => true,
    }
}

/// Builds the request that sets the named record to `address`.
pub fn build_update_request(
    record_id: String,
    record_name: String,
    zone_id: String,
    address: Ipv4Address,
) -> (r: UpdateRequest)
    ensures
        r == request_for(record_id, record_name, zone_id, address),
        r.kind == RecordKind::A,
        r.ttl == 1,
        !r.proxied,
        r.address == address,
{
    UpdateRequest {
        record_id,
        zone_id,
        name: record_name,
        kind: RecordKind::A,
        address,
        ttl: AUTOMATIC_TTL,
        proxied: false,
    }
}

fn warn(message: Message) -> (r: LogEntry)
    ensures
        r == warning(message),
{
    LogEntry { level: Level::Warn, message }
}

fn push_details(out: &mut Vec<LogEntry>, details: &Vec<Detail>)
    ensures
        final(out)@ == old(out)@ + detail_entries(details@),
{
    let ghost before = out@;
    let mut i: usize = 0;
    while i < details.len()
        invariant
            i <= details@.len(),
            out@ =~= before + detail_entries(details@.take(i as int)),
        decreases details@.len() - i,
    {
        let detail = &details[i];
        out.push(warn(Message::Detail { key: detail.key.clone(), value: detail.value.clone() }));
        i += 1;
    }
    proof {
        assert(details@.take(i as int) =~= details@);
    }
}

fn push_errors(out: &mut Vec<LogEntry>, errors: &Vec<ApiError>)
    ensures
        final(out)@ == old(out)@ + errors_entries(errors@),
{
    let ghost before = out@;
    let mut i: usize = 0;
    while i < errors.len()
        invariant
            i <= errors@.len(),
            out@ =~= before + errors_entries(errors@.take(i as int)),
        decreases errors@.len() - i,
    {
        let error = &errors[i];
        out.push(warn(Message::ProviderError { code: error.code, message: error.message.clone() }));
        push_details(out, &error.other);
        proof {
            assert(errors@.take(i + 1).drop_last() =~= errors@.take(i as int));
            assert(errors@.take(i + 1).last() == errors@[i as int]);
        }
        i += 1;
    }
    proof {
        assert(errors@.take(i as int) =~= errors@);
    }
}

/// Says whether an outcome is a failure, and of which kind.
pub fn classify_outcome(outcome: &UpdateOutcome) -> (r: Option<ErrorKind>)
    ensures
        r == outcome_failure(*outcome),
{
    match outcome {
        UpdateOutcome::Success(_) => None,
        _ => Some(ErrorKind::ProviderError),
    }
}

/// Lists what is to be logged for an outcome, in order.
pub fn report_outcome(outcome: &UpdateOutcome) -> (r: Vec<LogEntry>)
    ensures
        r@ == outcome_entries(*outcome),
{
    let mut out: Vec<LogEntry> = Vec::new();
    match outcome {
        UpdateOutcome::Success(record) => {
            out.push(LogEntry { level: Level::Debug, message: Message::UpdateAccepted(record.clone()) });
        },
        UpdateOutcome::Rejected { status, errors, other } => {
            out.push(warn(Message::HttpStatus(*status)));
            push_errors(&mut out, errors);
            push_details(&mut out, other);
        },
        UpdateOutcome::TransportFailure(reason) => {
            out.push(warn(Message::TransportError(reason.clone())));
        },
    }
    assert(out@ =~= outcome_entries(*outcome));
    out
}

impl Updater {
    /// Reads the lookup's answer and builds the update from it: the request
    /// for the address that `body` spells, a parse error where it spells none.
    pub fn plan_update(&self, body: &str) -> (r: Result<UpdateRequest, ErrorKind>)
        ensures
            r == match parsed(body.spec_bytes()) {
                Ok(address) => Ok(
                    request_for(self.record_id, self.record_name, self.zone_id, address),
                ),
                Err(kind) => Err(kind),
            },
            r is Err ==> r->Err_0 == ErrorKind::ParseError,
    {
        match parse_ipv4(body) {
            Ok(address) => Ok(
                build_update_request(
                    self.record_id.clone(),
                    self.record_name.clone(),
                    self.zone_id.clone(),
                    address,
                ),
            ),
            Err(kind) => Err(kind),
        }
    }

    /// Answers an event with what to log and what to do next.
    ///
    /// Waking starts a cycle with the address lookup. The lookup's answer
    /// leads to the submission of the update, or ends the cycle where it
    /// spells no address. A failed lookup and every answer of the provider
    /// end the cycle. A cycle that ends is followed by the configured pause,
    /// whatever ended it.
    pub fn react(&self, event: Event) -> (r: Reaction)
        ensures
            r.log@ == reaction_log(*self, event),
            r.action == reaction_action(*self, event),
            ends_cycle(event) <==> r.action == Action::Sleep(self.interval),
    {
        let mut log: Vec<LogEntry> = Vec::new();
        match event {
            Event::Wake => {
                assert(log@ =~= reaction_log(*self, event));
                Reaction { log, action: Action::LookUpAddress }
            },
            Event::AddressReceived(body) => match self.plan_update(body.as_str()) {
                Ok(request) => {
                    log.push(
                        LogEntry {
                            level: Level::Info,
                            message: Message::AddressDetected(request.address),
                        },
                    );
                    assert(log@ =~= reaction_log(*self, event));
                    Reaction { log, action: Action::Submit(request) }
                },
                Err(kind) => {
                    log.push(warn(Message::CycleFailed { kind, detail: body }));
                    assert(log@ =~= reaction_log(*self, event));
                    Reaction { log, action: Action::Sleep(self.interval) }
                },
            },
            Event::LookupFailed(reason) => {
                log.push(
                    warn(Message::CycleFailed { kind: ErrorKind::NetworkError, detail: reason }),
                );
                assert(log@ =~= reaction_log(*self, event));
                Reaction { log, action: Action::Sleep(self.interval) }
            },
            Event::ProviderAnswered(outcome) => {
                let mut log = report_outcome(&outcome);
                log.push(LogEntry { level: Level::Info, message: Message::Sleeping(self.interval) });
                Reaction { log, action: Action::Sleep(self.interval) }
            },
        }
    }
}

/// Whatever the provider answers, the cycle ends in the configured pause, and
/// the wake-up after it starts the next cycle with a fresh address lookup.
pub proof fn lemma_loop_continues(updater: Updater, outcome: UpdateOutcome)
    ensures
        reaction_action(updater, Event::ProviderAnswered(outcome)) == Action::Sleep(
            updater.interval,
        ),
        reaction_action(updater, Event::Wake) == Action::LookUpAddress,
{
}

/// Every event that ends a cycle is answered with the same pause, and no
/// event is answered with any other pause.
pub proof fn lemma_pause_is_fixed(updater: Updater, event: Event)
    ensures
        ends_cycle(event) ==> reaction_action(updater, event) == Action::Sleep(updater.interval),
        reaction_action(updater, event) is Sleep ==> reaction_action(updater, event)
            == Action::Sleep(updater.interval),
{
}

/// A rejection with one error and no details is logged as its status and
/// then exactly that error's code and message.
pub proof fn lemma_single_error_log(status: u16, error: ApiError, errors: Vec<ApiError>, other: Vec<Detail>)
    requires
        errors@ == seq![error],
        error.other@.len() == 0,
        other@.len() == 0,
    ensures
        outcome_entries(UpdateOutcome::Rejected { status, errors, other }) == seq![
            warning(Message::HttpStatus(status)),
            warning(Message::ProviderError { code: error.code, message: error.message }),
        ],
{
    assert(errors@.drop_last().len() == 0);
    assert(errors_entries(errors@) =~= error_entries(error)) by {
        reveal_with_fuel(errors_entries, 3);
    }
    assert(outcome_entries(UpdateOutcome::Rejected { status, errors, other }) =~= seq![
        warning(Message::HttpStatus(status)),
        warning(Message::ProviderError { code: error.code, message: error.message }),
    ]);
}

} // verus!
