//! Processors: the per-event-type plans that turn a gateway event into a
//! normalized event, and the rules by which a split processor coordinates
//! its audit-log writer with the readers among its field sources.

use vstd::prelude::*;
use crate::event::{EventSource, EventWithSource, FieldValues, GatewayEvent, NormalizedEvent, origin_spec};
use crate::latch::{AuditLogLatch, CombinedAuditLogEntry, LatchRead, LatchState, read_spec};

verus! {

/// Why the processing of an event halted.
pub enum ProcessingError {
    /// No processor is registered for the event type.
    SubProcessorNotFound(String),
    /// Sourcing failed beyond recovery; the cause's description.
    FatalSourceError(String),
    /// A processor chose to drop the event.
    Drop,
    /// A required field reads the audit log, and no entry was sourced for
    /// this event type.
    NoAuditLogEntry(String),
}

impl ProcessingError {
    /// Whether the error marks a case that should be logged: every kind but
    /// `Drop`.
    pub fn is_unexpected(&self) -> (r: bool)
        ensures
            r == !(self is Drop),
    {
        match self {
            ProcessingError::Drop => false,
            _ => true,
        }
    }
}

/// A processor that runs one source per output field, with an optional
/// audit-log source whose result the audit-log readers among the fields
/// wait for. `F` is the bundle of field sources, `A` the audit-log source.
pub struct SplitProcessor<F, A> {
    fields: F,
    audit_log: Option<A>,
}

/// The plan for one event type: split into field sources, or a single
/// source `D` that yields the whole normalized event without an audit log.
pub enum Processor<F, A, D> {
    Split(SplitProcessor<F, A>),
    Direct(D),
}

/// The latch state in which a split processor starts its sources.
pub open spec fn begin_spec<F, A>(p: SplitProcessor<F, A>) -> LatchState {
    if p.declares_audit_log() {
        LatchState::Writing
    } else {
        LatchState::Empty
    }
}

/// The latch state after the audit-log loader of `p` ended with `outcome` on
/// a latch in state `s`.
pub open spec fn loaded_spec<F, A>(
    p: SplitProcessor<F, A>,
    s: LatchState,
    outcome: Result<Option<CombinedAuditLogEntry>, ProcessingError>,
) -> LatchState {
    if p.declares_audit_log() && s is Writing {
        match outcome {
            Ok(entry) => LatchState::Installed(entry),
            Err(_) => LatchState::Installed(None),
        }
    } else {
        s
    }
}

/// What an audit-log reader of an event of type `event_type` gets from a
/// latch in state `s`: nothing while it must wait, else the entry's JSON or
/// `NoAuditLogEntry`.
pub open spec fn audit_log_read_spec(s: LatchState, event_type: String) -> Option<
    Result<serde_json::Value, ProcessingError>,
> {
    match read_spec(s) {
        None => None,
        Some(None) => Some(Err(ProcessingError::NoAuditLogEntry(event_type))),
        Some(Some(entry)) => Some(Ok(entry.json)),
    }
}

/// The entry that a latch in state `s` yields once every task is joined.
pub open spec fn final_entry(s: LatchState) -> Option<CombinedAuditLogEntry> {
    match s {
        LatchState::Installed(e) => e,
        _ => None,
    }
}

/// The normalized event assembled from an event, its payload, the values of
/// the field sources and the captured audit-log entry.
pub open spec fn assembled(
    event: GatewayEvent,
    json: serde_json::Value,
    fields: FieldValues,
    entry: Option<CombinedAuditLogEntry>,
) -> NormalizedEvent {
    let source = EventSource {
        gateway: Some(json),
        audit_log: match entry {
            Some(e) => Some(e.json),
            None => None,
        },
    };
    NormalizedEvent {
        id_params: fields.id_params,
        timestamp: fields.timestamp,
        source,
        origin: origin_spec(source),
        event_type: fields.event_type,
        guild_id: event.guild_id,
        reason: fields.reason,
        audit_log_id: match entry {
            Some(e) => Some(e.id),
            None => None,
        },
        channel: fields.channel,
        agent: fields.agent,
        subject: fields.subject,
        auxiliary: fields.auxiliary,
        content: fields.content,
    }
}

/// The result of a split processor's run, from the event, the joined result
/// of its tasks and the final state of its latch.
pub open spec fn assemble_spec(
    event: EventWithSource,
    joined: Result<FieldValues, ProcessingError>,
    latch: LatchState,
) -> Result<NormalizedEvent, ProcessingError> {
    match joined {
        Err(e) => Err(e),
        Ok(fields) => Ok(assembled(event.event(), event.json(), fields, final_entry(latch))),
    }
}

impl<F, A> SplitProcessor<F, A> {
    pub closed spec fn field_sources(&self) -> F {
        self.fields
    }

    pub closed spec fn audit_log_source(&self) -> Option<A> {
        self.audit_log
    }

    pub open spec fn declares_audit_log(&self) -> bool {
        self.audit_log_source() is Some
    }

    pub fn new(fields: F, audit_log: Option<A>) -> (r: SplitProcessor<F, A>)
        ensures
            r.field_sources() == fields,
            r.audit_log_source() == audit_log,
    {
        SplitProcessor { fields, audit_log }
    }

    /// The field sources.
    pub fn fields(&self) -> (r: &F)
        ensures
            *r == self.field_sources(),
    {
        &self.fields
    }

    /// The audit-log source, where one is declared.
    pub fn audit_log(&self) -> (r: Option<&A>)
        ensures
            match r {
                Some(a) => self.audit_log_source() == Some(*a),
                None => self.audit_log_source() is None,
            },
    {
        match &self.audit_log {
            Some(a) => Some(a),
            None => None,
        }
    }

    /// The latch for one run, made before any source starts: where an
    /// audit-log source is declared the writer is already acquired, so that
    /// every reader waits for it.
    pub fn begin(&self) -> (r: AuditLogLatch)
        ensures
            r.state() == begin_spec(*self),
    {
        let mut latch = AuditLogLatch::new();
        if self.audit_log.is_some() {
            latch.acquire_writer();
        }
        latch
    }

    /// Ends the audit-log loader with the outcome of the audit-log source:
    /// installs the entry (or none) and releases; on an error the latch is
    /// released empty and the error returned.
    pub fn finish_audit_log_load(
        &self,
        latch: &mut AuditLogLatch,
        outcome: Result<Option<CombinedAuditLogEntry>, ProcessingError>,
    ) -> (r: Result<(), ProcessingError>)
        ensures
            final(latch).state() == loaded_spec(*self, old(latch).state(), outcome),
            !self.declares_audit_log() ==> r is Ok,
            self.declares_audit_log() ==> r == match outcome {
                Ok(_) => Ok::<(), ProcessingError>(()),
                Err(e) => Err(e),
            },
    {
        if self.audit_log.is_none() {
            return Ok(());
        }
        match outcome {
            Ok(entry) => {
                latch.install(entry);
                Ok(())
            },
            Err(e) => {
                latch.release();
                Err(e)
            },
        }
    }

    /// Assembles the normalized event once every task of the run is joined;
    /// any failed task fails the run, and no event is made.
    pub fn assemble(
        &self,
        event: EventWithSource,
        joined: Result<FieldValues, ProcessingError>,
        latch: AuditLogLatch,
    ) -> (r: Result<NormalizedEvent, ProcessingError>)
        ensures
            r == assemble_spec(event, joined, latch.state()),
    {
        match joined {
            Err(e) => Err(e),
            Ok(fields) => {
                let (gateway_event, json) = event.into_parts();
                let entry = latch.into_entry();
                let (audit_log_id, audit_log_json) = match entry {
                    Some(combined) => (Some(combined.id), Some(combined.json)),
                    None => (None, None),
                };
                let source = EventSource { gateway: Some(json), audit_log: audit_log_json };
                let origin = source.origin();
                let FieldValues {
                    event_type,
                    id_params,
                    timestamp,
                    reason,
                    channel,
                    agent,
                    subject,
                    auxiliary,
                    content,
                } = fields;
                Ok(
                    NormalizedEvent {
                        id_params,
                        timestamp,
                        source,
                        origin,
                        event_type,
                        guild_id: gateway_event.guild_id,
                        reason,
                        audit_log_id,
                        channel,
                        agent,
                        subject,
                        auxiliary,
                        content,
                    },
                )
            },
        }
    }
}

/// What an audit-log reader of an event of type `event_type` gets: `None`
/// while the writer holds the latch (wait and read again), else the
/// entry's JSON, or `NoAuditLogEntry` where none was installed.
pub fn read_audit_log<'a>(latch: &'a AuditLogLatch, event_type: &String) -> (r: Option<
    Result<&'a serde_json::Value, ProcessingError>,
>)
    ensures
        match audit_log_read_spec(latch.state(), *event_type) {
            None => r is None,
            Some(Ok(json)) => r == Some(Ok::<&serde_json::Value, ProcessingError>(&json)),
            Some(Err(e)) => r == Some(Err::<&serde_json::Value, ProcessingError>(e)),
        },
{
    match latch.read() {
        LatchRead::Blocked => None,
        LatchRead::Ready(None) => Some(Err(ProcessingError::NoAuditLogEntry(event_type.clone()))),
        LatchRead::Ready(Some(entry)) => Some(Ok(&entry.json)),
    }
}

impl<F, A, D> Processor<F, A, D> {
    /// Whether running the processor fetches an audit-log entry.
    pub fn uses_audit_log(&self) -> (r: bool)
        ensures
            r == match self {
                Processor::Split(p) => p.declares_audit_log(),
                Processor::Direct(_) => false,
            },
    {
        match self {
            Processor::Split(p) => p.audit_log().is_some(),
            Processor::Direct(_) => false,
        }
    }
}

/// Single writer before readers: a split processor that declares an
/// audit-log source starts its sources on a latch that no reader can
/// observe, and once the loader ends, whatever its outcome, every reader
/// observes exactly what the writer installed.
pub proof fn readers_wait_for_the_writer<F, A>(
    p: SplitProcessor<F, A>,
    outcome: Result<Option<CombinedAuditLogEntry>, ProcessingError>,
)
    requires
        p.declares_audit_log(),
    ensures
        read_spec(begin_spec(p)) is None,
        read_spec(loaded_spec(p, begin_spec(p), outcome)) == Some(
            match outcome {
                Ok(entry) => entry,
                Err(_) => None,
            },
        ),
{
}

/// Absence of an audit-log entry: where a split processor declares an
/// audit-log source and that source finds no match (or the loader fails or
/// is cancelled, releasing the latch empty), every audit-log reader fails
/// with `NoAuditLogEntry` for the event's type, and the run yields no
/// normalized event.
pub proof fn missing_audit_log_entry_fails<F, A>(
    p: SplitProcessor<F, A>,
    event: EventWithSource,
    failure: ProcessingError,
)
    requires
        p.declares_audit_log(),
    ensures
        audit_log_read_spec(loaded_spec(p, begin_spec(p), Err(failure)), event.event().event_type) == Some(
            Err::<serde_json::Value, ProcessingError>(
                ProcessingError::NoAuditLogEntry(event.event().event_type),
            ),
        ),
        audit_log_read_spec(loaded_spec(p, begin_spec(p), Ok(None)), event.event().event_type) == Some(
            Err::<serde_json::Value, ProcessingError>(
                ProcessingError::NoAuditLogEntry(event.event().event_type),
            ),
        ),
        assemble_spec(
            event,
            Err(ProcessingError::NoAuditLogEntry(event.event().event_type)),
            loaded_spec(p, begin_spec(p), Ok(None)),
        ) is Err,
{
}

/// Fail-fast: where any task of a run fails, the run's result is that error
/// and no normalized event is made.
pub proof fn failed_task_fails_the_run(event: EventWithSource, e: ProcessingError, latch: LatchState)
    ensures
        assemble_spec(event, Err(e), latch) == Err::<NormalizedEvent, ProcessingError>(e),
{
}

/// Determinism of assembly: the same event, task results and latch state
/// give the same normalized event; in it `audit_log_id` is present exactly
/// when the audit-log fragment is, and the origin follows from which
/// fragments are present.
pub proof fn assembly_is_deterministic(
    event: EventWithSource,
    joined: Result<FieldValues, ProcessingError>,
    latch: LatchState,
    event2: EventWithSource,
    joined2: Result<FieldValues, ProcessingError>,
    latch2: LatchState,
)
    requires
        event == event2,
        joined == joined2,
        latch == latch2,
    ensures
        assemble_spec(event, joined, latch) == assemble_spec(event2, joined2, latch2),
        assemble_spec(event, joined, latch) is Ok ==> {
            let n = assemble_spec(event, joined, latch)->Ok_0;
            &&& n.audit_log_id is Some <==> n.source.audit_log is Some
            &&& n.source.gateway is Some
            &&& n.origin == origin_spec(n.source)
            &&& n.guild_id == event.event().guild_id
        },
{
}

} // verus!
