//! The course of one run, as a state machine.
//!
//! A run makes up to three calls on the outside world, in a fixed order: it
//! builds an authenticated client, lists the records of the zone, and
//! updates the record that was located. This module decides what follows
//! each answer. The caller performs the [`Action`] it is handed and reports
//! what came of it as an [`Event`]; [`step`] then names the next state and
//! the next action. Every failure ends the run at once: nothing is retried
//! and nothing is recovered from.

use vstd::prelude::*;
use crate::locator::{eligible, listing_for, located, none_eligible};
use crate::locator::{find_dns_record_by_name, list_request, ListDnsRecords, ListDnsRecordsView};
use crate::locator::{lemma_located_is_a_record, lemma_located_none_iff_none_eligible};
use crate::record::{record_views, DnsContentView, DnsRecord, DnsRecordView, Ipv4Address};
use crate::updater::{update_for, update_request, UpdateDnsRecord, UpdateDnsRecordView};

verus! {

/// What the caller supplies for a run.
#[derive(Clone, Debug, PartialEq, Eq)]
pub struct Opts {
    /// The provider's API token.
    pub token: String,
    /// The identifier of the zone.
    pub zone: String,
    /// The name of the DNS record.
    pub name: String,
    /// The address that the record is to point at.
    pub ip: Ipv4Address,
}

/// The mathematical view of a [`Opts`], over which contracts are stated.
pub struct OptsView {
    pub token: Seq<char>,
    pub zone: Seq<char>,
    pub name: Seq<char>,
    pub ip: Ipv4Address,
}

impl View for Opts {
    type V = OptsView;

    open spec fn view(&self) -> OptsView {
        OptsView { token: self.token@, zone: self.zone@, name: self.name@, ip: self.ip }
    }
}

/// An error that the provider reported inside a response.
#[derive(Clone, Debug, PartialEq, Eq)]
pub struct ProviderError {
    pub code: u16,
    pub message: String,
}

/// The mathematical view of a [`ProviderError`], over which contracts are stated.
pub struct ProviderErrorView {
    pub code: u16,
    pub message: Seq<char>,
}

impl View for ProviderError {
    type V = ProviderErrorView;

    open spec fn view(&self) -> ProviderErrorView {
        ProviderErrorView { code: self.code, message: self.message@ }
    }
}

/// The views of the errors of a response, in the response's order.
pub open spec fn error_views(errors: Seq<ProviderError>) -> Seq<ProviderErrorView> {
    Seq::new(errors.len(), |i: int| errors[i]@)
}

/// The two requests that a run sends to the provider.
#[derive(Clone, Copy, Debug, PartialEq, Eq, Structural)]
pub enum Call {
    /// Listing the records of the zone.
    List,
    /// Updating the located record.
    Update,
}

/// Where a run stands.
#[derive(Clone, Copy, Debug, PartialEq, Eq, Structural)]
pub enum State {
    /// Nothing has happened yet: the client is being built.
    Start,
    /// The client is there: the records are being listed.
    ClientBuilt,
    /// The record was located: it is being updated.
    RecordFound,
    /// The record was updated. The run has succeeded.
    Updated,
    /// The update request failed. The run has failed.
    UpdateFailed,
    /// The listing held no eligible record. The run has failed.
    RecordNotFound,
    /// The list request failed. The run has failed.
    ListFailed,
    /// The client could not be built. The run has failed.
    ClientBuildFailed,
}

impl State {
    /// The run is over in this state: no call is due, and no event awaited.
    pub open spec fn spec_is_terminal(self) -> bool {
        !(self is Start || self is ClientBuilt || self is RecordFound)
    }

    /// Whether the run is over in this state.
    #[verifier::when_used_as_spec(spec_is_terminal)]
    pub fn is_terminal(self) -> (over: bool)
        ensures
            over == self.spec_is_terminal(),
    {
        match self {
            State::Start | State::ClientBuilt | State::RecordFound => false,
            _ => true,
        }
    }
}

/// What came of the action that the caller performed.
#[derive(Clone, Debug, PartialEq, Eq)]
pub enum Event {
    /// The client was built.
    ClientBuilt,
    /// The client could not be built.
    ClientBuildFailed { detail: String },
    /// The list request succeeded, with these records, in this order, and
    /// these errors beside them.
    RecordsListed { result: Vec<DnsRecord>, errors: Vec<ProviderError> },
    /// The list request failed: in transport, by its status, or because the
    /// response could not be read.
    ListFailed { detail: String },
    /// The update request succeeded, with the record as the provider now
    /// holds it and these errors beside it.
    RecordUpdated { result: DnsRecord, errors: Vec<ProviderError> },
    /// The update request failed: in transport, by its status, or because
    /// the response could not be read.
    UpdateFailed { detail: String },
}

/// The mathematical view of a [`Event`], over which contracts are stated.
pub enum EventView {
    ClientBuilt,
    ClientBuildFailed { detail: Seq<char> },
    RecordsListed { result: Seq<DnsRecordView>, errors: Seq<ProviderErrorView> },
    ListFailed { detail: Seq<char> },
    RecordUpdated { result: DnsRecordView, errors: Seq<ProviderErrorView> },
    UpdateFailed { detail: Seq<char> },
}

impl View for Event {
    type V = EventView;

    open spec fn view(&self) -> EventView {
        match *self {
            Event::ClientBuilt => EventView::ClientBuilt,
            Event::ClientBuildFailed { detail } => EventView::ClientBuildFailed { detail: detail@ },
            Event::RecordsListed { result, errors } => EventView::RecordsListed {
                result: record_views(result@),
                errors: error_views(errors@),
            },
            Event::ListFailed { detail } => EventView::ListFailed { detail: detail@ },
            Event::RecordUpdated { result, errors } => EventView::RecordUpdated {
                result: result@,
                errors: error_views(errors@),
            },
            Event::UpdateFailed { detail } => EventView::UpdateFailed { detail: detail@ },
        }
    }
}

impl EventView {
    /// Whether the event reports that the action failed.
    pub open spec fn is_failure(self) -> bool {
        self is ClientBuildFailed || self is ListFailed || self is UpdateFailed
    }
}

/// Why a run was given up.
#[derive(Clone, Debug, PartialEq, Eq)]
pub enum RunError {
    /// The client could not be built.
    ClientConstruction { detail: String },
    /// A request to the provider failed.
    Request { call: Call, detail: String },
    /// The request succeeded, but the zone holds no A record of this name.
    NotFound { name: String },
}

/// The mathematical view of a [`RunError`], over which contracts are stated.
pub enum RunErrorView {
    ClientConstruction { detail: Seq<char> },
    Request { call: Call, detail: Seq<char> },
    NotFound { name: Seq<char> },
}

impl View for RunError {
    type V = RunErrorView;

    open spec fn view(&self) -> RunErrorView {
        match *self {
            RunError::ClientConstruction { detail } => RunErrorView::ClientConstruction {
                detail: detail@,
            },
            RunError::Request { call, detail } => RunErrorView::Request { call, detail: detail@ },
            RunError::NotFound { name } => RunErrorView::NotFound { name: name@ },
        }
    }
}

/// Errors that came inside a response which was a success all the same.
/// They are to be shown, and change nothing else.
#[derive(Clone, Debug, PartialEq, Eq)]
pub struct Warning {
    /// The request whose response held the errors.
    pub call: Call,
    /// The errors: at least one.
    pub errors: Vec<ProviderError>,
}

/// The mathematical view of a [`Warning`], over which contracts are stated.
pub struct WarningView {
    pub call: Call,
    pub errors: Seq<ProviderErrorView>,
}

impl View for Warning {
    type V = WarningView;

    open spec fn view(&self) -> WarningView {
        WarningView { call: self.call, errors: error_views(self.errors@) }
    }
}

/// What the caller is to do next.
#[derive(Clone, Debug, PartialEq, Eq)]
pub enum Action {
    /// Build a client that authenticates with this token.
    BuildClient { token: String },
    /// Send this list request.
    ListRecords(ListDnsRecords),
    /// Send this update request.
    UpdateRecord(UpdateDnsRecord),
    /// Report success, with the record as the provider now holds it, and end.
    Report { record: DnsRecord },
    /// Report this failure, and end.
    Abort(RunError),
}

/// The mathematical view of a [`Action`], over which contracts are stated.
pub enum ActionView {
    BuildClient { token: Seq<char> },
    ListRecords(ListDnsRecordsView),
    UpdateRecord(UpdateDnsRecordView),
    Report { record: DnsRecordView },
    Abort(RunErrorView),
}

impl View for Action {
    type V = ActionView;

    open spec fn view(&self) -> ActionView {
        match *self {
            Action::BuildClient { token } => ActionView::BuildClient { token: token@ },
            Action::ListRecords(request) => ActionView::ListRecords(request@),
            Action::UpdateRecord(request) => ActionView::UpdateRecord(request@),
            Action::Report { record } => ActionView::Report { record: record@ },
            Action::Abort(failure) => ActionView::Abort(failure@),
        }
    }
}

impl ActionView {
    /// Whether the action reaches out: builds the client or sends a request.
    pub open spec fn is_call(self) -> bool {
        self is BuildClient || self is ListRecords || self is UpdateRecord
    }
}

/// One move of a run: where it stands now, what is to be shown as a
/// warning, and what is to be done next.
#[derive(Clone, Debug, PartialEq, Eq)]
pub struct Transition {
    pub next: State,
    pub warning: Option<Warning>,
    pub action: Action,
}

/// The mathematical view of a [`Transition`], over which contracts are stated.
pub struct TransitionView {
    pub next: State,
    pub warning: Option<WarningView>,
    pub action: ActionView,
}

impl View for Transition {
    type V = TransitionView;

    open spec fn view(&self) -> TransitionView {
        TransitionView {
            next: self.next,
            warning: match self.warning {
                Some(warning) => Some(warning@),
                None => None,
            },
            action: self.action@,
        }
    }
}

/// The warning that the errors of a successful response call for: one that
/// holds them all, if there are any.
pub open spec fn warning_for(call: Call, errors: Seq<ProviderErrorView>) -> Option<WarningView> {
    if errors.len() > 0 {
        Some(WarningView { call, errors })
    } else {
        None
    }
}

/// How a run starts: by building the client.
pub open spec fn opening(opts: OptsView) -> TransitionView {
    TransitionView {
        next: State::Start,
        warning: None,
        action: ActionView::BuildClient { token: opts.token },
    }
}

/// The move that `event` causes in `state`, or `None` where the state does
/// not await that event.
///
/// Building the client leads to the list request, or ends the run. A
/// listing leads to the update of the record located in it, or ends the run
/// where none is located. An update ends the run either way. A failure
/// always ends the run with no further call. Errors inside a successful
/// response are passed on as a warning and decide nothing.
pub open spec fn transition(opts: OptsView, state: State, event: EventView) -> Option<
    TransitionView,
> {
    match (state, event) {
        (State::Start, EventView::ClientBuilt) => Some(
            TransitionView {
                next: State::ClientBuilt,
                warning: None,
                action: ActionView::ListRecords(listing_for(opts.zone, opts.name)),
            },
        ),
        (State::Start, EventView::ClientBuildFailed { detail }) => Some(
            TransitionView {
                next: State::ClientBuildFailed,
                warning: None,
                action: ActionView::Abort(RunErrorView::ClientConstruction { detail }),
            },
        ),
        (State::ClientBuilt, EventView::RecordsListed { result, errors }) => Some(
            match located(result, opts.zone, opts.name) {
                Some(record) => TransitionView {
                    next: State::RecordFound,
                    warning: warning_for(Call::List, errors),
                    action: ActionView::UpdateRecord(update_for(record, opts.ip)),
                },
                None => TransitionView {
                    next: State::RecordNotFound,
                    warning: warning_for(Call::List, errors),
                    action: ActionView::Abort(RunErrorView::NotFound { name: opts.name }),
                },
            },
        ),
        (State::ClientBuilt, EventView::ListFailed { detail }) => Some(
            TransitionView {
                next: State::ListFailed,
                warning: None,
                action: ActionView::Abort(RunErrorView::Request { call: Call::List, detail }),
            },
        ),
        (State::RecordFound, EventView::RecordUpdated { result, errors }) => Some(
            TransitionView {
                next: State::Updated,
                warning: warning_for(Call::Update, errors),
                action: ActionView::Report { record: result },
            },
        ),
        (State::RecordFound, EventView::UpdateFailed { detail }) => Some(
            TransitionView {
                next: State::UpdateFailed,
                warning: None,
                action: ActionView::Abort(RunErrorView::Request { call: Call::Update, detail }),
            },
        ),
        _ => None,
    }
}

impl EventView {
    /// The same event with the provider's errors taken out of it.
    pub open spec fn without_errors(self) -> EventView {
        match self {
            EventView::RecordsListed { result, errors } => EventView::RecordsListed {
                result,
                errors: Seq::empty(),
            },
            EventView::RecordUpdated { result, errors } => EventView::RecordUpdated {
                result,
                errors: Seq::empty(),
            },
            other => other,
        }
    }

    /// The provider's errors that came with the event: those inside a
    /// successful response.
    pub open spec fn errors(self) -> Seq<ProviderErrorView> {
        match self {
            EventView::RecordsListed { result, errors } => errors,
            EventView::RecordUpdated { result, errors } => errors,
            _ => Seq::empty(),
        }
    }
}

/// A failure is fatal: whichever action failed, the run is over, the next
/// action is to report the failure, and no further call is made.
pub proof fn lemma_failure_ends_run(opts: OptsView, state: State, event: EventView)
    requires
        event.is_failure(),
    ensures
        transition(opts, state, event) matches Some(t) ==> {
            &&& t.next.is_terminal()
            &&& t.action is Abort
            &&& !t.action.is_call()
            &&& t.warning is None
        },
{
}

/// Once the run is over nothing moves it: no event is awaited, so none can
/// cause another action.
pub proof fn lemma_nothing_follows_the_end(opts: OptsView, state: State, event: EventView)
    requires
        state.is_terminal(),
    ensures
        transition(opts, state, event) is None,
{
}

/// A move ends the run exactly if its action is not a call, and then the
/// action reports the outcome: success only after an update that went
/// through.
pub proof fn lemma_run_ends_with_a_report(opts: OptsView, state: State, event: EventView)
    ensures
        transition(opts, state, event) matches Some(t) ==> {
            &&& t.next.is_terminal() <==> !t.action.is_call()
            &&& t.next.is_terminal() <==> (t.action is Report || t.action is Abort)
            &&& t.action is Report <==> t.next is Updated
            &&& t.action is Report ==> state is RecordFound && event is RecordUpdated
        },
{
}

/// Warnings do not block: errors inside a successful response change
/// neither whether the event is awaited, nor the next state, nor the next
/// action. All they do is appear, in full, as the warning.
pub proof fn lemma_warnings_do_not_block(opts: OptsView, state: State, event: EventView)
    ensures
        transition(opts, state, event) is Some <==> transition(
            opts,
            state,
            event.without_errors(),
        ) is Some,
        transition(opts, state, event) matches Some(t) ==> {
            &&& t.next == transition(opts, state, event.without_errors())->0.next
            &&& t.action == transition(opts, state, event.without_errors())->0.action
            &&& t.warning is Some <==> event.errors().len() > 0
            &&& t.warning matches Some(w) ==> w.errors == event.errors()
        },
{
}

/// An update is only ever asked for in answer to a listing, it is the
/// update of the record located in that listing, and it carries that
/// record's name, TTL and proxy setting unchanged, with the new address as
/// its content.
pub proof fn lemma_update_is_for_located_record(opts: OptsView, state: State, event: EventView)
    requires
        transition(opts, state, event) is Some,
        transition(opts, state, event)->0.action is UpdateRecord,
    ensures
        state is ClientBuilt,
        event matches EventView::RecordsListed { result, errors } && {
            &&& located(result, opts.zone, opts.name) matches Some(record)
            &&& eligible(record, opts.zone, opts.name)
            &&& transition(opts, state, event)->0.action == ActionView::UpdateRecord(
                update_for(record, opts.ip),
            )
            &&& update_for(record, opts.ip).zone_identifier == opts.zone
            &&& update_for(record, opts.ip).identifier == record.id
            &&& update_for(record, opts.ip).params.name == opts.name
            &&& update_for(record, opts.ip).params.ttl == Some(record.ttl)
            &&& update_for(record, opts.ip).params.proxied == Some(record.proxied)
            &&& update_for(record, opts.ip).params.content == (DnsContentView::A {
                content: opts.ip,
            })
        },
{
    if let EventView::RecordsListed { result, errors } = event {
        lemma_located_is_a_record(result, opts.zone, opts.name);
    }
}

/// A listing without an eligible record ends the run as "not found", which
/// is no request failure, and no update is asked for.
pub proof fn lemma_not_found_ends_run(
    opts: OptsView,
    result: Seq<DnsRecordView>,
    errors: Seq<ProviderErrorView>,
)
    requires
        none_eligible(result, opts.zone, opts.name),
    ensures
        transition(opts, State::ClientBuilt, EventView::RecordsListed { result, errors })
            matches Some(t) && {
            &&& t.next is RecordNotFound
            &&& t.action == ActionView::Abort(RunErrorView::NotFound { name: opts.name })
        },
{
    lemma_located_none_iff_none_eligible(result, opts.zone, opts.name);
}

/// Makes a warning of the errors of a successful response, if there are any.
pub fn warning_of(call: Call, errors: Vec<ProviderError>) -> (warning: Option<Warning>)
    ensures
        match warning {
            Some(w) => warning_for(call, error_views(errors@)) == Some(w@),
            None => warning_for(call, error_views(errors@)) is None,
        },
{
    if errors.len() > 0 {
        Some(Warning { call, errors })
    } else {
        None
    }
}

/// Opens a run: the first thing to do is to build the client.
pub fn start(opts: &Opts) -> (first: Transition)
    ensures
        first@ == opening(opts@),
{
    Transition {
        next: State::Start,
        warning: None,
        action: Action::BuildClient { token: opts.token.clone() },
    }
}

/// Takes the move that `event` causes in `state`: the next state, the
/// warning to show and the next action. Returns `None`, and decides
/// nothing, where `state` does not await `event`: in a state in which the
/// run is over, and for an event that answers another call than the one
/// that was due.
pub fn step(opts: &Opts, state: State, event: Event) -> (taken: Option<Transition>)
    ensures
        match taken {
            Some(t) => transition(opts@, state, event@) == Some(t@),
            None => transition(opts@, state, event@) is None,
        },
{
    match state {
        State::Start => match event {
            Event::ClientBuilt => Some(
                Transition {
                    next: State::ClientBuilt,
                    warning: None,
                    action: Action::ListRecords(list_request(&opts.zone, &opts.name)),
                },
            ),
            Event::ClientBuildFailed { detail } => Some(
                Transition {
                    next: State::ClientBuildFailed,
                    warning: None,
                    action: Action::Abort(RunError::ClientConstruction { detail }),
                },
            ),
            _ => None,
        },
        State::ClientBuilt => match event {
            Event::RecordsListed { result, errors } => {
                let warning = warning_of(Call::List, errors);
                match find_dns_record_by_name(result, &opts.zone, &opts.name) {
                    Some(record) => Some(
                        Transition {
                            next: State::RecordFound,
                            warning,
                            action: Action::UpdateRecord(update_request(&record, opts.ip)),
                        },
                    ),
                    None => Some(
                        Transition {
                            next: State::RecordNotFound,
                            warning,
                            action: Action::Abort(RunError::NotFound { name: opts.name.clone() }),
                        },
                    ),
                }
            },
            Event::ListFailed { detail } => Some(
                Transition {
                    next: State::ListFailed,
                    warning: None,
                    action: Action::Abort(RunError::Request { call: Call::List, detail }),
                },
            ),
            _ => None,
        },
        State::RecordFound => match event {
            Event::RecordUpdated { result, errors } => Some(
                Transition {
                    next: State::Updated,
                    warning: warning_of(Call::Update, errors),
                    action: Action::Report { record: result },
                },
            ),
            Event::UpdateFailed { detail } => Some(
                Transition {
                    next: State::UpdateFailed,
                    warning: None,
                    action: Action::Abort(RunError::Request { call: Call::Update, detail }),
                },
            ),
            _ => None,
        },
        _ => None,
    }
}

} // verus!
