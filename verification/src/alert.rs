//! Incident tracking with one event per state edge.
//!
//! An [`Alert`] is open exactly while its start timestamp is set. Opening an
//! already-open alert and closing an already-closed one are no-ops, so over
//! any run of cycles each genuine open/close transition yields exactly one
//! event for the alert transport.

use vstd::prelude::*;
use vstd::string::StringExecFns;

verus! {

/// Whether the incident is open after `set_open(want_open)` is applied.
pub open spec fn notifier_open_after(open: bool, want_open: bool) -> bool {
    want_open
}

/// Whether `set_open(want_open)` emits an event: exactly on a state edge.
pub open spec fn notifier_emits(open: bool, want_open: bool) -> bool {
    open != want_open
}

/// Events emitted over a run of cycles that starts with the incident state
/// `open` and asks for the states in `wants`, one per cycle.
pub open spec fn notifier_events(open: bool, wants: Seq<bool>) -> nat
    decreases wants.len(),
{
    if wants.len() == 0 {
        0
    } else {
        (if notifier_emits(open, wants[0]) {
            1nat
        } else {
            0nat
        }) + notifier_events(wants[0], wants.skip(1))
    }
}

/// Cycles that keep asking for the state the incident is already in emit no
/// event at all, however many they are.
pub proof fn lemma_steady_state_silent(open: bool, wants: Seq<bool>)
    requires
        forall|i: int| 0 <= i < wants.len() ==> wants[i] == open,
    ensures
        notifier_events(open, wants) == 0,
    decreases wants.len(),
{
    if wants.len() > 0 {
        lemma_steady_state_silent(open, wants.skip(1));
    }
}

/// Any number of consecutive cycles that each ask for the opposite of the
/// starting incident state emit exactly one event: one on the first cycle,
/// none on the rest. With `open == false` this is the single "opened" event
/// over repeated fallback cycles; with `open == true`, the single "closed"
/// event over repeated direct cycles.
pub proof fn lemma_one_event_per_edge(open: bool, wants: Seq<bool>)
    requires
        wants.len() > 0,
        forall|i: int| 0 <= i < wants.len() ==> wants[i] == !open,
    ensures
        notifier_events(open, wants) == 1,
{
    lemma_steady_state_silent(!open, wants.skip(1));
}

/// An already-open incident stays silent through any further cycles that ask
/// for it to be open, and emits exactly one "closed" event once the cycles
/// switch to asking for it to be closed: `wants` here asks for open on its
/// first `k` cycles and for closed on the rest.
proof fn lemma_open_run_then_close(wants: Seq<bool>, k: int)
    requires
        0 <= k < wants.len(),
        forall|i: int| 0 <= i < wants.len() ==> wants[i] == (i < k),
    ensures
        notifier_events(true, wants) == 1,
    decreases k,
{
    if k == 0 {
        lemma_one_event_per_edge(true, wants);
    } else {
        lemma_open_run_then_close(wants.skip(1), k - 1);
    }
}

/// Exactly one "opened" and one "closed" event over a whole incident: a run
/// of cycles that asks for the incident to be open on its first `k` cycles
/// and to be closed on all later ones, starting closed, emits exactly two
/// events — one on the first opening cycle, one on the first closing cycle,
/// and none on any repetition of either steady state.
pub proof fn lemma_one_opened_one_closed(wants: Seq<bool>, k: int)
    requires
        0 < k < wants.len(),
        forall|i: int| 0 <= i < wants.len() ==> wants[i] == (i < k),
    ensures
        notifier_events(false, wants) == 2,
{
    lemma_open_run_then_close(wants.skip(1), k - 1);
}

/// The payload of one emitted incident event: when the incident opened, and,
/// for a closing event, when it closed.
pub struct AlertEvent {
    /// Timestamp of the opening edge.
    pub starts_at: String,
    /// Timestamp of the closing edge; absent on an "opened" event.
    pub ends_at: Option<String>,
}

/// One incident alert: fixed labels and annotations, and the timestamps of
/// the currently open incident, if any.
pub struct Alert {
    /// Label key/value pairs identifying the alert.
    pub labels: Vec<(String, String)>,
    /// Free-form annotation key/value pairs.
    pub annotations: Vec<(String, String)>,
    /// Set exactly while the incident is open.
    pub starts_at: Option<String>,
    /// Only ever set transiently while a closing event is built; `None`
    /// between calls.
    pub ends_at: Option<String>,
}

/// Relies on gethostname::gethostname: returns this host's name; the value
/// depends on the machine.
#[verifier::external_body]
fn hostname_string() -> (r: String) {
    gethostname::gethostname().to_string_lossy().into_owned()
}

/// Relies on chrono's Utc::now and DateTime::to_rfc3339: the current wall
/// clock time, rendered in RFC 3339 form; the value depends on the clock.
#[verifier::external_body]
fn now_rfc3339() -> (r: String) {
    chrono::Utc::now().to_rfc3339()
}

impl Alert {
    /// Open exactly while a start timestamp is recorded.
    pub open spec fn is_open(self) -> bool {
        self.starts_at is Some
    }

    /// A closed alert whose name is `alertname`, annotated as the NAT
    /// fallback incident.
    pub fn with_alertname(alertname: String) -> (r: Alert)
        ensures
            !r.is_open(),
            r.starts_at is None,
            r.ends_at is None,
            r.labels@.len() == 1,
            r.labels@[0].0@ == ("alertname")@,
            r.labels@[0].1 == alertname,
            r.annotations@.len() == 1,
            r.annotations@[0].0@ == ("description")@,
            r.annotations@[0].1@ == ("NAT enabled as fallback for routing problem")@,
    {
        let labels: Vec<(String, String)> = vec![("alertname".to_owned(), alertname)];
        let annotations: Vec<(String, String)> = vec![
            ("description".to_owned(), "NAT enabled as fallback for routing problem".to_owned()),
        ];
        Alert { labels, annotations, starts_at: None, ends_at: None }
    }

    /// A closed alert named after this host.
    pub fn new() -> (r: Alert)
        ensures
            !r.is_open(),
            r.starts_at is None,
            r.ends_at is None,
            r.labels@.len() == 1,
            r.labels@[0].0@ == ("alertname")@,
            exists|host: Seq<char>| r.labels@[0].1@ == ("NAT enabled on ")@ + host,
            r.annotations@.len() == 1,
            r.annotations@[0].0@ == ("description")@,
            r.annotations@[0].1@ == ("NAT enabled as fallback for routing problem")@,
    {
        let host = hostname_string();
        let mut alertname = "NAT enabled on ".to_owned();
        alertname.append(host.as_str());
        let alert = Alert::with_alertname(alertname);
        proof {
            assert(alert.labels@[0].1@ == ("NAT enabled on ")@ + host@);
        }
        alert
    }

    /// Opens the incident as of `now`. On the closed-to-open edge the start
    /// timestamp is recorded and an "opened" event is returned; an
    /// already-open incident is left untouched and emits nothing.
    pub fn trigger_at(&mut self, now: String) -> (r: Option<AlertEvent>)
        ensures
            final(self).labels == old(self).labels,
            final(self).annotations == old(self).annotations,
            final(self).is_open() == notifier_open_after(old(self).is_open(), true),
            r is Some <==> notifier_emits(old(self).is_open(), true),
            old(self).ends_at is None ==> final(self).ends_at is None,
            old(self).is_open() ==> *final(self) == *old(self) && r is None,
            !old(self).is_open() ==> final(self).starts_at == Some(now) && final(self).ends_at
                is None && (r matches Some(ev) && ev.starts_at == now && ev.ends_at is None),
    {
        if self.starts_at.is_some() {
            None
        } else {
            let event_start = now.clone();
            self.starts_at = Some(now);
            self.ends_at = None;
            Some(AlertEvent { starts_at: event_start, ends_at: None })
        }
    }

    /// Closes the incident as of `now`. On the open-to-closed edge a
    /// "closed" event carrying both timestamps is returned and the
    /// timestamps are cleared; an already-closed incident is left untouched
    /// and emits nothing.
    pub fn resolve_at(&mut self, now: String) -> (r: Option<AlertEvent>)
        ensures
            final(self).labels == old(self).labels,
            final(self).annotations == old(self).annotations,
            final(self).is_open() == notifier_open_after(old(self).is_open(), false),
            r is Some <==> notifier_emits(old(self).is_open(), false),
            old(self).ends_at is None ==> final(self).ends_at is None,
            !old(self).is_open() ==> *final(self) == *old(self) && r is None,
            old(self).starts_at matches Some(s) ==> final(self).starts_at is None
                && final(self).ends_at is None && (r matches Some(ev) && ev.starts_at == s && (
            ev.ends_at matches Some(e) && e == now)),
    {
        let started = self.starts_at.take();
        match started {
            None => None,
            Some(s) => {
                self.ends_at = None;
                Some(AlertEvent { starts_at: s, ends_at: Some(now) })
            },
        }
    }

    /// Opens the incident as of the current wall clock time; see
    /// [`Alert::trigger_at`].
    pub fn trigger(&mut self) -> (r: Option<AlertEvent>)
        ensures
            final(self).labels == old(self).labels,
            final(self).annotations == old(self).annotations,
            final(self).is_open() == notifier_open_after(old(self).is_open(), true),
            r is Some <==> notifier_emits(old(self).is_open(), true),
            old(self).ends_at is None ==> final(self).ends_at is None,
            old(self).is_open() ==> *final(self) == *old(self) && r is None,
            !old(self).is_open() ==> final(self).starts_at is Some && final(self).ends_at is None
                && (r matches Some(ev) && ev.ends_at is None),
            r matches Some(ev) ==> final(self).starts_at == Some(ev.starts_at),
    {
        let now = now_rfc3339();
        self.trigger_at(now)
    }

    /// Closes the incident as of the current wall clock time; see
    /// [`Alert::resolve_at`].
    pub fn resolve(&mut self) -> (r: Option<AlertEvent>)
        ensures
            final(self).labels == old(self).labels,
            final(self).annotations == old(self).annotations,
            final(self).is_open() == notifier_open_after(old(self).is_open(), false),
            r is Some <==> notifier_emits(old(self).is_open(), false),
            old(self).ends_at is None ==> final(self).ends_at is None,
            !old(self).is_open() ==> *final(self) == *old(self) && r is None,
            old(self).is_open() ==> final(self).starts_at is None && final(self).ends_at is None
                && (r matches Some(ev) && ev.ends_at is Some),
            old(self).starts_at matches Some(s) ==> (r matches Some(ev) && ev.starts_at == s),
    {
        let now = now_rfc3339();
        self.resolve_at(now)
    }
}

} // verus!
