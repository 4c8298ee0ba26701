//! The set of relays a publisher talks to, and the fold of one broadcast's
//! per-relay reports into a publish outcome.

use vstd::prelude::*;

use crate::bindings::{lowercase_of, to_lowercase};
use crate::relay::{
    classify_send, may_connect, next_state, result_for, settle_after_send, state_after_send, transition,
    ConnEvent, ConnState, ConnectError, RelayConnection, RelayResult, SendReport,
};

verus! {

/// A pool as a sequence of (URL, state) pairs, in the order relays were added.
pub type PoolView = Seq<(Seq<char>, ConnState)>;

/// One entry of a publish outcome: (URL, result, whether a send was attempted).
pub type EntryView = (Seq<char>, RelayResult, bool);

/// No two relays of the pool share a URL.
pub open spec fn distinct_urls(v: PoolView) -> bool {
    forall|i: int, j: int| 0 <= i < j < v.len() ==> v[i].0 != v[j].0
}

/// The URLs of a pool, in order.
pub open spec fn urls(v: PoolView) -> Seq<Seq<char>> {
    Seq::new(v.len(), |i: int| v[i].0)
}

/// Whether some relay of the pool has this URL.
pub open spec fn has_url(v: PoolView, url: Seq<char>) -> bool {
    exists|i: int| 0 <= i < v.len() && v[i].0 == url
}

/// The identity of an endpoint: its URL, case-normalized.
pub open spec fn endpoint_key(url: Seq<char>) -> Seq<char> {
    lowercase_of(url)
}

/// The pool after every relay received `e`.
pub open spec fn after_event(v: PoolView, e: ConnEvent) -> PoolView {
    Seq::new(v.len(), |i: int| (v[i].0, next_state(v[i].1, e)))
}

/// The handshake event that a connect outcome stands for.
pub open spec fn handshake_event(outcome: Result<(), ConnectError>) -> ConnEvent {
    if outcome is Ok {
        ConnEvent::HandshakeSucceeded
    } else {
        ConnEvent::HandshakeFailed
    }
}

/// The entries of the outcome of a broadcast over `v` where relay `i`
/// reported `reports[i]`.
pub open spec fn outcome_entries(v: PoolView, reports: Seq<Option<SendReport>>) -> Seq<EntryView> {
    Seq::new(
        v.len(),
        |i: int| (v[i].0, result_for(v[i].1, reports[i]), v[i].1 == ConnState::Connected),
    )
}

/// The pool after a broadcast where relay `i` reported `reports[i]`.
pub open spec fn after_broadcast(v: PoolView, reports: Seq<Option<SendReport>>) -> PoolView {
    Seq::new(v.len(), |i: int| (v[i].0, state_after_send(v[i].1, reports[i])))
}

/// At least one relay took the message.
pub open spec fn any_sent(entries: Seq<EntryView>) -> bool {
    exists|i: int| 0 <= i < entries.len() && entries[i].1 == RelayResult::Sent
}

/// The number of connected relays of a pool.
pub open spec fn count_connected(v: PoolView) -> nat
    decreases v.len(),
{
    if v.len() == 0 {
        0
    } else {
        count_connected(v.drop_last()) + if v.last().1 == ConnState::Connected {
            1nat
        } else {
            0nat
        }
    }
}

/// The number of entries of an outcome for which a send was attempted.
pub open spec fn count_attempted(entries: Seq<EntryView>) -> nat
    decreases entries.len(),
{
    if entries.len() == 0 {
        0
    } else {
        count_attempted(entries.drop_last()) + if entries.last().2 {
            1nat
        } else {
            0nat
        }
    }
}

/// The pool after a series of broadcasts, recorded in the order given.
pub open spec fn after_broadcasts(v: PoolView, rounds: Seq<Seq<Option<SendReport>>>) -> PoolView
    decreases rounds.len(),
{
    if rounds.len() == 0 {
        v
    } else {
        after_broadcast(after_broadcasts(v, rounds.drop_last()), rounds.last())
    }
}

/// A broadcast over N relays of which K are connected has exactly N entries:
/// K attempted sends, and N - K entries `Unreachable` with no send attempted.
pub proof fn lemma_broadcast_partition(v: PoolView, reports: Seq<Option<SendReport>>)
    requires
        reports.len() == v.len(),
    ensures
        outcome_entries(v, reports).len() == v.len(),
        count_attempted(outcome_entries(v, reports)) == count_connected(v),
        forall|i: int|
            0 <= i < v.len() && !(#[trigger] outcome_entries(v, reports)[i]).2 ==> outcome_entries(
                v,
                reports,
            )[i].1 == RelayResult::Unreachable,
    decreases v.len(),
{
    if v.len() > 0 {
        lemma_broadcast_partition(v.drop_last(), reports.drop_last());
        assert(outcome_entries(v, reports).drop_last() =~= outcome_entries(
            v.drop_last(),
            reports.drop_last(),
        ));
    }
}

/// A connected relay whose send times out is recorded `TimedOut` and stays
/// connected; every other relay's entry and state are the same as if that
/// relay had reported anything else.
pub proof fn lemma_timeout_isolated(v: PoolView, reports: Seq<Option<SendReport>>, j: int)
    requires
        reports.len() == v.len(),
        0 <= j < v.len(),
        v[j].1 == ConnState::Connected,
    ensures
        outcome_entries(v, reports.update(j, None))[j].1 == RelayResult::TimedOut,
        after_broadcast(v, reports.update(j, None))[j] == v[j],
        forall|i: int|
            0 <= i < v.len() && i != j ==> outcome_entries(v, reports.update(j, None))[i]
                == outcome_entries(v, reports)[i] && after_broadcast(v, reports.update(j, None))[i]
                == after_broadcast(v, reports)[i],
{
}

/// A broadcast over a pool with no connected relay records every relay
/// `Unreachable`, attempts no send, and does not succeed.
pub proof fn lemma_no_reachable_relay(v: PoolView, reports: Seq<Option<SendReport>>)
    requires
        reports.len() == v.len(),
        forall|i: int| 0 <= i < v.len() ==> v[i].1 != ConnState::Connected,
    ensures
        outcome_entries(v, reports).len() == v.len(),
        forall|i: int|
            0 <= i < v.len() ==> (#[trigger] outcome_entries(v, reports)[i]).1
                == RelayResult::Unreachable && !outcome_entries(v, reports)[i].2,
        !any_sent(outcome_entries(v, reports)),
{
}

/// The relay answered a send with an acknowledgement, a late or missing one.
pub open spec fn acked_or_silent(report: Option<SendReport>) -> bool {
    report is None || report == Some(SendReport::Acked) || report == Some(SendReport::NoAck)
}

/// When every connected relay acknowledges or stays silent, each connected
/// relay is `Sent` or `TimedOut`, every other relay is `Unreachable`, and the
/// publish succeeds exactly when some connected relay acknowledged.
pub proof fn lemma_reachable_relays_sent_or_timed_out(
    v: PoolView,
    reports: Seq<Option<SendReport>>,
)
    requires
        reports.len() == v.len(),
        forall|i: int|
            0 <= i < v.len() && v[i].1 == ConnState::Connected ==> acked_or_silent(reports[i]),
    ensures
        forall|i: int|
            0 <= i < v.len() ==> if v[i].1 == ConnState::Connected {
                (#[trigger] outcome_entries(v, reports)[i]).1 == RelayResult::Sent
                    || outcome_entries(v, reports)[i].1 == RelayResult::TimedOut
            } else {
                outcome_entries(v, reports)[i].1 == RelayResult::Unreachable
            },
        any_sent(outcome_entries(v, reports)) <==> exists|i: int|
            0 <= i < v.len() && v[i].1 == ConnState::Connected && reports[i] == Some(
                SendReport::Acked,
            ),
{
    let e = outcome_entries(v, reports);
    if any_sent(e) {
        let i = choose|i: int| 0 <= i < e.len() && e[i].1 == RelayResult::Sent;
        assert(v[i].1 == ConnState::Connected && reports[i] == Some(SendReport::Acked));
    }
    if exists|i: int|
        0 <= i < v.len() && v[i].1 == ConnState::Connected && reports[i] == Some(
            SendReport::Acked,
        ) {
        let i = choose|i: int|
            0 <= i < v.len() && v[i].1 == ConnState::Connected && reports[i] == Some(
                SendReport::Acked,
            );
        assert(e[i].1 == RelayResult::Sent);
    }
}

/// However many publishes complete, in whatever order their broadcasts are
/// recorded, the pool keeps exactly the endpoints it had: none duplicated,
/// none lost.
pub proof fn lemma_broadcasts_keep_endpoints(v: PoolView, rounds: Seq<Seq<Option<SendReport>>>)
    requires
        distinct_urls(v),
    ensures
        urls(after_broadcasts(v, rounds)) == urls(v),
        distinct_urls(after_broadcasts(v, rounds)),
    decreases rounds.len(),
{
    if rounds.len() > 0 {
        lemma_broadcasts_keep_endpoints(v, rounds.drop_last());
        let w = after_broadcasts(v, rounds.drop_last());
        assert(urls(after_broadcast(w, rounds.last())) =~= urls(w));
        assert(urls(w) =~= urls(v));
    }
}

/// The per-relay record of one publish.
pub struct RelayOutcome {
    pub url: String,
    pub result: RelayResult,
    /// Whether a send was attempted (the relay was connected).
    pub attempted: bool,
}

impl View for RelayOutcome {
    type V = EntryView;

    open spec fn view(&self) -> EntryView {
        (self.url@, self.result, self.attempted)
    }
}

/// The result of one publish: one entry per relay of the pool, and whether
/// the message reached at least one relay.
pub struct PublishOutcome {
    pub entries: Vec<RelayOutcome>,
    pub success: bool,
}

impl View for PublishOutcome {
    type V = (Seq<EntryView>, bool);

    open spec fn view(&self) -> (Seq<EntryView>, bool) {
        (self.entries@.map_values(|e: RelayOutcome| e@), self.success)
    }
}

/// Whether at least one entry is `Sent`.
pub fn aggregate_success(entries: &Vec<RelayOutcome>) -> (r: bool)
    ensures
        r == any_sent(entries@.map_values(|e: RelayOutcome| e@)),
{
    let ghost ev = entries@.map_values(|e: RelayOutcome| e@);
    let mut i: usize = 0;
    while i < entries.len()
        invariant
            i <= entries@.len(),
            ev == entries@.map_values(|e: RelayOutcome| e@),
            forall|k: int| 0 <= k < i ==> ev[k].1 != RelayResult::Sent,
        decreases entries@.len() - i,
    {
        match entries[i].result {
            RelayResult::Sent => {
                assert(ev[i as int].1 == RelayResult::Sent);
                return true;
            },
            _ => {},
        }
        i = i + 1;
    }
    false
}

impl PublishOutcome {
    /// The authoritative answer to "was this published anywhere".
    pub fn is_success(&self) -> (r: bool)
        ensures
            r == self@.1,
    {
        self.success
    }

    pub fn len(&self) -> (r: usize)
        ensures
            r == self@.0.len(),
    {
        self.entries.len()
    }
}

/// The relays of one publisher. Membership only grows, by `add`; no two
/// members share an endpoint key.
pub struct RelayPool {
    relays: Vec<RelayConnection>,
}

impl View for RelayPool {
    type V = PoolView;

    closed spec fn view(&self) -> PoolView {
        self.relays@.map_values(|r: RelayConnection| r@)
    }
}

impl RelayPool {
    pub open spec fn wf(&self) -> bool {
        distinct_urls(self@)
    }

    /// An empty pool.
    pub fn new() -> (r: RelayPool)
        ensures
            r@ == Seq::<(Seq<char>, ConnState)>::empty(),
            r.wf(),
    {
        let r = RelayPool { relays: Vec::new() };
        assert(r@ =~= Seq::<(Seq<char>, ConnState)>::empty());
        r
    }

    pub fn len(&self) -> (r: usize)
        ensures
            r == self@.len(),
    {
        self.relays.len()
    }

    pub fn url_at(&self, i: usize) -> (r: &String)
        requires
            i < self@.len(),
        ensures
            r@ == self@[i as int].0,
    {
        self.relays[i].url()
    }

    pub fn state_at(&self, i: usize) -> (r: ConnState)
        requires
            i < self@.len(),
        ensures
            r == self@[i as int].1,
    {
        self.relays[i].state()
    }

    /// Whether a relay with exactly this URL is a member.
    pub fn contains(&self, url: &String) -> (r: bool)
        ensures
            r == has_url(self@, url@),
    {
        let mut i: usize = 0;
        while i < self.relays.len()
            invariant
                i <= self@.len(),
                forall|k: int| 0 <= k < i ==> self@[k].0 != url@,
            decreases self@.len() - i,
        {
            if self.relays[i].url == *url {
                assert(self@[i as int].0 == url@);
                return true;
            }
            i = i + 1;
        }
        false
    }

    /// Adds the endpoint `url` in state `Disconnected`, unless an endpoint
    /// with the same case-normalized URL is already a member. Returns whether
    /// it was added.
    pub fn add(&mut self, url: &str) -> (r: bool)
        requires
            old(self).wf(),
        ensures
            final(self).wf(),
            r == !has_url(old(self)@, endpoint_key(url@)),
            r ==> final(self)@ == old(self)@.push((endpoint_key(url@), ConnState::Disconnected)),
            !r ==> final(self)@ == old(self)@,
    {
        let key = to_lowercase(url);
        if self.contains(&key) {
            return false;
        }
        let ghost before = self@;
        self.relays.push(RelayConnection::new(key));
        assert(self@ =~= before.push((endpoint_key(url@), ConnState::Disconnected)));
        true
    }

    /// Applies `e` to every member.
    pub fn apply_all(&mut self, e: ConnEvent)
        requires
            old(self).wf(),
        ensures
            final(self).wf(),
            final(self)@ == after_event(old(self)@, e),
    {
        let ghost v0 = self@;
        let mut out: Vec<RelayConnection> = Vec::new();
        let mut i: usize = 0;
        while i < self.relays.len()
            invariant
                i <= self@.len(),
                self@ == v0,
                out@.len() == i,
                forall|k: int|
                    0 <= k < i ==> (#[trigger] out@[k])@ == after_event(v0, e)[k],
            decreases self@.len() - i,
        {
            let rc = &self.relays[i];
            assert(rc@ == v0[i as int]);
            out.push(RelayConnection { url: rc.url.clone(), state: transition(rc.state, e) });
            i = i + 1;
        }
        self.relays = out;
        assert(self@ =~= after_event(v0, e));
    }

    /// Starts a connect round: every member that is `Disconnected` or `Failed`
    /// moves to `Connecting`. Returns, for each member, whether the caller is
    /// to attempt its handshake.
    pub fn begin_connect_all(&mut self) -> (r: Vec<bool>)
        requires
            old(self).wf(),
        ensures
            final(self).wf(),
            final(self)@ == after_event(old(self)@, ConnEvent::ConnectRequested),
            r@.len() == old(self)@.len(),
            forall|i: int| 0 <= i < r@.len() ==> r@[i] == may_connect(old(self)@[i].1),
    {
        let mut attempt: Vec<bool> = Vec::new();
        let mut i: usize = 0;
        while i < self.relays.len()
            invariant
                i <= self@.len(),
                attempt@.len() == i,
                forall|k: int| 0 <= k < i ==> attempt@[k] == may_connect(self@[k].1),
            decreases self@.len() - i,
        {
            let s = self.relays[i].state;
            attempt.push(s == ConnState::Disconnected || s == ConnState::Failed);
            i = i + 1;
        }
        self.apply_all(ConnEvent::ConnectRequested);
        attempt
    }

    /// Records the outcome of the handshake with member `i`.
    pub fn finish_connect(&mut self, i: usize, outcome: &Result<(), ConnectError>)
        requires
            old(self).wf(),
            i < old(self)@.len(),
        ensures
            final(self).wf(),
            final(self)@ == old(self)@.update(
                i as int,
                (old(self)@[i as int].0, next_state(old(self)@[i as int].1, handshake_event(*outcome))),
            ),
    {
        let ghost v0 = self@;
        let e = match outcome {
            Ok(()) => ConnEvent::HandshakeSucceeded,
            Err(_) => ConnEvent::HandshakeFailed,
        };
        let rc = RelayConnection {
            url: self.relays[i].url.clone(),
            state: transition(self.relays[i].state, e),
        };
        self.relays.set(i, rc);
        assert(self@ =~= v0.update(i as int, (v0[i as int].0, next_state(v0[i as int].1, e))));
    }

    /// Closes every member.
    pub fn close_all(&mut self)
        requires
            old(self).wf(),
        ensures
            final(self).wf(),
            final(self)@ == after_event(old(self)@, ConnEvent::Shutdown),
    {
        self.apply_all(ConnEvent::Shutdown);
    }

    /// For each member, whether a broadcast sends to it: exactly the
    /// connected ones.
    pub fn send_targets(&self) -> (r: Vec<bool>)
        ensures
            r@.len() == self@.len(),
            forall|i: int| 0 <= i < r@.len() ==> r@[i] == (self@[i].1 == ConnState::Connected),
    {
        let mut targets: Vec<bool> = Vec::new();
        let mut i: usize = 0;
        while i < self.relays.len()
            invariant
                i <= self@.len(),
                targets@.len() == i,
                forall|k: int|
                    0 <= k < i ==> targets@[k] == (self@[k].1 == ConnState::Connected),
            decreases self@.len() - i,
        {
            targets.push(self.relays[i].state == ConnState::Connected);
            i = i + 1;
        }
        targets
    }

    /// Folds the reports of one broadcast into the outcome and the members'
    /// states. `reports[i]` is what the send to member `i` reported, `None`
    /// where nothing came back before the per-relay timeout; reports for
    /// members that were not connected are ignored (no send was made).
    pub fn record_broadcast(&mut self, reports: &Vec<Option<SendReport>>) -> (r: PublishOutcome)
        requires
            old(self).wf(),
            reports@.len() == old(self)@.len(),
        ensures
            final(self).wf(),
            final(self)@ == after_broadcast(old(self)@, reports@),
            r@.0 == outcome_entries(old(self)@, reports@),
            r@.1 == any_sent(r@.0),
    {
        let ghost v0 = self@;
        let mut entries: Vec<RelayOutcome> = Vec::new();
        let mut out: Vec<RelayConnection> = Vec::new();
        let mut i: usize = 0;
        while i < self.relays.len()
            invariant
                i <= self@.len(),
                self@ == v0,
                reports@.len() == v0.len(),
                out@.len() == i,
                entries@.len() == i,
                forall|k: int|
                    0 <= k < i ==> (#[trigger] out@[k])@ == after_broadcast(v0, reports@)[k],
                forall|k: int|
                    0 <= k < i ==> (#[trigger] entries@[k])@ == outcome_entries(v0, reports@)[k],
            decreases self@.len() - i,
        {
            let rc = &self.relays[i];
            assert(rc@ == v0[i as int]);
            let report = &reports[i];
            entries.push(
                RelayOutcome {
                    url: rc.url.clone(),
                    result: classify_send(rc.state, report),
                    attempted: rc.state == ConnState::Connected,
                },
            );
            out.push(RelayConnection { url: rc.url.clone(), state: settle_after_send(rc.state, report) });
            i = i + 1;
        }
        self.relays = out;
        assert(self@ =~= after_broadcast(v0, reports@));
        assert(entries@.map_values(|e: RelayOutcome| e@) =~= outcome_entries(v0, reports@));
        let success = aggregate_success(&entries);
        PublishOutcome { entries, success }
    }
}

} // verus!
