//! Crawl orchestration state machine.
//!
//! Owns the endpoint registry, the set of connections that signalled
//! end-of-feed, and the clock of the last discovery-relevant event, and
//! decides — one notification at a time — when to rebuild the connection
//! pool and when to stop the crawl.

use vstd::prelude::*;
use crate::events::{EventKind, NostrEvent, candidate_addresses, is_discovery_relevant};
use crate::relays::{Relays, add_all_spec, contains_addr, no_dups};

verus! {

/// Default capacity of the active connection pool.
pub const MAX_ACTIVE_RELAYS: usize = 50;

/// Default lookback of the subscription time window, in seconds.
pub const PERIOD_START_PAST_SECS: u64 = 6 * 60 * 60;

/// Default idle-stop threshold, in seconds.
pub const IDLE_STOP_SECS: u64 = 20;

/// Default minimum number of end-of-feed reports before an idle stop.
pub const IDLE_STOP_MIN_EOSE: usize = 2;

/// Crawl lifecycle states.
#[derive(Clone, Copy, PartialEq, Eq, Structural, Debug)]
pub enum CrawlState {
    Seeding,
    Subscribing,
    Listening,
    Draining,
    Stopped,
}

/// One item of the connection pool's notification stream.
pub enum Notification {
    Message { connection: String, event: NostrEvent },
    EndOfFeed { connection: String },
    Shutdown,
}

/// What the caller must do after one notification is handled.
pub enum Action {
    KeepListening,
    Rebuild(Vec<String>),
    Drain,
}

/// Effect of recording one end-of-feed connection identifier.
pub open spec fn insert_id(s: Seq<Seq<char>>, id: Seq<char>) -> Seq<Seq<char>> {
    if s.contains(id) {
        s
    } else {
        s.push(id)
    }
}

/// End-of-feed quorum: every active or connecting connection has signalled
/// end-of-feed, and there is at least one such connection.
pub open spec fn quorum_reached(eose_count: nat, active_count: nat) -> bool {
    active_count > 0 && eose_count >= active_count
}

/// Seconds elapsed since the last discovery-relevant event.
pub open spec fn idle_elapsed(now: u64, last_event: u64) -> int {
    if now >= last_event {
        now - last_event
    } else {
        0
    }
}

/// Idle stop: no discovery-relevant event for longer than the threshold,
/// after at least the minimum number of end-of-feed reports.
pub open spec fn idle_reached(
    now: u64,
    last_event: u64,
    eose_count: nat,
    threshold: u64,
    min_eose: nat,
) -> bool {
    idle_elapsed(now, last_event) > threshold && eose_count >= min_eose
}

/// A bounded sample of the registry: the first `cap` members, or all of
/// them when fewer are known.
pub open spec fn sample_spec(s: Seq<Seq<char>>, cap: int) -> Seq<Seq<char>> {
    s.take(vstd::math::min(cap, s.len() as int))
}

/// Capped seeding: insert bootstrap addresses in order, but stop as soon as
/// the registry holds at least `cap` members.
pub open spec fn seed_spec(s: Seq<Seq<char>>, list: Seq<Seq<char>>, cap: nat) -> Seq<Seq<char>>
    decreases list.len(),
{
    if list.len() == 0 || s.len() >= cap {
        s
    } else {
        seed_spec(crate::relays::add_spec(s, list.first()), list.drop_first(), cap)
    }
}

/// Keeps the crawl state for one run.
pub struct RelayManager {
    /// All endpoint addresses discovered so far.
    pub relays: Relays,
    /// Distinct identifiers of connections that signalled end-of-feed.
    pub eose_relays: Vec<String>,
    /// Time of the last discovery-relevant event (Unix seconds).
    pub time_last_event: u64,
    /// Current lifecycle state.
    pub state: CrawlState,
    /// Capacity of the active connection pool.
    pub capacity: usize,
    /// Lookback of the subscription time window, in seconds.
    pub lookback_secs: u64,
    /// Idle-stop threshold, in seconds.
    pub idle_threshold_secs: u64,
    /// Minimum number of end-of-feed reports before an idle stop.
    pub min_eose_for_idle_stop: usize,
}

impl RelayManager {
    /// Manager well-formedness: the registry and the end-of-feed set hold
    /// no duplicates.
    pub open spec fn wf(&self) -> bool {
        self.relays.wf() && no_dups(self.eose_relays.deep_view())
    }

    /// Fresh manager with the given configuration, about to seed.
    pub fn new_with_config(
        capacity: usize,
        lookback_secs: u64,
        idle_threshold_secs: u64,
        min_eose_for_idle_stop: usize,
        now: u64,
    ) -> (m: Self)
        ensures
            m.wf(),
            m.state == CrawlState::Seeding,
            m.relays@ == Seq::<Seq<char>>::empty(),
            m.eose_relays.deep_view() == Seq::<Seq<char>>::empty(),
            m.time_last_event == now,
            m.capacity == capacity,
            m.lookback_secs == lookback_secs,
            m.idle_threshold_secs == idle_threshold_secs,
            m.min_eose_for_idle_stop == min_eose_for_idle_stop,
    {
        let m = RelayManager {
            relays: Relays::new(),
            eose_relays: Vec::new(),
            time_last_event: now,
            state: CrawlState::Seeding,
            capacity,
            lookback_secs,
            idle_threshold_secs,
            min_eose_for_idle_stop,
        };
        proof {
            assert(m.eose_relays.deep_view() =~= Seq::<Seq<char>>::empty());
        }
        m
    }

    /// Fresh manager with the default configuration.
    pub fn new(now: u64) -> (m: Self)
        ensures
            m.wf(),
            m.state == CrawlState::Seeding,
            m.relays@ == Seq::<Seq<char>>::empty(),
            m.eose_relays.deep_view() == Seq::<Seq<char>>::empty(),
            m.time_last_event == now,
            m.capacity == MAX_ACTIVE_RELAYS,
            m.lookback_secs == PERIOD_START_PAST_SECS,
            m.idle_threshold_secs == IDLE_STOP_SECS,
            m.min_eose_for_idle_stop == IDLE_STOP_MIN_EOSE,
    {
        Self::new_with_config(
            MAX_ACTIVE_RELAYS,
            PERIOD_START_PAST_SECS,
            IDLE_STOP_SECS,
            IDLE_STOP_MIN_EOSE,
            now,
        )
    }

    /// Inserts bootstrap addresses until the registry reaches the pool
    /// capacity, even mid-list.
    pub fn add_bootstrap_relays_if_needed(&mut self, bootstrap_relays: &Vec<String>)
        requires
            old(self).wf(),
        ensures
            final(self).wf(),
            final(self).relays@ == seed_spec(
                old(self).relays@,
                bootstrap_relays.deep_view(),
                old(self).capacity as nat,
            ),
            final(self).eose_relays == old(self).eose_relays,
            final(self).time_last_event == old(self).time_last_event,
            final(self).state == old(self).state,
            final(self).capacity == old(self).capacity,
            final(self).lookback_secs == old(self).lookback_secs,
            final(self).idle_threshold_secs == old(self).idle_threshold_secs,
            final(self).min_eose_for_idle_stop == old(self).min_eose_for_idle_stop,
    {
        let ghost bl = bootstrap_relays.deep_view();
        let ghost cap = old(self).capacity as nat;
        let ghost target = seed_spec(old(self).relays@, bl, cap);
        proof {
            assert(bl.skip(0) =~= bl);
        }
        let mut i: usize = 0;
        while i < bootstrap_relays.len()
            invariant
                i <= bootstrap_relays.len(),
                bl == bootstrap_relays.deep_view(),
                bl.len() == bootstrap_relays@.len(),
                cap == old(self).capacity as nat,
                target == seed_spec(old(self).relays@, bl, cap),
                self.relays.wf(),
                target == seed_spec(self.relays@, bl.skip(i as int), cap),
                self.eose_relays == old(self).eose_relays,
                no_dups(self.eose_relays.deep_view()),
                self.time_last_event == old(self).time_last_event,
                self.state == old(self).state,
                self.capacity == old(self).capacity,
                self.lookback_secs == old(self).lookback_secs,
                self.idle_threshold_secs == old(self).idle_threshold_secs,
                self.min_eose_for_idle_stop == old(self).min_eose_for_idle_stop,
            decreases bootstrap_relays.len() - i,
        {
            if self.relays.count() >= self.capacity {
                proof {
                    assert(self.relays@.len() >= cap);
                    assert(seed_spec(self.relays@, bl.skip(i as int), cap) == self.relays@);
                }
                return ;
            }
            let ghost prev = self.relays@;
            let _ = self.relays.add(bootstrap_relays[i].as_str());
            proof {
                let sk = bl.skip(i as int);
                assert(sk.len() > 0);
                assert(sk.first() == bl[i as int]);
                assert(sk.drop_first() =~= bl.skip(i + 1 as int));
                assert(seed_spec(prev, sk, cap) == seed_spec(
                    crate::relays::add_spec(prev, sk.first()),
                    sk.drop_first(),
                    cap,
                ));
            }
            i += 1;
        }
        proof {
            assert(bl.skip(bl.len() as int) =~= Seq::<Seq<char>>::empty());
            assert(seed_spec(self.relays@, bl.skip(i as int), cap) == self.relays@);
        }
    }

    /// Seeds the registry from the bootstrap list and hands back the sample
    /// of addresses to activate; the crawl moves on to subscribing.
    pub fn start(&mut self, bootstrap_relays: &Vec<String>) -> (activation: Vec<String>)
        requires
            old(self).wf(),
            old(self).state == CrawlState::Seeding,
        ensures
            final(self).wf(),
            final(self).state == CrawlState::Subscribing,
            final(self).relays@ == seed_spec(
                old(self).relays@,
                bootstrap_relays.deep_view(),
                old(self).capacity as nat,
            ),
            activation.deep_view() == sample_spec(final(self).relays@, final(self).capacity as int),
            final(self).eose_relays == old(self).eose_relays,
            final(self).time_last_event == old(self).time_last_event,
            final(self).capacity == old(self).capacity,
            final(self).lookback_secs == old(self).lookback_secs,
            final(self).idle_threshold_secs == old(self).idle_threshold_secs,
            final(self).min_eose_for_idle_stop == old(self).min_eose_for_idle_stop,
    {
        self.add_bootstrap_relays_if_needed(bootstrap_relays);
        self.state = CrawlState::Subscribing;
        self.relays.get_some(self.capacity)
    }

    /// Computes the closed subscription time window ending now and moves
    /// the crawl to listening; the caller issues the subscription itself.
    pub fn subscribe(&mut self, now: u64) -> (window: (u64, u64))
        requires
            old(self).wf(),
            old(self).state == CrawlState::Subscribing,
        ensures
            final(self).wf(),
            final(self).state == CrawlState::Listening,
            final(self).relays == old(self).relays,
            final(self).eose_relays == old(self).eose_relays,
            final(self).time_last_event == old(self).time_last_event,
            final(self).capacity == old(self).capacity,
            final(self).lookback_secs == old(self).lookback_secs,
            final(self).idle_threshold_secs == old(self).idle_threshold_secs,
            final(self).min_eose_for_idle_stop == old(self).min_eose_for_idle_stop,
            window.1 == now,
            window.0 == if now >= old(self).lookback_secs {
                (now - old(self).lookback_secs) as int
            } else {
                0
            },
    {
        self.state = CrawlState::Listening;
        let start = if now >= self.lookback_secs {
            now - self.lookback_secs
        } else {
            0
        };
        (start, now)
    }

    /// The event kinds the crawl subscription asks for: exactly the
    /// discovery-relevant ones.
    pub fn subscribed_kinds() -> (r: Vec<EventKind>)
        ensures
            r@ == seq![
                EventKind::ContactList,
                EventKind::RecommendRelay,
                EventKind::LongFormTextNote,
            ],
            forall|i: int| 0 <= i < r@.len() ==> is_discovery_relevant(r@[i]),
    {
        let mut v: Vec<EventKind> = Vec::new();
        v.push(EventKind::ContactList);
        v.push(EventKind::RecommendRelay);
        v.push(EventKind::LongFormTextNote);
        proof {
            assert(v@ =~= seq![
                EventKind::ContactList,
                EventKind::RecommendRelay,
                EventKind::LongFormTextNote,
            ]);
        }
        v
    }

    /// Decides whether tearing down and rebuilding the pool is beneficial:
    /// only when the pool is below capacity and more endpoints are known
    /// than are active. Returns the sample to rebuild with.
    pub fn reconnect_if_beneficial(&self, active_count: usize) -> (r: Option<Vec<String>>)
        requires
            self.wf(),
        ensures
            r is Some <==> active_count < self.capacity && self.relays@.len() > active_count,
            r matches Some(v) ==> v.deep_view() == sample_spec(self.relays@, self.capacity as int),
    {
        if active_count < self.capacity {
            let c = self.relays.count();
            if c > active_count {
                Option::Some(self.relays.get_some(self.capacity))
            } else {
                Option::None
            }
        } else {
            Option::None
        }
    }

    /// Records the time of the last discovery-relevant event.
    fn update_event_time(&mut self, now: u64)
        ensures
            *final(self) == (RelayManager { time_last_event: now, ..*old(self) }),
    {
        self.time_last_event = now;
    }

    /// Seconds since the last discovery-relevant event.
    fn get_last_event_ago(&self, now: u64) -> (r: u64)
        ensures
            r == idle_elapsed(now, self.time_last_event),
    {
        if now >= self.time_last_event {
            now - self.time_last_event
        } else {
            0
        }
    }

    /// Whether the idle stop condition holds now.
    fn idle_stop_reached(&self, now: u64) -> (r: bool)
        ensures
            r == idle_reached(
                now,
                self.time_last_event,
                self.eose_relays.deep_view().len(),
                self.idle_threshold_secs,
                self.min_eose_for_idle_stop as nat,
            ),
    {
        let age = self.get_last_event_ago(now);
        age > self.idle_threshold_secs && self.eose_relays.len() >= self.min_eose_for_idle_stop
    }

    /// Records that a connection signalled end-of-feed, at most once per
    /// connection identifier.
    fn insert_eose(&mut self, connection: &str)
        requires
            old(self).wf(),
        ensures
            final(self).wf(),
            final(self).eose_relays.deep_view() == insert_id(
                old(self).eose_relays.deep_view(),
                connection@,
            ),
            final(self).relays == old(self).relays,
            final(self).time_last_event == old(self).time_last_event,
            final(self).state == old(self).state,
            final(self).capacity == old(self).capacity,
            final(self).lookback_secs == old(self).lookback_secs,
            final(self).idle_threshold_secs == old(self).idle_threshold_secs,
            final(self).min_eose_for_idle_stop == old(self).min_eose_for_idle_stop,
    {
        let key = connection.to_owned();
        if !contains_addr(&self.eose_relays, &key) {
            proof {
                assert forall|k: int|
                    0 <= k < self.eose_relays.deep_view().len() implies self.eose_relays.deep_view()[k]
                    != key@ by {
                    if self.eose_relays.deep_view()[k] == key@ {
                        assert(self.eose_relays.deep_view().contains(key@));
                    }
                }
            }
            let ghost before = self.eose_relays.deep_view();
            self.eose_relays.push(key);
            proof {
                assert(self.eose_relays.deep_view() =~= before.push(connection@));
            }
        }
    }

    /// Dispatches one received event: updates the last-event clock if the
    /// kind is discovery-relevant, feeds every candidate address into the
    /// registry, and reports whether any new address was discovered.
    pub fn handle_event(&mut self, event: &NostrEvent, now: u64) -> (inserted_any: bool)
        requires
            old(self).wf(),
        ensures
            final(self).wf(),
            final(self).relays@ == add_all_spec(old(self).relays@, candidate_addresses(*event)),
            final(self).time_last_event == if is_discovery_relevant(event.kind) {
                now as int
            } else {
                old(self).time_last_event as int
            },
            final(self).eose_relays == old(self).eose_relays,
            final(self).state == old(self).state,
            final(self).capacity == old(self).capacity,
            final(self).lookback_secs == old(self).lookback_secs,
            final(self).idle_threshold_secs == old(self).idle_threshold_secs,
            final(self).min_eose_for_idle_stop == old(self).min_eose_for_idle_stop,
            inserted_any == (final(self).relays@.len() > old(self).relays@.len()),
    {
        let (relevant, cands) = crate::events::classify(event);
        if relevant {
            self.update_event_time(now);
        }
        let before_count = self.relays.count();
        let ghost cd = cands.deep_view();
        let ghost time_after = self.time_last_event;
        proof {
            assert(cd.take(0) =~= Seq::<Seq<char>>::empty());
        }
        let mut i: usize = 0;
        while i < cands.len()
            invariant
                i <= cands.len(),
                cd == cands.deep_view(),
                cd.len() == cands@.len(),
                self.relays.wf(),
                self.relays@ == add_all_spec(old(self).relays@, cd.take(i as int)),
                self.eose_relays == old(self).eose_relays,
                no_dups(self.eose_relays.deep_view()),
                self.time_last_event == time_after,
                self.state == old(self).state,
                self.capacity == old(self).capacity,
                self.lookback_secs == old(self).lookback_secs,
                self.idle_threshold_secs == old(self).idle_threshold_secs,
                self.min_eose_for_idle_stop == old(self).min_eose_for_idle_stop,
            decreases cands.len() - i,
        {
            let _ = self.relays.add(cands[i].as_str());
            proof {
                let t = cd.take(i + 1 as int);
                assert(t.drop_last() =~= cd.take(i as int));
                assert(t.last() == cd[i as int]);
                assert(self.relays@ == add_all_spec(old(self).relays@, t));
            }
            i += 1;
        }
        proof {
            assert(cd.take(cd.len() as int) =~= cd);
        }
        let after_count = self.relays.count();
        proof {
            lemma_add_all_grows(old(self).relays@, cd);
        }
        after_count > before_count
    }

    /// Handles one notification of the pool's stream while listening:
    /// end-of-feed markers feed the quorum heuristic, messages feed the
    /// registry and the reconnect decision, shutdown drains at once, and
    /// the idle heuristic is checked after every notification.
    pub fn handle_notification(&mut self, notification: Notification, active_count: usize, now: u64) -> (action: Action)
        requires
            old(self).wf(),
            old(self).state == CrawlState::Listening,
        ensures
            final(self).wf(),
            final(self).capacity == old(self).capacity,
            final(self).lookback_secs == old(self).lookback_secs,
            final(self).idle_threshold_secs == old(self).idle_threshold_secs,
            final(self).min_eose_for_idle_stop == old(self).min_eose_for_idle_stop,
            final(self).state == if action is Drain {
                CrawlState::Draining
            } else {
                CrawlState::Listening
            },
            notification is Shutdown ==> {
                &&& action is Drain
                &&& final(self).relays == old(self).relays
                &&& final(self).eose_relays == old(self).eose_relays
                &&& final(self).time_last_event == old(self).time_last_event
            },
            notification matches Notification::EndOfFeed { connection } ==> {
                &&& final(self).relays == old(self).relays
                &&& final(self).time_last_event == old(self).time_last_event
                &&& final(self).eose_relays.deep_view() == insert_id(
                    old(self).eose_relays.deep_view(),
                    connection@,
                )
                &&& (action is Drain <==> quorum_reached(
                    final(self).eose_relays.deep_view().len(),
                    active_count as nat,
                ) || idle_reached(
                    now,
                    final(self).time_last_event,
                    final(self).eose_relays.deep_view().len(),
                    final(self).idle_threshold_secs,
                    final(self).min_eose_for_idle_stop as nat,
                ))
                &&& (action is Drain || action is KeepListening)
            },
            notification matches Notification::Message { connection, event } ==> {
                let new_relays = add_all_spec(old(self).relays@, candidate_addresses(event));
                let grew = new_relays.len() > old(self).relays@.len();
                let idle = idle_reached(
                    now,
                    final(self).time_last_event,
                    final(self).eose_relays.deep_view().len(),
                    final(self).idle_threshold_secs,
                    final(self).min_eose_for_idle_stop as nat,
                );
                &&& final(self).relays@ == new_relays
                &&& final(self).time_last_event == if is_discovery_relevant(event.kind) {
                    now as int
                } else {
                    old(self).time_last_event as int
                }
                &&& final(self).eose_relays == old(self).eose_relays
                &&& (idle ==> action is Drain)
                &&& (!idle && grew && active_count < final(self).capacity && new_relays.len()
                    > active_count ==> (action matches Action::Rebuild(v) && v.deep_view()
                    == sample_spec(new_relays, final(self).capacity as int)))
                &&& (!idle && !(grew && active_count < final(self).capacity && new_relays.len()
                    > active_count) ==> action is KeepListening)
            },
    {
        match notification {
            Notification::Shutdown => {
                self.state = CrawlState::Draining;
                Action::Drain
            },
            Notification::EndOfFeed { connection } => {
                self.insert_eose(connection.as_str());
                let e = self.eose_relays.len();
                let quorum = active_count > 0 && e >= active_count;
                let idle = self.idle_stop_reached(now);
                if quorum || idle {
                    self.state = CrawlState::Draining;
                    Action::Drain
                } else {
                    Action::KeepListening
                }
            },
            Notification::Message { connection: _, event } => {
                let inserted_any = self.handle_event(&event, now);
                if self.idle_stop_reached(now) {
                    self.state = CrawlState::Draining;
                    Action::Drain
                } else if inserted_any {
                    match self.reconnect_if_beneficial(active_count) {
                        Option::Some(v) => Action::Rebuild(v),
                        Option::None => Action::KeepListening,
                    }
                } else {
                    Action::KeepListening
                }
            },
        }
    }

    /// After unsubscribing and disconnecting, the crawl is over.
    pub fn finish(&mut self)
        requires
            old(self).wf(),
            old(self).state == CrawlState::Draining,
        ensures
            final(self).wf(),
            final(self).state == CrawlState::Stopped,
            final(self).relays == old(self).relays,
            final(self).eose_relays == old(self).eose_relays,
            final(self).time_last_event == old(self).time_last_event,
            final(self).capacity == old(self).capacity,
            final(self).lookback_secs == old(self).lookback_secs,
            final(self).idle_threshold_secs == old(self).idle_threshold_secs,
            final(self).min_eose_for_idle_stop == old(self).min_eose_for_idle_stop,
    {
        self.state = CrawlState::Stopped;
    }
}

/// The registry never shrinks while candidate addresses are inserted.
pub proof fn lemma_add_all_grows(s: Seq<Seq<char>>, cands: Seq<Seq<char>>)
    ensures
        add_all_spec(s, cands).len() >= s.len(),
    decreases cands.len(),
{
    if cands.len() > 0 {
        lemma_add_all_grows(s, cands.drop_last());
    }
}

/// Quorum termination: with a positive number of active or connecting
/// connections, recording one more end-of-feed marker reaches the quorum
/// exactly when the number of distinct reporting connections has grown to
/// the number of active connections — a repeated marker changes nothing,
/// and a fresh one advances the count by exactly one.
pub proof fn lemma_quorum_termination(eose: Seq<Seq<char>>, id: Seq<char>, active_count: nat)
    requires
        active_count > 0,
    ensures
        quorum_reached(insert_id(eose, id).len(), active_count) <==> insert_id(eose, id).len()
            >= active_count,
        eose.contains(id) ==> insert_id(eose, id) == eose,
        !eose.contains(id) ==> insert_id(eose, id).len() == eose.len() + 1,
{
}

/// No false quorum: with no active or connecting connections, no number of
/// end-of-feed reports ever reaches the quorum.
pub proof fn lemma_no_false_quorum(eose_count: nat)
    ensures
        !quorum_reached(eose_count, 0),
{
}

/// Idle termination: once no discovery-relevant event has arrived for
/// longer than the idle threshold and at least the minimum number of
/// end-of-feed reports are in, the idle stop condition holds.
pub proof fn lemma_idle_termination(now: u64, last_event: u64, eose_count: nat)
    requires
        idle_elapsed(now, last_event) > IDLE_STOP_SECS,
        eose_count >= IDLE_STOP_MIN_EOSE,
    ensures
        idle_reached(now, last_event, eose_count, IDLE_STOP_SECS, IDLE_STOP_MIN_EOSE as nat),
{
}

} // verus!
