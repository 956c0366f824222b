//! The outbox: fanning a committed transaction out into one pending record
//! per active endpoint, selecting the records due for delivery, and moving a
//! record through its lifecycle after an attempt.

use vstd::prelude::*;

use crate::store::Ledger;
use crate::webhook::{EventStatus, WebhookEndpoint, WebhookEvent};
use crate::worker::{spec_fail_step, spec_success_step, plan_failure};

verus! {

/// One due outbox record, joined with the URL it must be posted to.
#[derive(Clone, Debug)]
pub struct DueWebhookEvent {
    pub event_id: u128,
    pub url: String,
    pub payload_json: String,
    pub attempts: i32,
}

/// Identifiers of the active endpoints of `business_id`, in store order.
pub open spec fn spec_active_ids(endpoints: Seq<WebhookEndpoint>, business_id: u128) -> Seq<u128>
    decreases endpoints.len(),
{
    if endpoints.len() == 0 {
        Seq::empty()
    } else {
        let head: Seq<u128> = if endpoints[0].business_id == business_id && endpoints[0].active {
            seq![endpoints[0].id]
        } else {
            Seq::empty()
        };
        head + spec_active_ids(endpoints.drop_first(), business_id)
    }
}

/// Whether an outbox record is due at `now`: still pending, not waiting on a
/// later retry moment, and owned by an endpoint that is still active.
pub open spec fn spec_event_due(
    ev: WebhookEvent,
    endpoints: Seq<WebhookEndpoint>,
    now: i64,
) -> bool {
    &&& ev.status is Pending
    &&& (ev.next_retry_at is None || ev.next_retry_at->0 <= now)
    &&& (ev.endpoint_id as int) < endpoints.len()
    &&& endpoints[ev.endpoint_id as int].active
}

/// Indices of the first records due at `now` from position `i` on, at most
/// `limit` of them, oldest first.
pub open spec fn spec_due_from(
    events: Seq<WebhookEvent>,
    endpoints: Seq<WebhookEndpoint>,
    now: i64,
    limit: int,
    i: int,
) -> Seq<int>
    decreases events.len() - i,
{
    if i < 0 || i >= events.len() || limit <= 0 {
        Seq::empty()
    } else if spec_event_due(events[i], endpoints, now) {
        seq![i] + spec_due_from(events, endpoints, now, limit - 1, i + 1)
    } else {
        spec_due_from(events, endpoints, now, limit, i + 1)
    }
}

/// Whether `new_events` extends `old_events` with exactly the outbox
/// fan-out of one committed transaction: one record per active endpoint of
/// `business_id`, in store order, each born pending with no attempts, no
/// retry moment, and the payload frozen as given.
pub open spec fn spec_fanout(
    old_events: Seq<WebhookEvent>,
    new_events: Seq<WebhookEvent>,
    endpoints: Seq<WebhookEndpoint>,
    business_id: u128,
    transaction_id: u128,
    payload: Seq<char>,
    now: i64,
) -> bool {
    let ids = spec_active_ids(endpoints, business_id);
    &&& new_events.len() == old_events.len() + ids.len()
    &&& (forall|k: int| 0 <= k < old_events.len() ==> new_events[k] == old_events[k])
    &&& (forall|k: int|
        old_events.len() <= k < new_events.len() ==> {
            let ev = #[trigger] new_events[k];
            &&& ev.id == k as u128
            &&& ev.endpoint_id == ids[k - old_events.len()]
            &&& ev.transaction_id == transaction_id
            &&& ev.payload@ == payload
            &&& ev.status is Pending
            &&& ev.attempts == 0
            &&& ev.next_retry_at is None
            &&& ev.created_at == now
        })
}

/// Whether the rows `out` are exactly the events at positions `chosen`,
/// each joined with its endpoint's URL.
pub open spec fn spec_due_rows_match(
    events: Seq<WebhookEvent>,
    endpoints: Seq<WebhookEndpoint>,
    chosen: Seq<int>,
    out: Seq<DueWebhookEvent>,
) -> bool {
    &&& out.len() == chosen.len()
    &&& forall|k: int|
        #![trigger chosen[k]]
        0 <= k < chosen.len() ==> {
            &&& 0 <= chosen[k] < events.len()
            &&& 0 <= events[chosen[k]].endpoint_id < endpoints.len()
            &&& out[k].event_id == events[chosen[k]].id
            &&& out[k].attempts == events[chosen[k]].attempts
            &&& out[k].payload_json@ == events[chosen[k]].payload@
            &&& out[k].url@ == endpoints[events[chosen[k]].endpoint_id as int].url@
        }
}

impl WebhookEndpoint {
    /// An equal copy, spelled out so it is known to equal the value it was
    /// taken from.
    pub fn duplicate(&self) -> (r: WebhookEndpoint)
        ensures
            r == *self,
    {
        WebhookEndpoint {
            id: self.id,
            business_id: self.business_id,
            url: self.url.clone(),
            active: self.active,
            created_at: self.created_at,
        }
    }
}

impl Ledger {
    /// Registers an endpoint for a business; it starts active.
    pub fn create_webhook_endpoint(&mut self, business_id: u128, url: String, now: i64) -> (r:
        WebhookEndpoint)
        requires
            old(self).wf(),
        ensures
            final(self).wf(),
            r.id == old(self).endpoints@.len() as u128,
            r.business_id == business_id,
            r.url@ == url@,
            r.active,
            r.created_at == now,
            final(self).endpoints@ == old(self).endpoints@.push(r),
            final(self).accounts@ == old(self).accounts@,
            final(self).transactions@ == old(self).transactions@,
            final(self).events@ == old(self).events@,
    {
        let ep = WebhookEndpoint {
            id: self.endpoints.len() as u128,
            business_id,
            url,
            active: true,
            created_at: now,
        };
        let out = ep.duplicate();
        self.endpoints.push(ep);
        out
    }

    /// Whether the endpoint `id` exists and belongs to `business_id`.
    pub open spec fn endpoint_ok(self, business_id: u128, id: u128) -> bool {
        &&& (id as int) < self.endpoints@.len()
        &&& self.endpoints@[id as int].id == id
        &&& self.endpoints@[id as int].business_id == business_id
    }

    /// Deactivates an endpoint, so it receives no further events; the record
    /// itself stays. Reports whether a row was touched.
    pub fn deactivate_webhook_endpoint(&mut self, business_id: u128, endpoint_id: u128) -> (r:
        bool)
        requires
            old(self).wf(),
        ensures
            final(self).wf(),
            r == old(self).endpoint_ok(business_id, endpoint_id),
            r ==> final(self).endpoints@ == old(self).endpoints@.update(
                endpoint_id as int,
                WebhookEndpoint {
                    active: false,
                    ..old(self).endpoints@[endpoint_id as int]
                },
            ),
            !r ==> *final(self) == *old(self),
            final(self).accounts@ == old(self).accounts@,
            final(self).transactions@ == old(self).transactions@,
            final(self).events@ == old(self).events@,
    {
        if endpoint_id < self.endpoints.len() as u128 {
            let i = endpoint_id as usize;
            if self.endpoints[i].id == endpoint_id && self.endpoints[i].business_id == business_id
            {
                let ep = &mut self.endpoints[i];
                ep.active = false;
                return true;
            }
        }
        false
    }

    /// The endpoints of `business_id`, newest first.
    pub open spec fn spec_endpoints_of(
        endpoints: Seq<WebhookEndpoint>,
        business_id: u128,
    ) -> Seq<WebhookEndpoint>
        decreases endpoints.len(),
    {
        if endpoints.len() == 0 {
            Seq::empty()
        } else {
            let head: Seq<WebhookEndpoint> = if endpoints.last().business_id == business_id {
                seq![endpoints.last()]
            } else {
                Seq::empty()
            };
            head + Self::spec_endpoints_of(endpoints.drop_last(), business_id)
        }
    }

    /// Every endpoint of a business, active or not, newest first.
    pub fn list_webhook_endpoints(&self, business_id: u128) -> (r: Vec<WebhookEndpoint>)
        ensures
            r@ == Self::spec_endpoints_of(self.endpoints@, business_id),
    {
        let n = self.endpoints.len();
        let mut out: Vec<WebhookEndpoint> = Vec::new();
        let mut i: usize = n;
        proof {
            assert(self.endpoints@.take(n as int) =~= self.endpoints@);
            assert(Seq::<WebhookEndpoint>::empty() + Self::spec_endpoints_of(
                self.endpoints@,
                business_id,
            ) =~= Self::spec_endpoints_of(self.endpoints@, business_id));
        }
        while i > 0
            invariant
                0 <= i <= n,
                n == self.endpoints@.len(),
                Self::spec_endpoints_of(self.endpoints@, business_id) == out@
                    + Self::spec_endpoints_of(self.endpoints@.take(i as int), business_id),
            decreases i,
        {
            i = i - 1;
            let ghost pre = self.endpoints@.take(i as int + 1);
            proof {
                assert(pre.last() == self.endpoints@[i as int]);
                assert(pre.drop_last() =~= self.endpoints@.take(i as int));
            }
            let ep = &self.endpoints[i];
            if ep.business_id == business_id {
                let ghost out0 = out@;
                out.push(ep.duplicate());
                proof {
                    let rest = Self::spec_endpoints_of(
                        self.endpoints@.take(i as int),
                        business_id,
                    );
                    assert(out0 + (seq![self.endpoints@[i as int]] + rest) =~= out@ + rest);
                }
            }
        }
        proof {
            assert(Self::spec_endpoints_of(self.endpoints@.take(0), business_id)
                =~= Seq::<WebhookEndpoint>::empty());
            assert(out@ + Seq::<WebhookEndpoint>::empty() =~= out@);
        }
        out
    }

    /// Fans a committed transaction out into the outbox: one record per
    /// active endpoint of the business, each born pending with no attempts,
    /// no retry moment, and the payload frozen as given. A business with no
    /// active endpoint gets none, and that is no error. Returns how many
    /// records were created.
    pub fn enqueue_webhook_events_for_transaction(
        &mut self,
        business_id: u128,
        transaction_id: u128,
        payload: &str,
        now: i64,
    ) -> (r: usize)
        requires
            old(self).wf(),
        ensures
            final(self).wf(),
            r == spec_active_ids(old(self).endpoints@, business_id).len(),
            spec_fanout(
                old(self).events@,
                final(self).events@,
                old(self).endpoints@,
                business_id,
                transaction_id,
                payload@,
                now,
            ),
            final(self).accounts@ == old(self).accounts@,
            final(self).transactions@ == old(self).transactions@,
            final(self).endpoints@ == old(self).endpoints@,
    {
        let ghost all_ids = spec_active_ids(old(self).endpoints@, business_id);
        let ghost old_len = old(self).events@.len() as int;
        let n = self.endpoints.len();
        let mut c: usize = 0;
        let ghost mut emitted: Seq<u128> = Seq::empty();
        let mut i: usize = 0;
        proof {
            assert(self.endpoints@.skip(0) =~= self.endpoints@);
            assert(Seq::<u128>::empty() + all_ids =~= all_ids);
        }
        while i < n
            invariant
                0 <= i <= n,
                c <= i,
                self.wf(),
                n == self.endpoints@.len(),
                self.accounts@ == old(self).accounts@,
                self.transactions@ == old(self).transactions@,
                self.endpoints@ == old(self).endpoints@,
                old_len == old(self).events@.len() as int,
                all_ids == spec_active_ids(old(self).endpoints@, business_id),
                c == emitted.len(),
                self.events@.len() == old_len + c,
                forall|k: int| 0 <= k < old_len ==> self.events@[k] == old(self).events@[k],
                forall|k: int|
                    old_len <= k < self.events@.len() ==> {
                        let ev = #[trigger] self.events@[k];
                        &&& ev.id == k as u128
                        &&& ev.endpoint_id == emitted[k - old_len]
                        &&& ev.transaction_id == transaction_id
                        &&& ev.payload@ == payload@
                        &&& ev.status is Pending
                        &&& ev.attempts == 0
                        &&& ev.next_retry_at is None
                        &&& ev.created_at == now
                    },
                all_ids == emitted + spec_active_ids(
                    self.endpoints@.skip(i as int),
                    business_id,
                ),
            decreases n - i,
        {
            proof {
                assert(self.endpoints@.skip(i as int)[0] == self.endpoints@[i as int]);
                assert(self.endpoints@.skip(i as int).drop_first() =~= self.endpoints@.skip(
                    i as int + 1,
                ));
            }
            let matching = {
                let ep = &self.endpoints[i];
                ep.business_id == business_id && ep.active
            };
            if matching {
                let ev = WebhookEvent {
                    id: self.events.len() as u128,
                    endpoint_id: self.endpoints[i].id,
                    transaction_id,
                    payload: payload.to_owned(),
                    status: EventStatus::Pending,
                    attempts: 0,
                    next_retry_at: None,
                    created_at: now,
                };
                proof {
                    emitted = emitted.push(self.endpoints@[i as int].id);
                }
                self.events.push(ev);
                c = c + 1;
            }
            i = i + 1;
        }
        proof {
            assert(self.endpoints@.skip(n as int) =~= Seq::<WebhookEndpoint>::empty());
            assert(all_ids =~= emitted);
        }
        c
    }

    /// The records due for delivery at `now`: pending, past any scheduled
    /// retry moment, owned by an active endpoint; oldest first, at most
    /// `limit` of them, each joined with its endpoint's URL.
    pub fn fetch_due_webhook_events(&self, now: i64, limit: usize) -> (r: Vec<DueWebhookEvent>)
        requires
            self.wf(),
        ensures
            spec_due_rows_match(
                self.events@,
                self.endpoints@,
                spec_due_from(self.events@, self.endpoints@, now, limit as int, 0),
                r@,
            ),
    {
        let n = self.events.len();
        let mut out: Vec<DueWebhookEvent> = Vec::new();
        let ghost mut chosen: Seq<int> = Seq::empty();
        let mut i: usize = 0;
        while i < n && out.len() < limit
            invariant
                0 <= i <= n,
                self.wf(),
                n == self.events@.len(),
                out@.len() == chosen.len(),
                out@.len() <= limit,
                spec_due_from(self.events@, self.endpoints@, now, limit as int, 0) == chosen
                    + spec_due_from(
                    self.events@,
                    self.endpoints@,
                    now,
                    limit - out@.len(),
                    i as int,
                ),
                spec_due_rows_match(self.events@, self.endpoints@, chosen, out@),
            decreases n - i,
        {
            let ghost chosen_in = chosen;
            let ghost out_in = out@;
            let ghost pre_len = out@.len() as int;
            let ghost rest = spec_due_from(
                self.events@,
                self.endpoints@,
                now,
                limit - pre_len,
                i as int,
            );
            let ev = &self.events[i];
            let due_now = ev.status == EventStatus::Pending && (match ev.next_retry_at {
                Option::None => true,
                Option::Some(t) => t <= now,
            });
            let ep_idx = ev.endpoint_id as usize;
            proof {
                assert(self.endpoints@.len() == self.endpoints.len());
                assert((self.events@[i as int].endpoint_id as int) < self.endpoints@.len());
                assert(ep_idx as int == self.events@[i as int].endpoint_id as int);
            }
            let taken = due_now && self.endpoints[ep_idx].active;
            proof {
                assert(taken == spec_event_due(self.events@[i as int], self.endpoints@, now));
            }
            if taken {
                proof {
                    assert(rest == seq![i as int] + spec_due_from(
                        self.events@,
                        self.endpoints@,
                        now,
                        limit - pre_len - 1,
                        i as int + 1,
                    ));
                }
                out.push(
                    DueWebhookEvent {
                        event_id: ev.id,
                        url: self.endpoints[ep_idx].url.clone(),
                        payload_json: ev.payload.clone(),
                        attempts: ev.attempts,
                    },
                );
                proof {
                    let tail = spec_due_from(
                        self.events@,
                        self.endpoints@,
                        now,
                        limit - pre_len - 1,
                        i as int + 1,
                    );
                    let chosen0 = chosen;
                    chosen = chosen.push(i as int);
                    assert(chosen0 + (seq![i as int] + tail) =~= chosen + tail);
                }
            }
            proof {
                if !taken {
                    assert(!spec_event_due(self.events@[i as int], self.endpoints@, now));
                    assert(rest == spec_due_from(
                        self.events@,
                        self.endpoints@,
                        now,
                        limit - pre_len,
                        i as int + 1,
                    ));
                }
                assert forall|k: int| #![trigger chosen[k]] 0 <= k < chosen.len() implies {
                    &&& 0 <= chosen[k] < self.events@.len()
                    &&& 0 <= self.events@[chosen[k]].endpoint_id < self.endpoints@.len()
                    &&& out@[k].event_id == self.events@[chosen[k]].id
                    &&& out@[k].attempts == self.events@[chosen[k]].attempts
                    &&& out@[k].payload_json@ == self.events@[chosen[k]].payload@
                    &&& out@[k].url@ == self.endpoints@[self.events@[chosen[k]].endpoint_id as int].url@
                } by {
                    if k < chosen_in.len() {
                        assert(out@[k] == out_in[k]);
                        assert(chosen[k] == chosen_in[k]);
                        assert(spec_due_rows_match(self.events@, self.endpoints@, chosen_in, out_in));
                    } else {
                        assert(chosen[k] == i as int);
                    }
                }
            }
            i = i + 1;
        }
        out
    }

    /// Marks an outbox record delivered: a terminal state, with any retry
    /// moment cleared. Touching an unknown record changes nothing.
    pub fn mark_webhook_event_delivered(&mut self, event_id: u128)
        requires
            old(self).wf(),
        ensures
            final(self).wf(),
            (event_id as int) < old(self).events@.len() ==> final(self).events@ == old(
                self,
            ).events@.update(
                event_id as int,
                WebhookEvent {
                    status: EventStatus::Delivered,
                    next_retry_at: None,
                    ..old(self).events@[event_id as int]
                },
            ),
            (event_id as int) >= old(self).events@.len() ==> *final(self) == *old(self),
            final(self).accounts@ == old(self).accounts@,
            final(self).transactions@ == old(self).transactions@,
            final(self).endpoints@ == old(self).endpoints@,
    {
        if event_id < self.events.len() as u128 {
            let i = event_id as usize;
            let ev = &mut self.events[i];
            ev.status = EventStatus::Delivered;
            ev.next_retry_at = None;
        }
    }

    /// Records a failed attempt as the worker decided it: the new attempt
    /// count, the next retry moment if one is owed, and the terminal `Failed`
    /// status once the attempt cap is reached. Touching an unknown record
    /// changes nothing.
    pub fn mark_webhook_event_failed(
        &mut self,
        event_id: u128,
        attempts: i32,
        next_retry_at: Option<i64>,
        terminal: bool,
    )
        requires
            old(self).wf(),
            attempts >= 0,
        ensures
            final(self).wf(),
            (event_id as int) < old(self).events@.len() ==> final(self).events@ == old(
                self,
            ).events@.update(
                event_id as int,
                WebhookEvent {
                    status: if terminal {
                        EventStatus::Failed
                    } else {
                        EventStatus::Pending
                    },
                    attempts,
                    next_retry_at,
                    ..old(self).events@[event_id as int]
                },
            ),
            (event_id as int) >= old(self).events@.len() ==> *final(self) == *old(self),
            final(self).accounts@ == old(self).accounts@,
            final(self).transactions@ == old(self).transactions@,
            final(self).endpoints@ == old(self).endpoints@,
    {
        if event_id < self.events.len() as u128 {
            let i = event_id as usize;
            let ev = &mut self.events[i];
            ev.status = if terminal {
                EventStatus::Failed
            } else {
                EventStatus::Pending
            };
            ev.attempts = attempts;
            ev.next_retry_at = next_retry_at;
        }
    }

    /// Applies one delivery attempt's outcome to an outbox record: success
    /// delivers it for good; failure bumps its attempts and either schedules
    /// a retry or fails it for good at the attempt cap.
    pub fn apply_delivery_result(&mut self, event_id: u128, success: bool, now: i64)
        requires
            old(self).wf(),
            now <= i64::MAX - 300,
        ensures
            final(self).wf(),
            (event_id as int) < old(self).events@.len() ==> final(self).events@ == old(
                self,
            ).events@.update(
                event_id as int,
                if success {
                    spec_success_step(old(self).events@[event_id as int])
                } else {
                    spec_fail_step(old(self).events@[event_id as int], now)
                },
            ),
            (event_id as int) >= old(self).events@.len() ==> *final(self) == *old(self),
            final(self).accounts@ == old(self).accounts@,
            final(self).transactions@ == old(self).transactions@,
            final(self).endpoints@ == old(self).endpoints@,
    {
        if event_id >= self.events.len() as u128 {
            return ;
        }
        if success {
            self.mark_webhook_event_delivered(event_id);
        } else {
            let prior = self.events[event_id as usize].attempts;
            let decision = plan_failure(prior, now);
            self.mark_webhook_event_failed(
                event_id,
                decision.attempts,
                decision.next_retry_at,
                decision.terminal,
            );
        }
    }
}

} // verus!
