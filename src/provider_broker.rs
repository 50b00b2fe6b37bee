use vstd::prelude::*;

use crate::gateway::{CallContext, CallerSession};
use crate::provider::{FocusRequest, ListenRequest, ProviderRequest, ProviderRequestPayload, ProviderResponse, ProviderResponsePayload};
use crate::table::Table;
use crate::text::{decimal, lemma_decimal_injective, u64_to_decimal};

verus! {

/// The app that serves a (capability, method) pair, and the event through
/// which it receives requests.
#[derive(Debug)]
pub struct ProviderRegistration {
    pub provider: CallerSession,
    pub event_name: String,
}

impl Clone for ProviderRegistration {
    fn clone(&self) -> (r: Self)
        ensures
            r == *self,
    {
        ProviderRegistration { provider: self.provider.clone(), event_name: self.event_name.clone() }
    }
}

/// The mathematical value of a registration.
pub struct ProviderRecord {
    pub provider: CallerSession,
    pub event_name: Seq<char>,
}

impl View for ProviderRegistration {
    type V = ProviderRecord;

    open spec fn view(&self) -> ProviderRecord {
        ProviderRecord { provider: self.provider, event_name: self.event_name@ }
    }
}

/// A call for whichever app provides `capability`/`method`. `tx` is the
/// caller's single-use completion handle: it receives the provider's answer,
/// or is dropped when there is none.
pub struct ProviderBrokerRequest<T> {
    pub capability: String,
    pub method: String,
    pub caller: CallerSession,
    pub request: ProviderRequestPayload,
    pub tx: T,
    pub app_id: Option<String>,
}

/// A request sent to a provider and not answered yet.
pub struct PendingRequest<T> {
    pub capability: String,
    pub method: String,
    pub caller: CallerSession,
    pub tx: T,
}

/// The mathematical value of a pending request.
pub struct PendingRecord<T> {
    pub capability: Seq<char>,
    pub method: Seq<char>,
    pub caller: CallerSession,
    pub tx: T,
}

impl<T> View for PendingRequest<T> {
    type V = PendingRecord<T>;

    open spec fn view(&self) -> PendingRecord<T> {
        PendingRecord {
            capability: self.capability@,
            method: self.method@,
            caller: self.caller,
            tx: self.tx,
        }
    }
}

/// The event to emit to a provider so that it serves a request.
#[derive(Debug)]
pub struct ProviderEvent {
    pub provider: CallerSession,
    pub event_name: String,
    pub request: ProviderRequest,
}

/// What became of a call handed to the broker.
#[derive(Debug)]
pub enum InvokeOutcome {
    /// The request went to the registered provider; the event is to be emitted.
    Dispatched(ProviderEvent),
    /// Nobody provides the pair: the request and its completion handle were dropped.
    NoProvider,
    /// Every correlation id has been used: the request was dropped.
    IdsExhausted,
}

/// The caller that a call context stands for.
pub open spec fn caller_of(ctx: CallContext) -> CallerSession {
    CallerSession { session_id: Some(ctx.session_id), app_id: Some(ctx.app_id) }
}

/// The registration table after a listen (`true`) or unlisten request for
/// `key`: a listen makes the caller the provider of record, replacing any
/// earlier one; an unlisten removes whoever was registered.
pub open spec fn after_register(
    regs: Map<(Seq<char>, Seq<char>), ProviderRecord>,
    key: (Seq<char>, Seq<char>),
    event_name: Seq<char>,
    ctx: CallContext,
    listen: bool,
) -> Map<(Seq<char>, Seq<char>), ProviderRecord> {
    if listen {
        regs.insert(key, ProviderRecord { provider: caller_of(ctx), event_name })
    } else {
        regs.remove(key)
    }
}

/// The handle that a response with correlation id `id` fulfills, if any.
pub open spec fn response_target<T>(pending: Map<Seq<char>, PendingRecord<T>>, id: Seq<char>) -> Option<T> {
    if pending.contains_key(id) {
        Some(pending[id].tx)
    } else {
        None
    }
}

/// What `invoke_method` does with a request for `capability`/`method`: with
/// no provider nothing changes and the request is dropped; with every id used
/// nothing changes either; otherwise the request waits under the decimal text
/// of the next correlation number, and the event goes to the provider of record.
pub open spec fn invoked<T>(
    before: ProviderBroker<T>,
    after: ProviderBroker<T>,
    capability: Seq<char>,
    method: Seq<char>,
    caller: CallerSession,
    payload: ProviderRequestPayload,
    tx: T,
    r: InvokeOutcome,
) -> bool {
    let key = (capability, method);
    &&& after.registrations() == before.registrations()
    &&& !before.registrations().contains_key(key) ==> {
        &&& r is NoProvider
        &&& after.pending_requests() == before.pending_requests()
        &&& after.next_correlation == before.next_correlation
    }
    &&& before.registrations().contains_key(key) && before.next_correlation == u64::MAX ==> {
        &&& r is IdsExhausted
        &&& after.pending_requests() == before.pending_requests()
        &&& after.next_correlation == before.next_correlation
    }
    &&& before.registrations().contains_key(key) && before.next_correlation < u64::MAX ==> {
        let id = decimal(before.next_correlation as nat);
        let rec = before.registrations()[key];
        &&& r matches InvokeOutcome::Dispatched(ev) && ev.provider == rec.provider
            && ev.event_name@ == rec.event_name && ev.request.correlation_id@ == id
            && ev.request.parameters == payload
        &&& !before.pending_requests().contains_key(id)
        &&& after.pending_requests() == before.pending_requests().insert(
            id,
            PendingRecord { capability, method, caller, tx },
        )
        &&& after.next_correlation == before.next_correlation + 1
    }
}

/// The provider broker: who provides each (capability, method) pair, and
/// which requests wait for an answer, by correlation id.
pub struct ProviderBroker<T> {
    pub providers: Table<(String, String), ProviderRegistration>,
    pub pending: Table<String, PendingRequest<T>>,
    pub next_correlation: u64,
}

impl<T> ProviderBroker<T> {
    /// Both tables are well formed, and every pending correlation id is the
    /// decimal text of a number already handed out.
    pub open spec fn wf(&self) -> bool {
        &&& self.providers.wf()
        &&& self.pending.wf()
        &&& forall|k: Seq<char>| #[trigger]
            self.pending@.contains_key(k) ==> exists|n: nat|
                n < self.next_correlation && k == #[trigger] decimal(n)
    }

    /// The provider of record of each (capability, method) pair.
    pub open spec fn registrations(&self) -> Map<(Seq<char>, Seq<char>), ProviderRecord> {
        self.providers@.map_values(|r: ProviderRegistration| r@)
    }

    /// The requests that wait for an answer, by correlation id.
    pub open spec fn pending_requests(&self) -> Map<Seq<char>, PendingRecord<T>> {
        self.pending@.map_values(|p: PendingRequest<T>| p@)
    }

    pub fn new() -> (r: Self)
        ensures
            r.wf(),
            r.registrations() == Map::<(Seq<char>, Seq<char>), ProviderRecord>::empty(),
            r.pending_requests() == Map::<Seq<char>, PendingRecord<T>>::empty(),
            r.next_correlation == 0,
    {
        let r = ProviderBroker { providers: Table::new(), pending: Table::new(), next_correlation: 0 };
        proof {
            assert(r.registrations() =~= Map::<(Seq<char>, Seq<char>), ProviderRecord>::empty());
            assert(r.pending_requests() =~= Map::<Seq<char>, PendingRecord<T>>::empty());
        }
        r
    }

    /// Makes the caller of `call_ctx` the provider of `capability`/`method`
    /// when `listen_request.listen` holds, replacing any earlier provider;
    /// otherwise removes the registration of the pair.
    pub fn register_or_unregister_provider(
        &mut self,
        capability: String,
        method: String,
        event_name: &str,
        call_ctx: CallContext,
        listen_request: ListenRequest,
    )
        requires
            old(self).wf(),
        ensures
            final(self).wf(),
            final(self).registrations() == after_register(
                old(self).registrations(),
                (capability@, method@),
                event_name@,
                call_ctx,
                listen_request.listen,
            ),
            final(self).pending_requests() == old(self).pending_requests(),
            final(self).next_correlation == old(self).next_correlation,
    {
        let ghost key = (capability@, method@);
        let ghost old_regs = self.providers@;
        let ghost ctx = call_ctx;
        if listen_request.listen {
            let reg = ProviderRegistration {
                provider: CallerSession::from(call_ctx),
                event_name: event_name.to_owned(),
            };
            let ghost rec = reg@;
            self.providers.insert((capability, method), reg);
            proof {
                assert(rec == (ProviderRecord { provider: caller_of(ctx), event_name: event_name@ }));
                assert(self.registrations() =~= old_regs.map_values(|r: ProviderRegistration| r@).insert(key, rec));
            }
        } else {
            let _ = self.providers.remove(&(capability, method));
            proof {
                assert(self.registrations() =~= old_regs.map_values(|r: ProviderRegistration| r@).remove(key));
            }
        }
    }

    /// Routes a request to the provider of its (capability, method) pair.
    /// With no provider, the request is dropped at once, so its completion
    /// handle never receives a value. Otherwise the request waits under a
    /// fresh correlation id and the event for the provider is returned.
    pub fn invoke_method(&mut self, request: ProviderBrokerRequest<T>) -> (r: InvokeOutcome)
        requires
            old(self).wf(),
        ensures
            final(self).wf(),
            invoked(
                *old(self),
                *final(self),
                request.capability@,
                request.method@,
                request.caller,
                request.request,
                request.tx,
                r,
            ),
    {
        let key = (request.capability.clone(), request.method.clone());
        let reg = match self.providers.get(&key) {
            Some(reg) => reg.clone(),
            None => {
                proof {
                    assert(!self.registrations().contains_key((request.capability@, request.method@)));
                }
                return InvokeOutcome::NoProvider;
            },
        };
        proof {
            assert(self.registrations().contains_key(key@));
            assert(self.registrations()[key@] == reg@);
        }
        if self.next_correlation == u64::MAX {
            return InvokeOutcome::IdsExhausted;
        }
        let n = self.next_correlation;
        let id = u64_to_decimal(n);
        proof {
            if self.pending@.contains_key(id@) {
                let m = choose|m: nat| m < n && id@ == #[trigger] decimal(m);
                lemma_decimal_injective(m, n as nat);
            }
        }
        let ProviderBrokerRequest { capability, method, caller, request: payload, tx, app_id: _ } =
            request;
        let event = ProviderEvent {
            provider: reg.provider,
            event_name: reg.event_name,
            request: ProviderRequest { correlation_id: id.clone(), parameters: payload },
        };
        let ghost old_pending = self.pending@;
        let pending = PendingRequest { capability, method, caller, tx };
        let ghost rec = pending@;
        self.pending.insert(id, pending);
        self.next_correlation = n + 1;
        proof {
            assert forall|k: Seq<char>| #[trigger]
                self.pending@.contains_key(k) implies exists|m: nat|
                m < self.next_correlation && k == #[trigger] decimal(m) by {
                if k != decimal(n as nat) {
                    assert(old_pending.contains_key(k));
                    let m = choose|m: nat| m < n && k == #[trigger] decimal(m);
                    assert(m < self.next_correlation && k == decimal(m));
                }
            }
        }
        proof {
            assert(self.pending_requests() =~= old_pending.map_values(|p: PendingRequest<T>| p@).insert(
                decimal(n as nat),
                rec,
            ));
        }
        InvokeOutcome::Dispatched(event)
    }

    /// Hands a provider's answer to the request it correlates with: the
    /// pending entry is removed and its completion handle is returned with
    /// the result, for the caller to fulfill. An unknown or already answered
    /// correlation id gives `None` and changes nothing.
    pub fn provider_response(&mut self, response: ProviderResponse) -> (r: Option<
        (T, ProviderResponsePayload),
    >)
        requires
            old(self).wf(),
        ensures
            final(self).wf(),
            final(self).registrations() == old(self).registrations(),
            final(self).next_correlation == old(self).next_correlation,
            final(self).pending_requests() == old(self).pending_requests().remove(
                response.correlation_id@,
            ),
            match response_target(old(self).pending_requests(), response.correlation_id@) {
                Some(tx) => r == Some((tx, response.result)),
                None => r is None,
            },
    {
        let ProviderResponse { correlation_id, result } = response;
        let ghost old_pending = self.pending@;
        let r = match self.pending.remove(&correlation_id) {
            Some(p) => Some((p.tx, result)),
            None => None,
        };
        proof {
            assert(self.pending_requests() =~= old_pending.map_values(|p: PendingRequest<T>| p@).remove(
                correlation_id@,
            ));
        }
        r
    }

    /// The app to bring to the foreground when a provider asks for focus
    /// while it serves the request `request.correlation_id` of `capability`:
    /// the caller's app. Nothing is owed for any other correlation id.
    pub fn focus(&self, call_ctx: CallContext, capability: String, request: FocusRequest) -> (r:
        Option<String>)
        requires
            self.wf(),
        ensures
            r is Some <==> self.pending_requests().contains_key(request.correlation_id@)
                && self.pending_requests()[request.correlation_id@].capability == capability@,
            r matches Some(app) ==> app == call_ctx.app_id,
    {
        match self.pending.get(&request.correlation_id) {
            Some(p) => {
                if p.capability == capability {
                    Some(call_ctx.app_id)
                } else {
                    None
                }
            },
            None => None,
        }
    }
}

/// A listen replaces the provider of record: after A and then B register
/// for the same pair, requests for the pair go to B, and never to A when A
/// and B are different callers. Right after A's registration they go to A.
pub proof fn lemma_latest_registration_routes(
    regs: Map<(Seq<char>, Seq<char>), ProviderRecord>,
    capability: Seq<char>,
    method: Seq<char>,
    event_name: Seq<char>,
    ctx_a: CallContext,
    ctx_b: CallContext,
)
    ensures
        after_register(regs, (capability, method), event_name, ctx_a, true)[(
            capability,
            method,
        )].provider == caller_of(ctx_a),
        after_register(
            after_register(regs, (capability, method), event_name, ctx_a, true),
            (capability, method),
            event_name,
            ctx_b,
            true,
        )[(capability, method)].provider == caller_of(ctx_b),
        caller_of(ctx_a) != caller_of(ctx_b) ==> after_register(
            after_register(regs, (capability, method), event_name, ctx_a, true),
            (capability, method),
            event_name,
            ctx_b,
            true,
        )[(capability, method)].provider != caller_of(ctx_a),
{
}

/// A correlation id is answered at most once: once a response has removed
/// its entry, a second response with the same id finds nothing to fulfill
/// and leaves the pending table as it is.
pub proof fn lemma_response_at_most_once<T>(pending: Map<Seq<char>, PendingRecord<T>>, id: Seq<char>)
    ensures
        response_target(pending.remove(id), id) is None,
        pending.remove(id).remove(id) == pending.remove(id),
{
    assert(pending.remove(id).remove(id) =~= pending.remove(id));
}

/// A request routed after A and then B registered for its pair goes to B.
pub proof fn lemma_invoke_routes_to_latest<T>(
    regs: Map<(Seq<char>, Seq<char>), ProviderRecord>,
    before: ProviderBroker<T>,
    after: ProviderBroker<T>,
    capability: Seq<char>,
    method: Seq<char>,
    event_name: Seq<char>,
    ctx_a: CallContext,
    ctx_b: CallContext,
    caller: CallerSession,
    payload: ProviderRequestPayload,
    tx: T,
    r: InvokeOutcome,
)
    requires
        before.registrations() == after_register(
            after_register(regs, (capability, method), event_name, ctx_a, true),
            (capability, method),
            event_name,
            ctx_b,
            true,
        ),
        before.next_correlation < u64::MAX,
        invoked(before, after, capability, method, caller, payload, tx, r),
    ensures
        r matches InvokeOutcome::Dispatched(ev) && ev.provider == caller_of(ctx_b),
{
}

/// A request for a pair that nobody provides is dropped: no entry waits for
/// it, so no response can ever fulfill its completion handle.
pub proof fn lemma_no_provider_never_fulfilled<T>(
    before: ProviderBroker<T>,
    after: ProviderBroker<T>,
    capability: Seq<char>,
    method: Seq<char>,
    caller: CallerSession,
    payload: ProviderRequestPayload,
    tx: T,
    r: InvokeOutcome,
)
    requires
        !before.registrations().contains_key((capability, method)),
        invoked(before, after, capability, method, caller, payload, tx, r),
    ensures
        r is NoProvider,
        after.pending_requests() == before.pending_requests(),
        forall|id: Seq<char>|
            #[trigger] response_target(after.pending_requests(), id) == response_target(
                before.pending_requests(),
                id,
            ),
{
}

/// The registration table after each context of `ctxs`, in order, asked to
/// provide `key`.
pub open spec fn after_listens(
    regs: Map<(Seq<char>, Seq<char>), ProviderRecord>,
    key: (Seq<char>, Seq<char>),
    event_name: Seq<char>,
    ctxs: Seq<CallContext>,
) -> Map<(Seq<char>, Seq<char>), ProviderRecord>
    decreases ctxs.len(),
{
    if ctxs.len() == 0 {
        regs
    } else {
        after_register(after_listens(regs, key, event_name, ctxs.drop_last()), key, event_name, ctxs.last(), true)
    }
}

/// After any number of registrations for a pair, a request for the pair is
/// routed to the most recent provider, and never to an earlier one that is
/// a different caller. (A broker whose correlation numbers are all used
/// drops the request instead.)
pub proof fn lemma_routes_to_most_recent<T>(
    regs: Map<(Seq<char>, Seq<char>), ProviderRecord>,
    ctxs: Seq<CallContext>,
    before: ProviderBroker<T>,
    after: ProviderBroker<T>,
    capability: Seq<char>,
    method: Seq<char>,
    event_name: Seq<char>,
    caller: CallerSession,
    payload: ProviderRequestPayload,
    tx: T,
    r: InvokeOutcome,
)
    requires
        ctxs.len() >= 1,
        before.registrations() == after_listens(regs, (capability, method), event_name, ctxs),
        before.next_correlation < u64::MAX,
        invoked(before, after, capability, method, caller, payload, tx, r),
    ensures
        r matches InvokeOutcome::Dispatched(ev) && ev.provider == caller_of(ctxs.last()),
        forall|i: int|
            0 <= i < ctxs.len() && caller_of(#[trigger] ctxs[i]) != caller_of(ctxs.last())
                ==> (r matches InvokeOutcome::Dispatched(ev) && ev.provider != caller_of(ctxs[i])),
{
}

} // verus!
