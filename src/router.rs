use vstd::prelude::*;

use crate::plic::{priority_level, InterruptPriority};

verus! {

broadcast use vstd::array::group_array_axioms;

/// Interrupt sources of the controller, source 0 included (it means "none").
pub const ROUTER_SOURCES: usize = 137;

/// Hart/mode contexts of the controller.
pub const ROUTER_CONTEXTS: usize = 9;

/// Enable bits over all contexts.
pub const ROUTER_ENABLE_BITS: usize = 1233;

/// The controller's register state as the protocol sees it.
pub struct RouterView {
    /// Priority of each source; 0 keeps it from firing.
    pub priority: Seq<u32>,
    /// Whether a request of each source waits to be claimed.
    pub pending: Seq<bool>,
    /// Whether each source has been claimed and not yet completed.
    pub in_service: Seq<bool>,
    /// Enable bit of source `s` for context `c` at `c * ROUTER_SOURCES + s`.
    pub enabled: Seq<bool>,
    /// Priority threshold of each context.
    pub threshold: Seq<u32>,
}

/// Position of the enable bit of `source` for `context`.
pub open spec fn enable_index(context: int, source: int) -> int {
    context * ROUTER_SOURCES + source
}

impl RouterView {
    pub open spec fn wf(&self) -> bool {
        &&& self.priority.len() == ROUTER_SOURCES
        &&& self.pending.len() == ROUTER_SOURCES
        &&& self.in_service.len() == ROUTER_SOURCES
        &&& self.enabled.len() == ROUTER_CONTEXTS * ROUTER_SOURCES
        &&& self.threshold.len() == ROUTER_CONTEXTS
    }

    /// Whether `source` may be handed to `context` by a claim.
    pub open spec fn claimable(&self, context: int, source: int) -> bool {
        &&& 0 < source < ROUTER_SOURCES
        &&& self.pending[source]
        &&& self.enabled[enable_index(context, source)]
        &&& self.priority[source] > self.threshold[context]
    }

    /// `source` beats every other claimable source: higher priority, or equal
    /// priority and a lower id.
    pub open spec fn claim_winner(&self, context: int, source: int) -> bool {
        &&& self.claimable(context, source)
        &&& forall|s: int|
            #![trigger self.claimable(context, s)]
            self.claimable(context, s) ==> self.priority[s] < self.priority[source] || (
            self.priority[s] == self.priority[source] && s >= source)
    }

    pub open spec fn with_claimed(self, source: int) -> RouterView {
        RouterView {
            pending: self.pending.update(source, false),
            in_service: self.in_service.update(source, true),
            ..self
        }
    }

    /// End of service of `source`.
    pub open spec fn completed(self, source: int) -> RouterView {
        if 0 < source < ROUTER_SOURCES {
            RouterView { in_service: self.in_service.update(source, false), ..self }
        } else {
            self
        }
    }

    /// A new request of `source`; held back while the source is in service.
    pub open spec fn raised(self, source: int) -> RouterView {
        if self.in_service[source] {
            self
        } else {
            RouterView { pending: self.pending.update(source, true), ..self }
        }
    }

    /// What a claim by `context` returning `id` does.
    pub open spec fn claim_post(self, after: RouterView, context: int, id: u32) -> bool {
        &&& id == 0 ==> after == self && forall|s: int| !#[trigger] self.claimable(context, s)
        &&& id != 0 ==> self.claim_winner(context, id as int) && after == self.with_claimed(id as int)
    }
}

/// A model of the interrupt controller's priority, enable, threshold and
/// claim/complete protocol.
pub struct InterruptRouter {
    priority: [u32; ROUTER_SOURCES],
    pending: [bool; ROUTER_SOURCES],
    in_service: [bool; ROUTER_SOURCES],
    enabled: [bool; ROUTER_ENABLE_BITS],
    threshold: [u32; ROUTER_CONTEXTS],
}

impl View for InterruptRouter {
    type V = RouterView;

    closed spec fn view(&self) -> RouterView {
        RouterView {
            priority: self.priority@,
            pending: self.pending@,
            in_service: self.in_service@,
            enabled: self.enabled@,
            threshold: self.threshold@,
        }
    }
}

impl InterruptRouter {
    /// Every source disabled, nothing pending or in service, thresholds 0.
    pub fn new() -> (r: InterruptRouter)
        ensures
            r@.wf(),
            forall|s: int| 0 <= s < ROUTER_SOURCES ==> r@.priority[s] == 0 && !r@.pending[s] && !r@.in_service[s],
            forall|i: int| 0 <= i < ROUTER_CONTEXTS * ROUTER_SOURCES ==> !r@.enabled[i],
            forall|c: int| 0 <= c < ROUTER_CONTEXTS ==> r@.threshold[c] == 0,
    {
        InterruptRouter {
            priority: [0u32; ROUTER_SOURCES],
            pending: [false; ROUTER_SOURCES],
            in_service: [false; ROUTER_SOURCES],
            enabled: [false; ROUTER_ENABLE_BITS],
            threshold: [0u32; ROUTER_CONTEXTS],
        }
    }

    pub fn set_priority(&mut self, source: usize, priority: InterruptPriority)
        requires
            old(self)@.wf(),
            source < ROUTER_SOURCES,
        ensures
            final(self)@ == (RouterView {
                priority: old(self)@.priority.update(source as int, priority_level(priority)),
                ..old(self)@
            }),
    {
        self.priority[source] = priority.level();
    }

    pub fn enable(&mut self, context: usize, source: usize)
        requires
            old(self)@.wf(),
            context < ROUTER_CONTEXTS,
            source < ROUTER_SOURCES,
        ensures
            final(self)@ == (RouterView {
                enabled: old(self)@.enabled.update(enable_index(context as int, source as int), true),
                ..old(self)@
            }),
    {
        self.enabled[context * ROUTER_SOURCES + source] = true;
    }

    /// Only sources with a priority above `threshold` (its low three bits) fire for `context`.
    pub fn set_threshold(&mut self, context: usize, threshold: u32)
        requires
            old(self)@.wf(),
            context < ROUTER_CONTEXTS,
        ensures
            final(self)@ == (RouterView {
                threshold: old(self)@.threshold.update(context as int, threshold % 8),
                ..old(self)@
            }),
    {
        self.threshold[context] = threshold % 8;
    }

    /// A source signals a request.
    pub fn raise(&mut self, source: usize)
        requires
            old(self)@.wf(),
            source < ROUTER_SOURCES,
        ensures
            final(self)@ == old(self)@.raised(source as int),
    {
        if !self.in_service[source] {
            self.pending[source] = true;
        }
    }

    /// Hands `context` the claimable source of highest priority (lowest id
    /// among equals), clearing its pending bit and marking it in service;
    /// 0 when none is claimable.
    pub fn claim(&mut self, context: usize) -> (id: u32)
        requires
            old(self)@.wf(),
            context < ROUTER_CONTEXTS,
        ensures
            final(self)@.wf(),
            old(self)@.claim_post(final(self)@, context as int, id),
    {
        let ghost v = self@;
        let mut best: usize = 0;
        let mut s: usize = 1;
        while s < ROUTER_SOURCES
            invariant
                self@ == v,
                v.wf(),
                context < ROUTER_CONTEXTS,
                1 <= s <= ROUTER_SOURCES,
                best < s,
                best == 0 ==> forall|t: int| 0 <= t < s ==> !#[trigger] v.claimable(context as int, t),
                best != 0 ==> v.claimable(context as int, best as int),
                best != 0 ==> forall|t: int|
                    0 <= t < s && #[trigger] v.claimable(context as int, t) ==> v.priority[t]
                        < v.priority[best as int] || (v.priority[t] == v.priority[best as int] && t
                        >= best),
            decreases ROUTER_SOURCES - s,
        {
            let idx = context * ROUTER_SOURCES + s;
            if self.pending[s] && self.enabled[idx] && self.priority[s] > self.threshold[context] {
                if best == 0 || self.priority[s] > self.priority[best] {
                    best = s;
                }
            }
            s += 1;
        }
        if best != 0 {
            self.pending[best] = false;
            self.in_service[best] = true;
            assert(self@ =~= v.with_claimed(best as int));
        }
        best as u32
    }

    /// End of service of `id`, so that it can fire again; ids out of range are ignored.
    pub fn complete(&mut self, id: u32)
        requires
            old(self)@.wf(),
        ensures
            final(self)@ == old(self)@.completed(id as int),
    {
        if 0 < id && (id as usize) < ROUTER_SOURCES {
            self.in_service[id as usize] = false;
        }
    }
}

/// A source that a claim handed out, once completed and raised again, is
/// pending and out of service, and so claimable again by the same context: the
/// next claim of that context returns a source, not 0.
pub proof fn lemma_complete_rearms(v: RouterView, claimed: RouterView, context: int, id: u32)
    requires
        v.wf(),
        0 <= context < ROUTER_CONTEXTS,
        v.claim_post(claimed, context, id),
        id != 0,
    ensures
        claimed.completed(id as int).raised(id as int).pending[id as int],
        !claimed.completed(id as int).raised(id as int).in_service[id as int],
        claimed.completed(id as int).raised(id as int).claimable(context, id as int),
        forall|after: RouterView, next: u32|
            claimed.completed(id as int).raised(id as int).claim_post(after, context, next) ==> next
                != 0,
{
    let w = claimed.completed(id as int).raised(id as int);
    assert(w.claimable(context, id as int));
    assert forall|after: RouterView, next: u32| w.claim_post(after, context, next) implies next != 0 by {
        if next == 0 {
            assert(!w.claimable(context, id as int));
        }
    }
}

/// One external-interrupt trap against the model: claim for `context`, pick
/// the dispatch from the vector table, and complete what was claimed.
pub fn trap_entry(router: &mut InterruptRouter, context: usize, assigned: &[bool]) -> (r: crate::plic::ExternalDispatch)
    requires
        old(router)@.wf(),
        context < ROUTER_CONTEXTS,
    ensures
        final(router)@.wf(),
        exists|id: u32, claimed: RouterView|
            #![trigger old(router)@.claim_post(claimed, context as int, id)]
            old(router)@.claim_post(claimed, context as int, id)
            && r == crate::plic::dispatch_of(id, assigned@)
            && final(router)@ == (if id == 0 { claimed } else { claimed.completed(id as int) }),
{
    let ghost v = router@;
    let id = router.claim(context);
    let ghost claimed = router@;
    let d = crate::plic::machine_external_isr(id, assigned);
    match d.completion() {
        Some(done) => router.complete(done),
        None => {},
    }
    assert(v.claim_post(claimed, context as int, id));
    d
}

} // verus!
