//! A limiter that caps how many outbound requests are in flight at once.
//!
//! It only keeps the books: it hands out a permit while fewer than the
//! cap are held and takes permits back.  Waiting for a free slot is the
//! caller's business; a caller that is refused tries again after a release.

use vstd::prelude::*;

verus! {

/// How many permits the default gate offers per unit of parallel execution.
pub const PERMITS_PER_UNIT: usize = 4;

/// The books of a gate: how many permits it offers and how many are held.
pub struct GateState {
    pub limit: nat,
    pub held: nat,
}

/// What a caller may ask of a gate.
pub enum GateRequest {
    Acquire,
    Release,
}

impl GateState {
    /// Whether an `Acquire` is granted in this state.
    pub open spec fn grants(self) -> bool {
        self.held < self.limit
    }

    /// The state after one request.  An `Acquire` at the cap changes
    /// nothing; a `Release` with nothing held changes nothing.
    pub open spec fn after(self, request: GateRequest) -> GateState {
        match request {
            GateRequest::Acquire => if self.grants() {
                GateState { limit: self.limit, held: self.held + 1 }
            } else {
                self
            },
            GateRequest::Release => if self.held > 0 {
                GateState { limit: self.limit, held: (self.held - 1) as nat }
            } else {
                self
            },
        }
    }

    /// The state after a whole history of requests, oldest first.
    pub open spec fn after_all(self, history: Seq<GateRequest>) -> GateState
        decreases history.len(),
    {
        if history.len() == 0 {
            self
        } else {
            self.after_all(history.drop_last()).after(history.last())
        }
    }
}

/// However requests are interleaved, a gate that starts empty never has more
/// permits held than its limit, and its limit never moves.
pub proof fn law_cap_holds_after_any_history(limit: nat, history: Seq<GateRequest>)
    ensures
        (GateState { limit, held: 0 }).after_all(history).held <= limit,
        (GateState { limit, held: 0 }).after_all(history).limit == limit,
    decreases history.len(),
{
    if history.len() > 0 {
        law_cap_holds_after_any_history(limit, history.drop_last());
    }
}

/// The books of the default gate of a machine with `units` units of
/// parallel execution: four permits per unit, none held.  `None` where the
/// number of permits does not fit the machine's word.
pub open spec fn default_books(units: usize) -> Option<GateState> {
    if units * PERMITS_PER_UNIT <= usize::MAX {
        Some(GateState { limit: (units * PERMITS_PER_UNIT) as nat, held: 0 })
    } else {
        None
    }
}

/// The books of a gate that may be there.
pub open spec fn books_of(gate: Option<FetchGate>) -> Option<GateState> {
    match gate {
        Some(g) => Some(g.state()),
        None => None,
    }
}

/// A caller that was refused gets in once a permit is handed back: after a
/// release at the cap, the next request for a permit is granted.
pub proof fn law_a_release_frees_a_slot(state: GateState)
    requires
        state.held <= state.limit,
        state.limit > 0,
        !state.grants(),
    ensures
        state.after(GateRequest::Acquire) == state,
        state.after(GateRequest::Release).grants(),
        state.after(GateRequest::Release).after(GateRequest::Acquire) == state,
{
}

/// A permit for one outbound request.  It cannot be copied; handing it back
/// to its fetch gate frees the slot.
pub struct FetchPermit {
    slot: usize,
}

impl FetchPermit {
    /// The number of permits that were held, this one included, when it was
    /// granted.
    pub closed spec fn slot_spec(&self) -> nat {
        self.slot as nat
    }

    /// The number of permits that were held, this one included, when it was
    /// granted.
    pub fn slot(&self) -> (slot: usize)
        ensures
            slot == self.slot_spec(),
    {
        self.slot
    }
}

/// The concurrency gate.
pub struct FetchGate {
    limit: usize,
    held: usize,
}

impl FetchGate {
    #[verifier::type_invariant]
    spec fn within_cap(&self) -> bool {
        self.held <= self.limit
    }

    /// The books of this gate.
    pub closed spec fn state(&self) -> GateState {
        GateState { limit: self.limit as nat, held: self.held as nat }
    }

    /// A gate that offers `max_concurrent_requests` permits, none held.
    pub fn new(max_concurrent_requests: usize) -> (gate: FetchGate)
        ensures
            gate.state() == (GateState { limit: max_concurrent_requests as nat, held: 0 }),
    {
        FetchGate { limit: max_concurrent_requests, held: 0 }
    }

    /// The default gate of a machine with `units` units of parallel
    /// execution: four permits per unit, none held.  `None` where the number
    /// of permits does not fit the machine's word.
    pub fn for_units(units: usize) -> (gate: Option<FetchGate>)
        ensures
            books_of(gate) == default_books(units),
    {
        match default_max_concurrent_requests(units) {
            Some(limit) => Some(FetchGate::new(limit)),
            None => None,
        }
    }

    /// A gate with the default cap for this machine: what
    /// [`FetchGate::for_units`] gives for the number of units the machine
    /// reports, which is at least one.  So a gate that comes back offers a
    /// positive multiple of four permits, none held, and `None` comes back
    /// only where four permits per unit do not fit the machine's word.
    pub fn with_default_limit() -> (gate: Option<FetchGate>)
        ensures
            exists|units: usize| units >= 1 && #[trigger] default_books(units) == books_of(gate),
            gate matches Some(g) ==> g.state().held == 0 && g.state().limit >= PERMITS_PER_UNIT
                && g.state().limit % (PERMITS_PER_UNIT as nat) == 0,
    {
        let units: usize = available_units();
        let gate = FetchGate::for_units(units);
        assert(default_books(units) == books_of(gate));
        gate
    }

    /// Asks for a permit.  Granted exactly when fewer permits are held than
    /// this fetch gate offers; a refused caller has to wait for a release.
    pub fn try_acquire(&mut self) -> (permit: Option<FetchPermit>)
        ensures
            permit is Some <==> old(self).state().grants(),
            final(self).state() == old(self).state().after(GateRequest::Acquire),
            final(self).state().held <= final(self).state().limit,
            permit matches Some(p) ==> p.slot_spec() == final(self).state().held,
    {
        proof {
            use_type_invariant(&*self);
        }
        if self.held < self.limit {
            self.held = self.held + 1;
            Some(FetchPermit { slot: self.held })
        } else {
            None
        }
    }

    /// Takes a permit back and frees its slot.
    pub fn release(&mut self, permit: FetchPermit)
        ensures
            final(self).state() == old(self).state().after(GateRequest::Release),
            final(self).state().held <= final(self).state().limit,
    {
        proof {
            use_type_invariant(&*self);
        }
        if self.held > 0 {
            self.held = self.held - 1;
        }
    }

    /// The cap: how many permits this fetch gate offers.
    pub fn max_concurrent_requests(&self) -> (limit: usize)
        ensures
            limit == self.state().limit,
    {
        self.limit
    }

    /// How many permits are held right now.
    pub fn outstanding(&self) -> (held: usize)
        ensures
            held == self.state().held,
            held <= self.state().limit,
    {
        proof {
            use_type_invariant(self);
        }
        self.held
    }

    /// How many permits are free right now.
    pub fn available(&self) -> (free: usize)
        ensures
            free == self.state().limit - self.state().held,
    {
        proof {
            use_type_invariant(self);
        }
        self.limit - self.held
    }
}

/// The default cap for a machine with `units` units of parallel execution:
/// four permits per unit.  `None` where the product does not fit.
pub fn default_max_concurrent_requests(units: usize) -> (limit: Option<usize>)
    ensures
        limit is Some <==> units * PERMITS_PER_UNIT <= usize::MAX,
        limit matches Some(n) ==> n == units * PERMITS_PER_UNIT,
{
    if units <= usize::MAX / PERMITS_PER_UNIT {
        Some(units * PERMITS_PER_UNIT)
    } else {
        None
    }
}

/// `num_cpus::get`: the number of logical cores this process may use.
/// Trusted: it is at least 1.  The number depends on the machine and on the
/// moment, so nothing else is claimed.
#[verifier::external_body]
fn available_units() -> (units: usize)
    ensures
        units >= 1,
{
    num_cpus::get()
}

} // verus!
