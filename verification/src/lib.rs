//! A minimal finite-state dispatch utility.
//!
//! A [`Stator`] tracks a current state, identified by a `u64` label, and a
//! registry of handlers keyed by transition: an ordered pair of a source and a
//! destination state, either of which may be the reserved wildcard returned by
//! [`Stator::any_state`]. Entering a new state selects the handlers whose key
//! matches the transition, in a fixed four-group precedence order, hands them
//! back to the caller as a [`Dispatch`], and then commits the new state.
//!
//! Handlers are opaque values of a caller-chosen type. The dispatcher decides
//! *which* handlers fire, in *what* order, and with *which* source state;
//! running their effects is the caller's part, by walking the returned
//! [`Dispatch`] and invoking each handler with [`Dispatch::from`].

use vstd::prelude::*;

verus! {

/// One registration: a handler stored under its transition key.
struct Registration<H> {
    from: u64,
    to: u64,
    handler: H,
}

/// Tracks a current state and a registry of transition handlers.
///
/// `H` is the caller's handler representation; the dispatcher never looks
/// inside a handler, it only stores and selects them.
pub struct Stator<H> {
    current_state: u64,
    registrations: Vec<Registration<H>>,
}

/// The reserved state label that matches any state on either side of a
/// transition key. Callers must not use it as a real application state.
pub open spec fn any_state_spec() -> u64 {
    u64::MAX
}

/// What one call of [`Stator::enter`] dispatched.
///
/// `handlers` holds every handler the transition fired, in firing order;
/// the caller invokes each one, passing it `from`, the state the dispatcher
/// was in before the call.
pub struct Dispatch<H> {
    /// The source state of the transition: the dispatcher's state as it was
    /// before the `enter` call that produced this dispatch.
    pub from: u64,
    /// The fired handlers, in firing order.
    pub handlers: Vec<H>,
}

impl<H> Stator<H> {
    /// The handlers registered under the key `(from, to)`, in registration
    /// order. Empty when nothing was registered under that key.
    pub closed spec fn handlers_of(self, from: u64, to: u64) -> Seq<H> {
        Self::matching(self.registrations@, from, to)
    }

    /// The state the dispatcher is currently in.
    pub closed spec fn state(self) -> u64 {
        self.current_state
    }

    spec fn matching(regs: Seq<Registration<H>>, from: u64, to: u64) -> Seq<H>
        decreases regs.len(),
    {
        if regs.len() == 0 {
            Seq::empty()
        } else {
            let rest = Self::matching(regs.drop_last(), from, to);
            if regs.last().from == from && regs.last().to == to {
                rest.push(regs.last().handler)
            } else {
                rest
            }
        }
    }

    /// The reserved wildcard state label: a fixed value, distinct from every
    /// realistic application state, usable on either side of a registration
    /// key to match any source or any destination state.
    pub fn any_state() -> (s: u64)
        ensures
            s == any_state_spec(),
    {
        u64::MAX
    }

    /// Creates a dispatcher that is currently in `initial_state`, with no
    /// handlers registered.
    pub fn new(initial_state: u64) -> (s: Self)
        ensures
            s.state() == initial_state,
            forall|f: u64, t: u64| s.handlers_of(f, t) == Seq::<H>::empty(),
    {
        Stator { current_state: initial_state, registrations: Vec::new() }
    }

    /// Registers `handler` under the transition key `(from, to)`.
    ///
    /// Either side may be a concrete state or the wildcard, independently.
    /// Registration appends: the key's handler list grows by one at the end,
    /// every other key's list is untouched, and so is the current state.
    /// Duplicate registrations are legal and each fires independently.
    pub fn add_handler(&mut self, from: u64, to: u64, handler: H)
        ensures
            final(self).state() == old(self).state(),
            final(self).handlers_of(from, to) == old(self).handlers_of(from, to).push(handler),
            forall|f: u64, t: u64|
                f != from || t != to ==> final(self).handlers_of(f, t) == old(self).handlers_of(
                    f,
                    t,
                ),
    {
        self.registrations.push(Registration { from, to, handler });
        proof {
            assert(self.registrations@.drop_last() =~= old(self).registrations@);
        }
    }

    /// The handlers a transition into `new_state` fires, in firing order:
    /// first the exact match `(state, new_state)`, then the source wildcard
    /// `(any, new_state)`, then the destination wildcard `(state, any)`,
    /// then the full wildcard `(any, any)`; within each group, registration
    /// order.
    pub open spec fn fired_handlers(self, new_state: u64) -> Seq<H> {
        self.handlers_of(self.state(), new_state) + self.handlers_of(
            any_state_spec(),
            new_state,
        ) + self.handlers_of(self.state(), any_state_spec()) + self.handlers_of(
            any_state_spec(),
            any_state_spec(),
        )
    }
}

impl<H: Copy> Stator<H> {
    fn matching_vec(&self, from: u64, to: u64) -> (fired: Vec<H>)
        ensures
            fired@ == self.handlers_of(from, to),
    {
        let mut fired: Vec<H> = Vec::new();
        let n = self.registrations.len();
        let mut i: usize = 0;
        while i < n
            invariant
                i <= n,
                n == self.registrations@.len(),
                fired@ == Self::matching(self.registrations@.take(i as int), from, to),
            decreases n - i,
        {
            let reg = &self.registrations[i];
            if reg.from == from && reg.to == to {
                fired.push(reg.handler);
            }
            i = i + 1;
            proof {
                let taken = self.registrations@.take(i as int);
                assert(taken.drop_last() =~= self.registrations@.take(i as int - 1));
                assert(taken.last() == self.registrations@[i as int - 1]);
            }
        }
        proof {
            assert(self.registrations@.take(n as int) =~= self.registrations@);
        }
        fired
    }

    /// Enters `new_state`: selects every handler the transition fires, in the
    /// four-group order of [`Stator::fired_handlers`], commits the new state,
    /// and returns the fired handlers together with the source state.
    ///
    /// Entering a state no handler matches is a no-op apart from the state
    /// update: the returned dispatch is empty. The registry is never changed
    /// by a transition, and the state is committed only after the fired
    /// handlers are selected, so every fired handler is paired with the state
    /// that was current before the call.
    pub fn enter(&mut self, new_state: u64) -> (dispatch: Dispatch<H>)
        ensures
            dispatch.from == old(self).state(),
            dispatch.handlers@ == old(self).fired_handlers(new_state),
            final(self).state() == new_state,
            forall|f: u64, t: u64| final(self).handlers_of(f, t) == old(self).handlers_of(f, t),
    {
        let from = self.current_state;
        let any = Self::any_state();
        let mut fired = self.matching_vec(from, new_state);
        let mut group = self.matching_vec(any, new_state);
        fired.append(&mut group);
        let mut group = self.matching_vec(from, any);
        fired.append(&mut group);
        let mut group = self.matching_vec(any, any);
        fired.append(&mut group);
        self.current_state = new_state;
        Dispatch { from, handlers: fired }
    }
}

/// Registration appends, never replaces: after two handlers are registered in
/// turn under the same key, a transition that key matches fires both, in
/// registration order, right after whatever was registered under the key
/// before.
pub proof fn lemma_registration_appends<H>(
    s0: Stator<H>,
    s1: Stator<H>,
    s2: Stator<H>,
    from: u64,
    to: u64,
    h1: H,
    h2: H,
)
    requires
        s1.handlers_of(from, to) == s0.handlers_of(from, to).push(h1),
        s2.handlers_of(from, to) == s1.handlers_of(from, to).push(h2),
        s2.state() == from,
    ensures
        ({
            let fired = s2.fired_handlers(to);
            let n = s0.handlers_of(from, to).len() as int;
            &&& n + 1 < fired.len()
            &&& fired[n] == h1
            &&& fired[n + 1] == h2
        }),
{
}

/// Four-group firing order: when exactly one handler stands under each of the
/// four keys a transition from a concrete state `a` to a concrete state `b`
/// matches, the transition fires them in exactly the order exact match,
/// source wildcard, destination wildcard, full wildcard.
pub proof fn lemma_four_group_order<H>(
    s: Stator<H>,
    a: u64,
    b: u64,
    h1: H,
    h2: H,
    h3: H,
    h4: H,
)
    requires
        s.state() == a,
        a != any_state_spec(),
        b != any_state_spec(),
        s.handlers_of(a, b) == seq![h1],
        s.handlers_of(any_state_spec(), b) == seq![h2],
        s.handlers_of(a, any_state_spec()) == seq![h3],
        s.handlers_of(any_state_spec(), any_state_spec()) == seq![h4],
    ensures
        s.fired_handlers(b) == seq![h1, h2, h3, h4],
{
    assert(s.fired_handlers(b) =~= seq![h1, h2, h3, h4]);
}

/// No spurious firing: a handler that stands under none of the four keys a
/// transition matches does not fire on that transition, wherever else it may
/// be registered.
pub proof fn lemma_no_spurious_firing<H>(s: Stator<H>, new_state: u64, h: H)
    requires
        !s.handlers_of(s.state(), new_state).contains(h),
        !s.handlers_of(any_state_spec(), new_state).contains(h),
        !s.handlers_of(s.state(), any_state_spec()).contains(h),
        !s.handlers_of(any_state_spec(), any_state_spec()).contains(h),
    ensures
        !s.fired_handlers(new_state).contains(h),
{
    let g1 = s.handlers_of(s.state(), new_state);
    let g2 = s.handlers_of(any_state_spec(), new_state);
    let g3 = s.handlers_of(s.state(), any_state_spec());
    let g4 = s.handlers_of(any_state_spec(), any_state_spec());
    let fired = s.fired_handlers(new_state);
    assert forall|i: int| 0 <= i < fired.len() implies fired[i] != h by {
        if i < g1.len() {
            assert(fired[i] == g1[i]);
        } else if i < g1.len() + g2.len() {
            assert(fired[i] == g2[i - g1.len()]);
        } else if i < g1.len() + g2.len() + g3.len() {
            assert(fired[i] == g3[i - g1.len() - g2.len()]);
        } else {
            assert(fired[i] == g4[i - g1.len() - g2.len() - g3.len()]);
        }
    }
}

/// An unregistered transition dispatches nothing: when none of the four keys
/// a transition matches has any handler, the transition fires no handler at
/// all, so an `enter` call is then a no-op apart from the state update.
pub proof fn lemma_unregistered_transition_fires_nothing<H>(s: Stator<H>, new_state: u64)
    requires
        s.handlers_of(s.state(), new_state) == Seq::<H>::empty(),
        s.handlers_of(any_state_spec(), new_state) == Seq::<H>::empty(),
        s.handlers_of(s.state(), any_state_spec()) == Seq::<H>::empty(),
        s.handlers_of(any_state_spec(), any_state_spec()) == Seq::<H>::empty(),
    ensures
        s.fired_handlers(new_state) == Seq::<H>::empty(),
{
    assert(s.fired_handlers(new_state) =~= Seq::<H>::empty());
}

} // verus!
