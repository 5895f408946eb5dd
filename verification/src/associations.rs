//! The association registry: an ordered collection of type-erased, deferred
//! persistence operations, collected while an entity manifests and replayed
//! in registration order against a store handle.

use vstd::prelude::*;
use vstd::pervasive::cloned;

use crate::Persist;

verus! {

/// The uniform capability of a pending operation: it can be run exactly once
/// against a store handle. A registry holds values of one type implementing
/// this trait; an entity graph with several concrete dependency types erases
/// them behind one such type (commonly an enum with one variant per type).
pub trait PendingPersist<C, E>: Sized {
    /// What a run guarantees of the store before (`s0`) and after (`s1`) it,
    /// given that it returned `r`.
    spec fn run_ensures(self, s0: C, s1: C, r: Result<(), E>) -> bool;

    /// Runs the operation, consuming it.
    fn run(self, ctx: &mut C) -> (r: Result<(), E>)
        ensures
            self.run_ensures(*old(ctx), *final(ctx), r),
    ;
}

/// An ordered registry of pending persistence operations. Appending is the
/// only mutation; operations leave it only through [`drain`], which runs each
/// of them at most once, in registration order.
pub struct Associations<Op> {
    ops: Vec<Op>,
}

impl<Op> View for Associations<Op> {
    type V = Seq<Op>;

    closed spec fn view(&self) -> Seq<Op> {
        self.ops@
    }
}

impl<Op> Associations<Op> {
    /// Creates an empty registry.
    pub fn new() -> (r: Self)
        ensures
            r@ == Seq::<Op>::empty(),
    {
        Associations { ops: Vec::new() }
    }

    /// The number of pending operations.
    pub fn len(&self) -> (n: usize)
        ensures
            n == self@.len(),
    {
        self.ops.len()
    }

    /// Appends one pending operation.
    pub fn register(&mut self, op: Op)
        ensures
            final(self)@ == old(self)@.push(op),
    {
        self.ops.push(op);
    }

    /// Moves every operation of `other` to the back of this registry,
    /// keeping both orders.
    pub fn absorb(&mut self, other: Associations<Op>)
        ensures
            final(self)@ == old(self)@ + other@,
    {
        let mut tail = other.ops;
        self.ops.append(&mut tail);
    }
}

/// `states` records a successful, in-order drain of `ops`: one store state
/// per fence between runs, each run carrying the store from the state before
/// it to the state after it.
pub open spec fn drain_chain<C, E, Op: PendingPersist<C, E>>(ops: Seq<Op>, states: Seq<C>) -> bool {
    &&& states.len() == ops.len() + 1
    &&& forall|i: int|
        0 <= i < ops.len() ==> (#[trigger] ops[i]).run_ensures(states[i], states[i + 1], Ok(()))
}

/// The registry `ops` was drained successfully: every operation ran exactly
/// once, in registration order, each one from the store state the previous
/// one left, carrying the store from `s0` to `s1`.
pub open spec fn drained_ok<C, E, Op: PendingPersist<C, E>>(ops: Seq<Op>, s0: C, s1: C) -> bool {
    exists|states: Seq<C>|
        {
            &&& #[trigger] drain_chain(ops, states)
            &&& states[0] == s0
            &&& states[ops.len() as int] == s1
        }
}

/// Draining `ops` stopped early: a prefix ran successfully and in order, the
/// operation after it returned `e`, and nothing later ran.
pub open spec fn drain_failed<C, E, Op: PendingPersist<C, E>>(
    ops: Seq<Op>,
    s0: C,
    s1: C,
    e: E,
) -> bool {
    exists|i: int, mid: C|
        0 <= i < ops.len() && #[trigger] drained_ok(ops.take(i), s0, mid) && ops[i].run_ensures(
            mid,
            s1,
            Err(e),
        )
}

/// Draining an empty registry is a no-op on the store.
pub proof fn drained_ok_empty<C, E, Op: PendingPersist<C, E>>(s0: C, s1: C)
    ensures
        drained_ok(Seq::<Op>::empty(), s0, s1) <==> s1 == s0,
{
    if s1 == s0 {
        let states: Seq<C> = seq![s0];
        assert(drain_chain(Seq::<Op>::empty(), states));
    }
}

/// Runs every pending operation of `associations` in registration order
/// against the store handle, consuming the registry; the first failure stops
/// the drain and is returned.
#[verifier::loop_isolation(false)]
pub fn drain<C, E, Op: PendingPersist<C, E>>(
    associations: Associations<Op>,
    ctx: &mut C,
) -> (r: Result<(), E>)
    ensures
        r is Ok ==> drained_ok(associations@, *old(ctx), *final(ctx)),
        r matches Err(e) ==> drain_failed(associations@, *old(ctx), *final(ctx), e),
{
    let ghost all = associations@;
    let ghost s0 = *ctx;
    let mut ops = associations.ops;
    let ghost mut k: int = 0;
    let ghost mut states: Seq<C> = seq![s0];
    while ops.len() > 0
        invariant
            0 <= k <= all.len(),
            ops@ == all.skip(k),
            states.len() == k + 1,
            states[0] == s0,
            states[k] == *ctx,
            drain_chain(all.take(k), states),
        decreases ops.len(),
    {
        let ghost pre = *ctx;
        let op = ops.remove(0);
        let ghost op0 = op;
        proof {
            assert(op0 == all[k]);
        }
        let res = op.run(ctx);
        proof {
            assert(op0.run_ensures(pre, *ctx, res));
        }
        match res {
            Ok(u) => {
                proof {
                    assert(u == ());
                    assert(all[k].run_ensures(pre, *ctx, Ok(())));
                    let states2: Seq<C> = states.push(*ctx);
                    assert forall|i: int|
                        0 <= i < k + 1 implies (#[trigger] all.take(k + 1)[i]).run_ensures(
                        states2[i],
                        states2[i + 1],
                        Ok(()),
                    ) by {
                        if i < k {
                            assert(all.take(k)[i].run_ensures(states[i], states[i + 1], Ok(())));
                            assert(all.take(k + 1)[i] == all.take(k)[i]);
                        } else {
                            assert(all.take(k + 1)[i] == all[k]);
                            assert(states2[i] == pre && states2[i + 1] == *ctx);
                        }
                    }
                    assert(drain_chain(all.take(k + 1), states2));
                    states = states2;
                    k = k + 1;
                    assert(ops@ =~= all.skip(k));
                }
            },
            Err(e) => {
                proof {
                    assert(drain_chain(all.take(k), states));
                    assert(states[all.take(k).len() as int] == pre);
                    assert(drained_ok(all.take(k), s0, pre));
                    assert(all[k].run_ensures(pre, *ctx, Err(e)));
                    assert(drain_failed(all, s0, *ctx, e));
                }
                return Err(e);
            },
        }
    }
    proof {
        assert(all.take(k) =~= all);
        assert(drained_ok(all, s0, *ctx));
    }
    Ok(())
}

/// Registers a dependency of type `T`: manifests it with default overrides,
/// appends the operations that construction registered and then one that
/// will persist the manifested value itself, and hands the caller a clone of
/// that value for immediate use (e.g. to read a key for a foreign-key
/// field). The deferred write reuses the value computed here; manifesting is
/// not re-run at drain time.
pub fn association<T>(associations: &mut Associations<T::Op>) -> (r: T) where T: Persist + Clone
    ensures
        exists|e: T, deps: Seq<T::Op>|
            {
                &&& #[trigger] T::manifest_ensures(T::default_overrides_spec(), e, deps)
                &&& final(associations)@ == old(associations)@ + deps + seq![e.op_spec()]
                &&& cloned::<T>(e, r)
            },
{
    let (entity, deps) = T::manifest(T::default_overrides());
    let ghost e0 = entity;
    let ghost d0 = deps@;
    let r = entity.clone();
    associations.absorb(deps);
    associations.register(entity.into_op());
    proof {
        assert(associations@ =~= old(associations)@ + d0 + seq![e0.op_spec()]);
    }
    r
}

} // verus!
