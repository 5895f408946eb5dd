//! A test-data factory: ask for an entity type and receive a fully
//! populated, internally consistent instance; ask to persist one and the
//! dependencies its construction implies are written to the backing store
//! first, in the order they were discovered, before the entity itself.

use vstd::prelude::*;

mod associations;
mod entities;
mod laws;
mod sequence;
mod store;

pub use associations::{
    Associations, PendingPersist, association, drain, drain_chain, drain_failed, drained_ok,
    drained_ok_empty,
};
pub use entities::{
    Author, AuthorBuilder, AuthorId, BlogOp, Comment, CommentBuilder, CommentId, Movie,
    MovieBuilder, MovieOp, Post, PostBuilder, PostId,
};
pub use laws::{
    author_manifest_deterministic, comment_overrides_used_verbatim,
    movie_manifest_deterministic, movie_overrides_used_verbatim,
    persist_comment_defaults_never_fails, persist_movie_never_fails,
    persisted_comment_writes_hierarchy, persisted_movie_appends_one_row,
    persisted_post_writes_author_first, post_overrides_used_verbatim,
};
pub use sequence::Sequence;
pub use store::{MemStore, Row, StoreError, author_in, post_in};

verus! {

/// The manifesting capability: construct a fully populated in-memory entity
/// from optional per-field overrides. Construction may register a pending
/// persistence operation for each dependency it implies, and nothing else;
/// it must not touch the store and it cannot fail — defaults are total.
pub trait Manifest: Sized {
    /// The store-handle type the entity's pending operations run against.
    type Context;

    /// The error a pending operation or a persist call can surface.
    type Error;

    /// The per-field overrides value; every field is optional.
    type Overrides;

    /// The pending-operation type the entity's construction registers.
    type Op: PendingPersist<Self::Context, Self::Error>;

    /// The overrides value that supplies no field.
    spec fn default_overrides_spec() -> Self::Overrides;

    /// What holds of an entity `e` and the pending operations `ops` that
    /// manifesting with `overrides` produced.
    spec fn manifest_ensures(overrides: Self::Overrides, e: Self, ops: Seq<Self::Op>) -> bool;

    /// Returns the overrides value that supplies no field.
    fn default_overrides() -> (r: Self::Overrides)
        ensures
            r == Self::default_overrides_spec(),
    ;

    /// Constructs the entity, together with the registry of pending
    /// operations its construction registered, in registration order.
    fn manifest(overrides: Self::Overrides) -> (r: (Self, Associations<Self::Op>))
        ensures
            Self::manifest_ensures(overrides, r.0, r.1@),
    ;
}

/// The persistence capability: write an in-memory entity to the store and
/// return its canonical persisted form.
pub trait Persist: Manifest {
    /// What holds of the store before (`s0`) and after (`s1`) persisting
    /// `entity` with result `r`.
    spec fn persist_ensures(
        entity: Self,
        s0: Self::Context,
        s1: Self::Context,
        r: Result<Self, Self::Error>,
    ) -> bool;

    /// The pending operation that will persist `self`.
    spec fn op_spec(self) -> Self::Op;

    /// Erases `self` into the pending operation that will persist it.
    fn into_op(self) -> (r: Self::Op)
        ensures
            r == self.op_spec(),
    ;

    /// Writes `entity` to the store behind `ctx` and returns the persisted
    /// form.
    fn persist(ctx: &mut Self::Context, entity: Self) -> (r: Result<Self, Self::Error>)
        ensures
            Self::persist_ensures(entity, *old(ctx), *final(ctx), r),
    ;
}

/// A successful `persist_with::<T>(_, overrides)` call carried the store
/// from `s0` to `s1` and returned `result`: the entity manifested, every
/// registered dependency operation ran once and in registration order, and
/// the entity itself was persisted last.
pub open spec fn persisted_ok<T: Persist>(
    overrides: T::Overrides,
    s0: T::Context,
    s1: T::Context,
    result: T,
) -> bool {
    exists|e: T, ops: Seq<T::Op>, mid: T::Context|
        #![trigger T::manifest_ensures(overrides, e, ops), drained_ok(ops, s0, mid)]
        {
            &&& T::manifest_ensures(overrides, e, ops)
            &&& drained_ok(ops, s0, mid)
            &&& T::persist_ensures(e, mid, s1, Ok(result))
        }
}

/// A failed `persist_with::<T>(_, overrides)` call carried the store from
/// `s0` to `s1` and surfaced `e`: either some dependency operation failed
/// after an in-order prefix of the others, and nothing later ran, or every
/// dependency was written and persisting the entity itself failed.
pub open spec fn persisted_err<T: Persist>(
    overrides: T::Overrides,
    s0: T::Context,
    s1: T::Context,
    e: T::Error,
) -> bool {
    exists|ent: T, ops: Seq<T::Op>|
        #![trigger T::manifest_ensures(overrides, ent, ops)]
        {
            &&& T::manifest_ensures(overrides, ent, ops)
            &&& (drain_failed(ops, s0, s1, e) || exists|mid: T::Context|
                #[trigger] drained_ok(ops, s0, mid) && T::persist_ensures(ent, mid, s1, Err(e)))
        }
}

/// Manifests an entity of type `T` with default overrides, discarding the
/// pending operations its construction registered.
pub fn manifest<T: Manifest>() -> (r: T)
    ensures
        exists|ops: Seq<T::Op>|
            #[trigger] T::manifest_ensures(T::default_overrides_spec(), r, ops),
{
    manifest_with(T::default_overrides())
}

/// Manifests an entity of type `T` with the given overrides, discarding the
/// pending operations its construction registered.
pub fn manifest_with<T: Manifest>(overrides: T::Overrides) -> (r: T)
    ensures
        exists|ops: Seq<T::Op>| #[trigger] T::manifest_ensures(overrides, r, ops),
{
    let (entity, _associations) = T::manifest(overrides);
    entity
}

/// Persists an entity of type `T` built from default overrides: manifests
/// it, writes every registered dependency in registration order, then writes
/// the entity itself.
pub fn persist<T: Persist>(ctx: &mut T::Context) -> (r: Result<T, T::Error>)
    ensures
        r matches Ok(entity) ==> persisted_ok::<T>(
            T::default_overrides_spec(),
            *old(ctx),
            *final(ctx),
            entity,
        ),
        r matches Err(e) ==> persisted_err::<T>(
            T::default_overrides_spec(),
            *old(ctx),
            *final(ctx),
            e,
        ),
{
    persist_with(ctx, T::default_overrides())
}

/// Persists an entity of type `T` built from the given overrides: manifests
/// it, writes every registered dependency in registration order, then writes
/// the entity itself. A failure anywhere stops the call and is returned;
/// dependencies already written stay written.
pub fn persist_with<T: Persist>(ctx: &mut T::Context, overrides: T::Overrides) -> (r: Result<
    T,
    T::Error,
>)
    ensures
        r matches Ok(entity) ==> persisted_ok::<T>(overrides, *old(ctx), *final(ctx), entity),
        r matches Err(e) ==> persisted_err::<T>(overrides, *old(ctx), *final(ctx), e),
{
    let ghost s_in = *ctx;
    let (entity, associations) = T::manifest(overrides);
    let ghost e0 = entity;
    let ghost ops = associations@;
    match drain(associations, ctx) {
        Ok(()) => {
            let ghost mid = *ctx;
            let res = T::persist(ctx, entity);
            proof {
                match res {
                    Ok(ref out) => {
                        assert(T::manifest_ensures(overrides, e0, ops));
                        assert(drained_ok(ops, s_in, mid));
                        assert(T::persist_ensures(e0, mid, *ctx, Ok(*out)));
                    },
                    Err(ref e) => {
                        assert(T::manifest_ensures(overrides, e0, ops));
                        assert(drained_ok(ops, s_in, mid));
                        assert(T::persist_ensures(e0, mid, *ctx, Err(*e)));
                    },
                }
            }
            res
        },
        Err(e) => {
            proof {
                assert(T::manifest_ensures(overrides, e0, ops));
                assert(drain_failed(ops, s_in, *ctx, e));
            }
            Err(e)
        },
    }
}

} // verus!
