//! Laws of the sample entities: what the factory's contracts add up to when
//! the manifesting and persistence capabilities are pinned to concrete
//! types. Each is stated over the same relations the capabilities' own
//! contracts use.

use vstd::prelude::*;

use crate::associations::{drain_chain, drain_failed, drained_ok, PendingPersist};
use crate::entities::{
    Author, AuthorBuilder, AuthorId, BlogOp, Comment, CommentBuilder, CommentId, Movie,
    MovieBuilder, MovieOp, Post, PostBuilder, PostId,
};
use crate::store::{author_in, post_in, MemStore, Row, StoreError};
use crate::{persisted_err, persisted_ok, Manifest, Persist};

verus! {

/// Manifesting a movie — an entity with no dependencies — is deterministic:
/// two results of the same overrides agree on every field, and neither
/// registers a pending operation.
pub proof fn movie_manifest_deterministic(
    o: MovieBuilder,
    m1: Movie,
    ops1: Seq<MovieOp>,
    m2: Movie,
    ops2: Seq<MovieOp>,
)
    requires
        Movie::manifest_ensures(o, m1, ops1),
        Movie::manifest_ensures(o, m2, ops2),
    ensures
        m1.title@ == m2.title@,
        m1.year == m2.year,
        ops1 == ops2,
{
}

/// Manifesting an author — an entity with no dependencies — is
/// deterministic, as for movies.
pub proof fn author_manifest_deterministic(
    o: AuthorBuilder,
    a1: Author,
    ops1: Seq<BlogOp>,
    a2: Author,
    ops2: Seq<BlogOp>,
)
    requires
        Author::manifest_ensures(o, a1, ops1),
        Author::manifest_ensures(o, a2, ops2),
    ensures
        a1.id == a2.id,
        a1.name@ == a2.name@,
        ops1 == ops2,
{
}

/// A supplied override field is used verbatim; no default replaces it.
pub proof fn movie_overrides_used_verbatim(o: MovieBuilder, m: Movie, ops: Seq<MovieOp>)
    requires
        Movie::manifest_ensures(o, m, ops),
    ensures
        o.title matches Some(t) ==> m.title == t,
        o.year matches Some(y) ==> m.year == y,
{
}

/// A supplied override field is used verbatim, and a supplied foreign key
/// suppresses the association entirely: no dependency is manifested and no
/// pending operation is registered for it.
pub proof fn comment_overrides_used_verbatim(o: CommentBuilder, c: Comment, ops: Seq<BlogOp>)
    requires
        Comment::manifest_ensures(o, c, ops),
    ensures
        o.id matches Some(i) ==> c.id == i,
        o.username matches Some(u) ==> c.username == u,
        o.post_id matches Some(p) ==> c.post_id == p && ops == Seq::<BlogOp>::empty(),
{
}

/// Persisting an entity with no declared associations performs exactly one
/// store write: the entity's own row, appended to an otherwise untouched
/// store.
pub proof fn persisted_movie_appends_one_row(
    o: MovieBuilder,
    s0: MemStore,
    s1: MemStore,
    m: Movie,
)
    requires
        persisted_ok::<Movie>(o, s0, s1, m),
    ensures
        s1@ == s0@.push(Row::Movie { title: m.title, year: m.year }),
        s1@.len() == s0@.len() + 1,
        Movie::manifest_ensures(o, m, Seq::<MovieOp>::empty()),
{
    let (e, ops, mid) = choose|e: Movie, ops: Seq<MovieOp>, mid: MemStore|
        #![trigger Movie::manifest_ensures(o, e, ops), drained_ok(ops, s0, mid)]
        {
            &&& Movie::manifest_ensures(o, e, ops)
            &&& drained_ok(ops, s0, mid)
            &&& Movie::persist_ensures(e, mid, s1, Ok(m))
        };
    crate::associations::drained_ok_empty::<MemStore, StoreError, MovieOp>(s0, mid);
    assert(mid == s0);
    assert(m == e);
}

/// Persisting a movie cannot fail: its persistence capability has no error
/// case and it registers no dependencies.
pub proof fn persist_movie_never_fails(o: MovieBuilder, s0: MemStore, s1: MemStore, e: StoreError)
    ensures
        !persisted_err::<Movie>(o, s0, s1, e),
{
    if persisted_err::<Movie>(o, s0, s1, e) {
        let (ent, ops) = choose|ent: Movie, ops: Seq<MovieOp>|
            #![trigger Movie::manifest_ensures(o, ent, ops)]
            {
                &&& Movie::manifest_ensures(o, ent, ops)
                &&& (drain_failed(ops, s0, s1, e) || exists|mid: MemStore|
                    #[trigger] drained_ok(ops, s0, mid) && Movie::persist_ensures(
                        ent,
                        mid,
                        s1,
                        Err(e),
                    ))
            };
        if drain_failed(ops, s0, s1, e) {
            let (i, mid) = choose|i: int, mid: MemStore|
                0 <= i < ops.len() && #[trigger] drained_ok(ops.take(i), s0, mid)
                    && ops[i].run_ensures(mid, s1, Err(e));
            assert(false);
        }
    }
}

/// A supplied override field is used verbatim, and a supplied author key
/// suppresses the association entirely.
pub proof fn post_overrides_used_verbatim(o: PostBuilder, p: Post, ops: Seq<BlogOp>)
    requires
        Post::manifest_ensures(o, p, ops),
    ensures
        o.id matches Some(i) ==> p.id == i,
        o.title matches Some(t) ==> p.title == t,
        o.author_id matches Some(a) ==> p.author_id == a && ops == Seq::<BlogOp>::empty(),
{
}

/// Persisting a post from defaults — a graph of depth one — writes exactly
/// two rows, the author strictly before the post, and the post's
/// `author_id` is the inserted author's key.
pub proof fn persisted_post_writes_author_first(s0: MemStore, s1: MemStore, p: Post)
    requires
        persisted_ok::<Post>(Post::default_overrides_spec(), s0, s1, p),
    ensures
        s1@.len() == s0@.len() + 2,
        s1@.take(s0@.len() as int) == s0@,
        s1@[s0@.len() as int] matches Row::Author { id, name } && id == 1 && name@ == "Author 1"@,
        s1@[s0@.len() as int + 1] matches Row::Post { id, author_id, title } && id == 1
            && author_id == 1 && title@ == "Post 1"@,
        p.id == PostId(1),
        p.author_id == AuthorId(1),
        p.title@ == "Post 1"@,
{
    let o = Post::default_overrides_spec();
    let (e, ops, mid) = choose|e: Post, ops: Seq<BlogOp>, mid: MemStore|
        #![trigger Post::manifest_ensures(o, e, ops), drained_ok(ops, s0, mid)]
        {
            &&& Post::manifest_ensures(o, e, ops)
            &&& drained_ok(ops, s0, mid)
            &&& Post::persist_ensures(e, mid, s1, Ok(p))
        };
    let (a, aops) = choose|a: Author, aops: Seq<BlogOp>|
        {
            &&& #[trigger] Author::manifest_ensures(Author::default_overrides_spec(), a, aops)
            &&& ops == aops + seq![BlogOp::Author(a)]
            &&& e.author_id == a.id
        };
    assert(ops =~= seq![BlogOp::Author(a)]);
    let states = choose|states: Seq<MemStore>|
        {
            &&& #[trigger] drain_chain(ops, states)
            &&& states[0] == s0
            &&& states[ops.len() as int] == mid
        };
    assert(ops[0].run_ensures(states[0], states[1], Ok(())));
    let out_a = choose|out: Author| #[trigger] Author::persist_ensures(a, s0, mid, Ok(out));
    assert(p == e);
    assert(s1@.take(s0@.len() as int) =~= s0@);
}

/// What a comment's default manifesting registers: exactly one author
/// operation then one post operation, with all keys resolved along the
/// discovery chain.
proof fn comment_default_ops_shape(ent: Comment, ops: Seq<BlogOp>) -> (w: (Author, Post))
    requires
        Comment::manifest_ensures(Comment::default_overrides_spec(), ent, ops),
    ensures
        ops == seq![BlogOp::Author(w.0), BlogOp::Post(w.1)],
        w.0.id == AuthorId(1),
        w.0.name@ == "Author 1"@,
        w.1.id == PostId(1),
        w.1.author_id == AuthorId(1),
        w.1.title@ == "Post 1"@,
        ent.id == CommentId(1),
        ent.post_id == PostId(1),
        ent.username@ == "user1"@,
{
    let (p, pops) = choose|p: Post, pops: Seq<BlogOp>|
        {
            &&& #[trigger] Post::manifest_ensures(Post::default_overrides_spec(), p, pops)
            &&& ops == pops + seq![BlogOp::Post(p)]
            &&& ent.post_id == p.id
        };
    let (a, aops) = choose|a: Author, aops: Seq<BlogOp>|
        {
            &&& #[trigger] Author::manifest_ensures(Author::default_overrides_spec(), a, aops)
            &&& pops == aops + seq![BlogOp::Author(a)]
            &&& p.author_id == a.id
        };
    assert(ops =~= seq![BlogOp::Author(a), BlogOp::Post(p)]);
    (a, p)
}

/// What draining those two operations does to the store: the author row is
/// written first, from the untouched store, and the post row second, so the
/// post's foreign key resolves at its insert.
proof fn comment_default_drain_shape(a: Author, p: Post, s0: MemStore, s1: MemStore)
    requires
        drained_ok(seq![BlogOp::Author(a), BlogOp::Post(p)], s0, s1),
        p.author_id == a.id,
    ensures
        s1@ == s0@.push(Row::Author { id: a.id.0, name: a.name }).push(
            Row::Post { id: p.id.0, author_id: p.author_id.0, title: p.title },
        ),
{
    let ops: Seq<BlogOp> = seq![BlogOp::Author(a), BlogOp::Post(p)];
    let states = choose|states: Seq<MemStore>|
        {
            &&& #[trigger] drain_chain(ops, states)
            &&& states[0] == s0
            &&& states[ops.len() as int] == s1
        };
    assert(ops[0].run_ensures(states[0], states[1], Ok(())));
    assert(ops[1].run_ensures(states[1], states[2], Ok(())));
    let out_a = choose|out: Author|
        #[trigger] Author::persist_ensures(a, states[0], states[1], Ok(out));
    let out_p = choose|out: Post| #[trigger] Post::persist_ensures(p, states[1], states[2], Ok(out));
}

/// Persisting a comment from defaults writes exactly three rows — author,
/// post, comment, in that order — and every foreign key among them resolves:
/// the comment's `post_id` is the inserted post's key and the post's
/// `author_id` is the inserted author's key.
pub proof fn persisted_comment_writes_hierarchy(s0: MemStore, s1: MemStore, c: Comment)
    requires
        persisted_ok::<Comment>(Comment::default_overrides_spec(), s0, s1, c),
    ensures
        s1@.len() == s0@.len() + 3,
        s1@.take(s0@.len() as int) == s0@,
        s1@[s0@.len() as int] matches Row::Author { id, name } && id == 1 && name@ == "Author 1"@,
        s1@[s0@.len() as int + 1] matches Row::Post { id, author_id, title } && id == 1 && author_id == 1
            && title@ == "Post 1"@,
        s1@[s0@.len() as int + 2] matches Row::Comment { id, post_id, username } && id == 1 && post_id == 1
            && username@ == "user1"@,
        c.id == CommentId(1),
        c.post_id == PostId(1),
        c.username@ == "user1"@,
{
    let o = Comment::default_overrides_spec();
    let (e, ops, mid) = choose|e: Comment, ops: Seq<BlogOp>, mid: MemStore|
        #![trigger Comment::manifest_ensures(o, e, ops), drained_ok(ops, s0, mid)]
        {
            &&& Comment::manifest_ensures(o, e, ops)
            &&& drained_ok(ops, s0, mid)
            &&& Comment::persist_ensures(e, mid, s1, Ok(c))
        };
    let (a, p) = comment_default_ops_shape(e, ops);
    comment_default_drain_shape(a, p, s0, mid);
    assert(c == e);
    assert(s1@ == mid@.push(Row::Comment { id: e.id.0, post_id: e.post_id.0, username: e.username }));
    assert(s1@.take(s0@.len() as int) =~= s0@);
}

/// Persisting a comment from defaults cannot fail, whatever the store held
/// beforehand: the author's insert is unconstrained, the post's foreign key
/// resolves to the author row just written, and the comment's to the post
/// row just written.
pub proof fn persist_comment_defaults_never_fails(s0: MemStore, s1: MemStore, e: StoreError)
    ensures
        !persisted_err::<Comment>(Comment::default_overrides_spec(), s0, s1, e),
{
    if persisted_err::<Comment>(Comment::default_overrides_spec(), s0, s1, e) {
        comment_defaults_err_impossible(s0, s1, e);
    }
}

proof fn comment_defaults_err_impossible(s0: MemStore, s1: MemStore, e: StoreError)
    requires
        persisted_err::<Comment>(Comment::default_overrides_spec(), s0, s1, e),
    ensures
        !persisted_err::<Comment>(Comment::default_overrides_spec(), s0, s1, e),
{
    let o = Comment::default_overrides_spec();
    let (ent, ops) = choose|ent: Comment, ops: Seq<BlogOp>|
        #![trigger Comment::manifest_ensures(o, ent, ops)]
        {
            &&& Comment::manifest_ensures(o, ent, ops)
            &&& (drain_failed(ops, s0, s1, e) || exists|mid: MemStore|
                #[trigger] drained_ok(ops, s0, mid) && Comment::persist_ensures(
                    ent,
                    mid,
                    s1,
                    Err(e),
                ))
        };
    let (a, p) = comment_default_ops_shape(ent, ops);
    if drain_failed(ops, s0, s1, e) {
        let (i, mid) = choose|i: int, mid: MemStore|
            0 <= i < ops.len() && #[trigger] drained_ok(ops.take(i), s0, mid)
                && ops[i].run_ensures(mid, s1, Err(e));
        if i == 0 {
            assert(Author::persist_ensures(a, mid, s1, Err(e)));
            assert(false);
        } else {
            assert(ops.take(1) =~= seq![BlogOp::Author(a)]);
            let states = choose|states: Seq<MemStore>|
                {
                    &&& #[trigger] drain_chain(ops.take(1), states)
                    &&& states[0] == s0
                    &&& states[ops.take(1).len() as int] == mid
                };
            assert(ops.take(1)[0].run_ensures(states[0], states[1], Ok(())));
            let out_a = choose|out: Author|
                #[trigger] Author::persist_ensures(a, s0, mid, Ok(out));
            assert(Post::persist_ensures(p, mid, s1, Err(e)));
            assert(mid@[s0@.len() as int] matches Row::Author { id, .. } && id == a.id.0);
            assert(author_in(mid@, p.author_id.0));
            assert(false);
        }
    } else {
        let mid = choose|mid: MemStore|
            #[trigger] drained_ok(ops, s0, mid) && Comment::persist_ensures(ent, mid, s1, Err(e));
        comment_default_drain_shape(a, p, s0, mid);
        assert(mid@[s0@.len() as int + 1] matches Row::Post { id, .. } && id == p.id.0);
        assert(post_in(mid@, ent.post_id.0));
        assert(false);
    }
}

} // verus!
