//! Sample entity types wired into the factory, together with the in-memory
//! store rows they persist to. They double as the concrete material for the
//! crate's tests: a standalone `Movie`, and a `Comment -> Post -> Author`
//! graph whose foreign keys resolve through associations.

use vstd::prelude::*;
use vstd::pervasive::cloned;
use vstd::string::StringExecFns;

use crate::associations::{association, Associations, PendingPersist};
use crate::store::{author_in, post_in, MemStore, Row, StoreError};
use crate::{Manifest, Persist};

verus! {

/// Key of an author row.
#[derive(Debug, PartialEq, Eq, PartialOrd, Ord, Hash, Clone, Copy, Structural)]
pub struct AuthorId(pub u32);

/// Key of a post row.
#[derive(Debug, PartialEq, Eq, PartialOrd, Ord, Hash, Clone, Copy, Structural)]
pub struct PostId(pub u32);

/// Key of a comment row.
#[derive(Debug, PartialEq, Eq, PartialOrd, Ord, Hash, Clone, Copy, Structural)]
pub struct CommentId(pub u32);

/// A movie: no dependencies.
#[derive(Debug, PartialEq, Eq)]
pub struct Movie {
    pub title: String,
    pub year: u32,
}

/// An author: no dependencies.
#[derive(Debug, PartialEq, Eq)]
pub struct Author {
    pub id: AuthorId,
    pub name: String,
}

/// A post; its `author_id` references an author row.
#[derive(Debug, PartialEq, Eq)]
pub struct Post {
    pub id: PostId,
    pub author_id: AuthorId,
    pub title: String,
}

/// A comment; its `post_id` references a post row.
#[derive(Debug, PartialEq, Eq)]
pub struct Comment {
    pub id: CommentId,
    pub post_id: PostId,
    pub username: String,
}

impl Clone for Author {
    fn clone(&self) -> (res: Self)
        ensures
            res == *self,
    {
        Author { id: self.id, name: self.name.clone() }
    }
}

impl Clone for Post {
    fn clone(&self) -> (res: Self)
        ensures
            res == *self,
    {
        Post { id: self.id, author_id: self.author_id, title: self.title.clone() }
    }
}

impl Clone for Comment {
    fn clone(&self) -> (res: Self)
        ensures
            res == *self,
    {
        Comment { id: self.id, post_id: self.post_id, username: self.username.clone() }
    }
}

/// Overrides for [`Movie`]; every field is optional.
#[derive(Debug)]
pub struct MovieBuilder {
    pub title: Option<String>,
    pub year: Option<u32>,
}

/// Overrides for [`Author`]; every field is optional.
#[derive(Debug)]
pub struct AuthorBuilder {
    pub id: Option<AuthorId>,
    pub name: Option<String>,
}

/// Overrides for [`Post`]; every field is optional.
#[derive(Debug)]
pub struct PostBuilder {
    pub id: Option<PostId>,
    pub author_id: Option<AuthorId>,
    pub title: Option<String>,
}

/// Overrides for [`Comment`]; every field is optional.
#[derive(Debug)]
pub struct CommentBuilder {
    pub id: Option<CommentId>,
    pub post_id: Option<PostId>,
    pub username: Option<String>,
}

impl Default for MovieBuilder {
    fn default() -> (r: Self)
        ensures
            r == Movie::default_overrides_spec(),
    {
        MovieBuilder { title: None, year: None }
    }
}

impl Default for AuthorBuilder {
    fn default() -> (r: Self)
        ensures
            r == Author::default_overrides_spec(),
    {
        AuthorBuilder { id: None, name: None }
    }
}

impl Default for PostBuilder {
    fn default() -> (r: Self)
        ensures
            r == Post::default_overrides_spec(),
    {
        PostBuilder { id: None, author_id: None, title: None }
    }
}

impl Default for CommentBuilder {
    fn default() -> (r: Self)
        ensures
            r == Comment::default_overrides_spec(),
    {
        CommentBuilder { id: None, post_id: None, username: None }
    }
}

impl MovieBuilder {
    /// Supplies the title.
    pub fn title(&mut self, value: String)
        ensures
            *final(self) == (MovieBuilder { title: Some(value), year: old(self).year }),
    {
        self.title = Some(value);
    }

    /// Supplies the year.
    pub fn year(&mut self, value: u32)
        ensures
            *final(self) == (MovieBuilder { title: old(self).title, year: Some(value) }),
    {
        self.year = Some(value);
    }
}

impl AuthorBuilder {
    /// Supplies the key.
    pub fn id(&mut self, value: AuthorId)
        ensures
            *final(self) == (AuthorBuilder { id: Some(value), name: old(self).name }),
    {
        self.id = Some(value);
    }

    /// Supplies the name.
    pub fn name(&mut self, value: String)
        ensures
            *final(self) == (AuthorBuilder { id: old(self).id, name: Some(value) }),
    {
        self.name = Some(value);
    }
}

impl PostBuilder {
    /// Supplies the key.
    pub fn id(&mut self, value: PostId)
        ensures
            *final(self) == (PostBuilder {
                id: Some(value),
                author_id: old(self).author_id,
                title: old(self).title,
            }),
    {
        self.id = Some(value);
    }

    /// Supplies the author key, suppressing the association.
    pub fn author_id(&mut self, value: AuthorId)
        ensures
            *final(self) == (PostBuilder {
                id: old(self).id,
                author_id: Some(value),
                title: old(self).title,
            }),
    {
        self.author_id = Some(value);
    }

    /// Supplies the title.
    pub fn title(&mut self, value: String)
        ensures
            *final(self) == (PostBuilder {
                id: old(self).id,
                author_id: old(self).author_id,
                title: Some(value),
            }),
    {
        self.title = Some(value);
    }
}

impl CommentBuilder {
    /// Supplies the key.
    pub fn id(&mut self, value: CommentId)
        ensures
            *final(self) == (CommentBuilder {
                id: Some(value),
                post_id: old(self).post_id,
                username: old(self).username,
            }),
    {
        self.id = Some(value);
    }

    /// Supplies the post key, suppressing the association.
    pub fn post_id(&mut self, value: PostId)
        ensures
            *final(self) == (CommentBuilder {
                id: old(self).id,
                post_id: Some(value),
                username: old(self).username,
            }),
    {
        self.post_id = Some(value);
    }

    /// Supplies the commenting user's name.
    pub fn username(&mut self, value: String)
        ensures
            *final(self) == (CommentBuilder {
                id: old(self).id,
                post_id: old(self).post_id,
                username: Some(value),
            }),
    {
        self.username = Some(value);
    }
}

/// The pending operation of a [`Movie`] dependency: persist the captured
/// movie.
#[derive(Debug)]
pub struct MovieOp(pub Movie);

impl PendingPersist<MemStore, StoreError> for MovieOp {
    open spec fn run_ensures(self, s0: MemStore, s1: MemStore, r: Result<(), StoreError>) -> bool {
        match r {
            Ok(_) => exists|out: Movie| #[trigger] Movie::persist_ensures(self.0, s0, s1, Ok(out)),
            Err(e) => Movie::persist_ensures(self.0, s0, s1, Err(e)),
        }
    }

    fn run(self, ctx: &mut MemStore) -> (r: Result<(), StoreError>) {
        let MovieOp(movie) = self;
        let ghost m0 = movie;
        match Movie::persist(ctx, movie) {
            Ok(out) => {
                proof {
                    assert(Movie::persist_ensures(m0, *old(ctx), *ctx, Ok(out)));
                }
                Ok(())
            },
            Err(e) => Err(e),
        }
    }
}

/// The type-erased pending operation shared by the blog-sample entities: one
/// variant per concrete entity type, each persisting the captured value.
#[derive(Debug)]
pub enum BlogOp {
    Author(Author),
    Post(Post),
    Comment(Comment),
}

impl PendingPersist<MemStore, StoreError> for BlogOp {
    open spec fn run_ensures(self, s0: MemStore, s1: MemStore, r: Result<(), StoreError>) -> bool {
        match self {
            BlogOp::Author(a) => match r {
                Ok(_) => exists|out: Author|
                    #[trigger] Author::persist_ensures(a, s0, s1, Ok(out)),
                Err(e) => Author::persist_ensures(a, s0, s1, Err(e)),
            },
            BlogOp::Post(p) => match r {
                Ok(_) => exists|out: Post| #[trigger] Post::persist_ensures(p, s0, s1, Ok(out)),
                Err(e) => Post::persist_ensures(p, s0, s1, Err(e)),
            },
            BlogOp::Comment(c) => match r {
                Ok(_) => exists|out: Comment|
                    #[trigger] Comment::persist_ensures(c, s0, s1, Ok(out)),
                Err(e) => Comment::persist_ensures(c, s0, s1, Err(e)),
            },
        }
    }

    fn run(self, ctx: &mut MemStore) -> (r: Result<(), StoreError>) {
        match self {
            BlogOp::Author(author) => {
                let ghost a0 = author;
                match Author::persist(ctx, author) {
                    Ok(out) => {
                        proof {
                            assert(Author::persist_ensures(a0, *old(ctx), *ctx, Ok(out)));
                        }
                        Ok(())
                    },
                    Err(e) => Err(e),
                }
            },
            BlogOp::Post(post) => {
                let ghost p0 = post;
                match Post::persist(ctx, post) {
                    Ok(out) => {
                        proof {
                            assert(Post::persist_ensures(p0, *old(ctx), *ctx, Ok(out)));
                        }
                        Ok(())
                    },
                    Err(e) => Err(e),
                }
            },
            BlogOp::Comment(comment) => {
                let ghost c0 = comment;
                match Comment::persist(ctx, comment) {
                    Ok(out) => {
                        proof {
                            assert(Comment::persist_ensures(c0, *old(ctx), *ctx, Ok(out)));
                        }
                        Ok(())
                    },
                    Err(e) => Err(e),
                }
            },
        }
    }
}

impl Manifest for Movie {
    type Context = MemStore;

    type Error = StoreError;

    type Overrides = MovieBuilder;

    type Op = MovieOp;

    open spec fn default_overrides_spec() -> MovieBuilder {
        MovieBuilder { title: None, year: None }
    }

    open spec fn manifest_ensures(o: MovieBuilder, m: Movie, ops: Seq<MovieOp>) -> bool {
        &&& (o.title matches Some(t) ==> m.title == t)
        &&& (o.title is None ==> m.title@ == "Inception"@)
        &&& m.year == (match o.year {
            Some(y) => y,
            None => 2010u32,
        })
        &&& ops == Seq::<MovieOp>::empty()
    }

    fn default_overrides() -> (r: MovieBuilder) {
        MovieBuilder::default()
    }

    fn manifest(overrides: MovieBuilder) -> (r: (Movie, Associations<MovieOp>)) {
        let MovieBuilder { title, year } = overrides;
        let movie = Movie {
            title: match title {
                Some(t) => t,
                None => String::from_str("Inception"),
            },
            year: match year {
                Some(y) => y,
                None => 2010,
            },
        };
        (movie, Associations::new())
    }
}

impl Persist for Movie {
    open spec fn persist_ensures(
        entity: Movie,
        s0: MemStore,
        s1: MemStore,
        r: Result<Movie, StoreError>,
    ) -> bool {
        match r {
            Ok(out) => {
                &&& s1@ == s0@.push(Row::Movie { title: entity.title, year: entity.year })
                &&& out == entity
            },
            Err(_) => false,
        }
    }

    open spec fn op_spec(self) -> MovieOp {
        MovieOp(self)
    }

    fn into_op(self) -> (r: MovieOp) {
        MovieOp(self)
    }

    fn persist(ctx: &mut MemStore, entity: Movie) -> (r: Result<Movie, StoreError>) {
        let title = entity.title.clone();
        ctx.insert_movie(title, entity.year);
        Ok(entity)
    }
}

impl Manifest for Author {
    type Context = MemStore;

    type Error = StoreError;

    type Overrides = AuthorBuilder;

    type Op = BlogOp;

    open spec fn default_overrides_spec() -> AuthorBuilder {
        AuthorBuilder { id: None, name: None }
    }

    open spec fn manifest_ensures(o: AuthorBuilder, a: Author, ops: Seq<BlogOp>) -> bool {
        &&& a.id == (match o.id {
            Some(id) => id,
            None => AuthorId(1),
        })
        &&& (o.name matches Some(n) ==> a.name == n)
        &&& (o.name is None ==> a.name@ == "Author 1"@)
        &&& ops == Seq::<BlogOp>::empty()
    }

    fn default_overrides() -> (r: AuthorBuilder) {
        AuthorBuilder::default()
    }

    fn manifest(overrides: AuthorBuilder) -> (r: (Author, Associations<BlogOp>)) {
        let AuthorBuilder { id, name } = overrides;
        let author = Author {
            id: match id {
                Some(i) => i,
                None => AuthorId(1),
            },
            name: match name {
                Some(n) => n,
                None => String::from_str("Author 1"),
            },
        };
        (author, Associations::new())
    }
}

impl Persist for Author {
    open spec fn persist_ensures(
        entity: Author,
        s0: MemStore,
        s1: MemStore,
        r: Result<Author, StoreError>,
    ) -> bool {
        match r {
            Ok(out) => {
                &&& s1@ == s0@.push(Row::Author { id: entity.id.0, name: entity.name })
                &&& out == entity
            },
            Err(_) => false,
        }
    }

    open spec fn op_spec(self) -> BlogOp {
        BlogOp::Author(self)
    }

    fn into_op(self) -> (r: BlogOp) {
        BlogOp::Author(self)
    }

    fn persist(ctx: &mut MemStore, entity: Author) -> (r: Result<Author, StoreError>) {
        let name = entity.name.clone();
        ctx.insert_author(entity.id.0, name);
        Ok(entity)
    }
}

impl Manifest for Post {
    type Context = MemStore;

    type Error = StoreError;

    type Overrides = PostBuilder;

    type Op = BlogOp;

    open spec fn default_overrides_spec() -> PostBuilder {
        PostBuilder { id: None, author_id: None, title: None }
    }

    open spec fn manifest_ensures(o: PostBuilder, p: Post, ops: Seq<BlogOp>) -> bool {
        &&& p.id == (match o.id {
            Some(id) => id,
            None => PostId(1),
        })
        &&& (o.title matches Some(t) ==> p.title == t)
        &&& (o.title is None ==> p.title@ == "Post 1"@)
        &&& (match o.author_id {
            Some(aid) => p.author_id == aid && ops == Seq::<BlogOp>::empty(),
            None => exists|a: Author, aops: Seq<BlogOp>|
                {
                    &&& #[trigger] Author::manifest_ensures(Author::default_overrides_spec(), a, aops)
                    &&& ops == aops + seq![BlogOp::Author(a)]
                    &&& p.author_id == a.id
                },
        })
    }

    fn default_overrides() -> (r: PostBuilder) {
        PostBuilder::default()
    }

    fn manifest(overrides: PostBuilder) -> (r: (Post, Associations<BlogOp>)) {
        let mut associations: Associations<BlogOp> = Associations::new();
        let PostBuilder { id, author_id, title } = overrides;
        let author_id: AuthorId = match author_id {
            Some(aid) => aid,
            None => {
                let ghost pre = associations@;
                let author: Author = association::<Author>(&mut associations);
                proof {
                    let (e, deps) = choose|e: Author, deps: Seq<BlogOp>|
                        {
                            &&& #[trigger] Author::manifest_ensures(
                                Author::default_overrides_spec(),
                                e,
                                deps,
                            )
                            &&& associations@ == pre + deps + seq![e.op_spec()]
                            &&& cloned::<Author>(e, author)
                        };
                    assert(author == e);
                    assert(associations@ =~= deps + seq![BlogOp::Author(e)]);
                }
                author.id
            },
        };
        let post = Post {
            id: match id {
                Some(i) => i,
                None => PostId(1),
            },
            author_id,
            title: match title {
                Some(t) => t,
                None => String::from_str("Post 1"),
            },
        };
        (post, associations)
    }
}

impl Persist for Post {
    open spec fn persist_ensures(
        entity: Post,
        s0: MemStore,
        s1: MemStore,
        r: Result<Post, StoreError>,
    ) -> bool {
        match r {
            Ok(out) => {
                &&& author_in(s0@, entity.author_id.0)
                &&& s1@ == s0@.push(Row::Post {
                    id: entity.id.0,
                    author_id: entity.author_id.0,
                    title: entity.title,
                })
                &&& out == entity
            },
            Err(e) => {
                &&& !author_in(s0@, entity.author_id.0)
                &&& s1 == s0
                &&& e == StoreError::MissingAuthor
            },
        }
    }

    open spec fn op_spec(self) -> BlogOp {
        BlogOp::Post(self)
    }

    fn into_op(self) -> (r: BlogOp) {
        BlogOp::Post(self)
    }

    fn persist(ctx: &mut MemStore, entity: Post) -> (r: Result<Post, StoreError>) {
        let title = entity.title.clone();
        match ctx.insert_post(entity.id.0, entity.author_id.0, title) {
            Ok(_) => Ok(entity),
            Err(e) => Err(e),
        }
    }
}

impl Manifest for Comment {
    type Context = MemStore;

    type Error = StoreError;

    type Overrides = CommentBuilder;

    type Op = BlogOp;

    open spec fn default_overrides_spec() -> CommentBuilder {
        CommentBuilder { id: None, post_id: None, username: None }
    }

    open spec fn manifest_ensures(o: CommentBuilder, c: Comment, ops: Seq<BlogOp>) -> bool {
        &&& c.id == (match o.id {
            Some(id) => id,
            None => CommentId(1),
        })
        &&& (o.username matches Some(u) ==> c.username == u)
        &&& (o.username is None ==> c.username@ == "user1"@)
        &&& (match o.post_id {
            Some(pid) => c.post_id == pid && ops == Seq::<BlogOp>::empty(),
            None => exists|p: Post, pops: Seq<BlogOp>|
                {
                    &&& #[trigger] Post::manifest_ensures(Post::default_overrides_spec(), p, pops)
                    &&& ops == pops + seq![BlogOp::Post(p)]
                    &&& c.post_id == p.id
                },
        })
    }

    fn default_overrides() -> (r: CommentBuilder) {
        CommentBuilder::default()
    }

    fn manifest(overrides: CommentBuilder) -> (r: (Comment, Associations<BlogOp>)) {
        let mut associations: Associations<BlogOp> = Associations::new();
        let CommentBuilder { id, post_id, username } = overrides;
        let post_id: PostId = match post_id {
            Some(pid) => pid,
            None => {
                let ghost pre = associations@;
                let post: Post = association::<Post>(&mut associations);
                proof {
                    let (e, deps) = choose|e: Post, deps: Seq<BlogOp>|
                        {
                            &&& #[trigger] Post::manifest_ensures(
                                Post::default_overrides_spec(),
                                e,
                                deps,
                            )
                            &&& associations@ == pre + deps + seq![e.op_spec()]
                            &&& cloned::<Post>(e, post)
                        };
                    assert(post == e);
                    assert(associations@ =~= deps + seq![BlogOp::Post(e)]);
                }
                post.id
            },
        };
        let comment = Comment {
            id: match id {
                Some(i) => i,
                None => CommentId(1),
            },
            post_id,
            username: match username {
                Some(u) => u,
                None => String::from_str("user1"),
            },
        };
        (comment, associations)
    }
}

impl Persist for Comment {
    open spec fn persist_ensures(
        entity: Comment,
        s0: MemStore,
        s1: MemStore,
        r: Result<Comment, StoreError>,
    ) -> bool {
        match r {
            Ok(out) => {
                &&& post_in(s0@, entity.post_id.0)
                &&& s1@ == s0@.push(Row::Comment {
                    id: entity.id.0,
                    post_id: entity.post_id.0,
                    username: entity.username,
                })
                &&& out == entity
            },
            Err(e) => {
                &&& !post_in(s0@, entity.post_id.0)
                &&& s1 == s0
                &&& e == StoreError::MissingPost
            },
        }
    }

    open spec fn op_spec(self) -> BlogOp {
        BlogOp::Comment(self)
    }

    fn into_op(self) -> (r: BlogOp) {
        BlogOp::Comment(self)
    }

    fn persist(ctx: &mut MemStore, entity: Comment) -> (r: Result<Comment, StoreError>) {
        let username = entity.username.clone();
        match ctx.insert_comment(entity.id.0, entity.post_id.0, username) {
            Ok(_) => Ok(entity),
            Err(e) => Err(e),
        }
    }
}

} // verus!
