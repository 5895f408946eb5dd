use fabrica::association;
use fabrica::drain;
use fabrica::manifest;
use fabrica::manifest_with;
use fabrica::persist;
use fabrica::persist_with;
use fabrica::Associations;
use fabrica::Author;
use fabrica::AuthorId;
use fabrica::BlogOp;
use fabrica::Comment;
use fabrica::CommentBuilder;
use fabrica::CommentId;
use fabrica::MemStore;
use fabrica::Movie;
use fabrica::MovieBuilder;
use fabrica::Post;
use fabrica::PostBuilder;
use fabrica::PostId;
use fabrica::Row;
use fabrica::StoreError;

#[test]
fn manifest_works() {
    let movie: Movie = manifest();

    assert_eq!(
        movie,
        Movie {
            title: "Inception".into(),
            year: 2010
        }
    )
}

#[test]
fn manifest_works_with_overrides() {
    let movie: Movie = manifest_with({
        let mut movie = MovieBuilder::default();
        movie.title("The Social Network".into());
        movie
    });

    assert_eq!(
        movie,
        Movie {
            title: "The Social Network".into(),
            year: 2010
        }
    )
}

#[test]
fn persist_works() {
    let mut store = MemStore::new();

    let movie: Movie = persist(&mut store).expect("a movie with defaults must persist");

    assert_eq!(
        movie,
        Movie {
            title: "Inception".into(),
            year: 2010
        }
    );

    assert_eq!(
        store.rows(),
        &vec![Row::Movie {
            title: "Inception".into(),
            year: 2010
        }]
    );
}

#[test]
fn persist_works_with_overrides() {
    let mut store = MemStore::new();

    let movie: Movie = persist_with(&mut store, {
        let mut movie = MovieBuilder::default();
        movie.title("The Social Network".into());
        movie
    })
    .expect("a movie with overrides must persist");

    assert_eq!(
        movie,
        Movie {
            title: "The Social Network".into(),
            year: 2010
        }
    );

    assert_eq!(
        store.rows(),
        &vec![Row::Movie {
            title: "The Social Network".into(),
            year: 2010
        }]
    );
}

#[test]
fn persist_works_with_an_entity_hierarchy() {
    let mut store = MemStore::new();

    let comment: Comment = persist(&mut store).expect("a comment with defaults must persist");

    assert_eq!(
        comment,
        Comment {
            id: CommentId(1),
            post_id: PostId(1),
            username: "user1".into()
        }
    );

    assert_eq!(
        store.rows(),
        &vec![
            Row::Author {
                id: 1,
                name: "Author 1".into()
            },
            Row::Post {
                id: 1,
                author_id: 1,
                title: "Post 1".into()
            },
            Row::Comment {
                id: 1,
                post_id: comment.post_id.0,
                username: "user1".into()
            },
        ]
    );
}

#[test]
fn manifest_resolves_associations_in_memory() {
    let comment: Comment = manifest();

    assert_eq!(comment.id, CommentId(1));
    assert_eq!(comment.post_id, PostId(1));
    assert_eq!(comment.username, "user1".to_string());
}

#[test]
fn supplied_foreign_key_suppresses_the_association() {
    let mut store = MemStore::new();

    let post: Post = persist(&mut store).expect("a post with defaults must persist");
    let before = store.rows().len();

    let comment: Comment = persist_with(&mut store, {
        let mut comment = CommentBuilder::default();
        comment.post_id(post.id);
        comment
    })
    .expect("the post row exists, so the comment must persist");

    assert_eq!(comment.post_id, post.id);
    assert_eq!(store.rows().len(), before + 1);
    assert_eq!(
        store.rows().last(),
        Some(&Row::Comment {
            id: 1,
            post_id: post.id.0,
            username: "user1".into()
        })
    );
}

#[test]
fn persist_surfaces_a_missing_author() {
    let mut store = MemStore::new();

    let result: Result<Post, StoreError> = persist_with(&mut store, {
        let mut post = PostBuilder::default();
        post.author_id(AuthorId(99));
        post
    });

    assert_eq!(result, Err(StoreError::MissingAuthor));
    assert!(store.rows().is_empty());
}

#[test]
fn persist_surfaces_a_missing_post() {
    let mut store = MemStore::new();

    let result: Result<Comment, StoreError> = persist_with(&mut store, {
        let mut comment = CommentBuilder::default();
        comment.post_id(PostId(7));
        comment
    });

    assert_eq!(result, Err(StoreError::MissingPost));
    assert!(store.rows().is_empty());
}

#[test]
fn association_registers_one_deferred_write() {
    let mut associations: Associations<BlogOp> = Associations::new();
    assert_eq!(associations.len(), 0);

    let author: Author = association(&mut associations);

    assert_eq!(author.id, AuthorId(1));
    assert_eq!(author.name, "Author 1".to_string());
    assert_eq!(associations.len(), 1);

    let mut store = MemStore::new();
    drain(associations, &mut store).expect("an author insert is unconstrained");

    assert_eq!(
        store.rows(),
        &vec![Row::Author {
            id: 1,
            name: "Author 1".into()
        }]
    );
}

#[test]
fn draining_an_empty_registry_writes_nothing() {
    let associations: Associations<BlogOp> = Associations::new();
    let mut store = MemStore::new();

    drain(associations, &mut store).expect("an empty drain cannot fail");

    assert!(store.rows().is_empty());
}
