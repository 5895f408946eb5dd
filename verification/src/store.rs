//! A small in-memory backing store for the sample entities: an ordered list
//! of rows, with referential-integrity checks at insert time.

use vstd::prelude::*;

verus! {

/// One persisted record.
#[derive(Debug, PartialEq, Eq)]
pub enum Row {
    Movie { title: String, year: u32 },
    Author { id: u32, name: String },
    Post { id: u32, author_id: u32, title: String },
    Comment { id: u32, post_id: u32, username: String },
}

/// The error an insert can surface: a foreign key that resolves to no row.
#[derive(Debug, Clone, Copy, PartialEq, Eq, Structural)]
pub enum StoreError {
    MissingAuthor,
    MissingPost,
}

/// An author row with key `id` stands among `rows`.
pub open spec fn author_in(rows: Seq<Row>, id: u32) -> bool {
    exists|i: int|
        {
            &&& 0 <= i < rows.len()
            &&& (#[trigger] rows[i]) matches Row::Author { id: aid, .. } && aid == id
        }
}

/// A post row with key `id` stands among `rows`.
pub open spec fn post_in(rows: Seq<Row>, id: u32) -> bool {
    exists|i: int|
        {
            &&& 0 <= i < rows.len()
            &&& (#[trigger] rows[i]) matches Row::Post { id: pid, .. } && pid == id
        }
}

/// The in-memory store handle: rows in insertion order.
pub struct MemStore {
    rows: Vec<Row>,
}

impl View for MemStore {
    type V = Seq<Row>;

    closed spec fn view(&self) -> Seq<Row> {
        self.rows@
    }
}

impl MemStore {
    /// Creates an empty store.
    pub fn new() -> (r: Self)
        ensures
            r@ == Seq::<Row>::empty(),
    {
        MemStore { rows: Vec::new() }
    }

    /// The rows, in insertion order.
    pub fn rows(&self) -> (r: &Vec<Row>)
        ensures
            r@ == self@,
    {
        &self.rows
    }

    /// Whether an author row with key `id` exists.
    pub fn has_author(&self, id: u32) -> (r: bool)
        ensures
            r == author_in(self@, id),
    {
        let mut i: usize = 0;
        while i < self.rows.len()
            invariant
                i <= self.rows@.len(),
                self.rows@ == self@,
                !author_in(self@.take(i as int), id),
            decreases self.rows@.len() - i,
        {
            match self.rows[i] {
                Row::Author { id: aid, .. } => {
                    if aid == id {
                        proof {
                            assert((self@[i as int] matches Row::Author { id: aid2, .. }
                                && aid2 == id));
                        }
                        return true;
                    }
                },
                _ => {},
            }
            proof {
                assert(self@.take(i + 1).drop_last() =~= self@.take(i as int));
                assert forall|j: int|
                    0 <= j < i + 1 implies !((#[trigger] self@.take(i + 1)[j])
                    matches Row::Author { id: aid, .. } && aid == id) by {
                    if j < i {
                        assert(self@.take(i as int)[j] == self@.take(i + 1)[j]);
                    } else {
                        assert(self@.take(i + 1)[j] == self@[i as int]);
                    }
                }
            }
            i = i + 1;
        }
        proof {
            assert(self@.take(self.rows@.len() as int) =~= self@);
        }
        false
    }

    /// Whether a post row with key `id` exists.
    pub fn has_post(&self, id: u32) -> (r: bool)
        ensures
            r == post_in(self@, id),
    {
        let mut i: usize = 0;
        while i < self.rows.len()
            invariant
                i <= self.rows@.len(),
                self.rows@ == self@,
                !post_in(self@.take(i as int), id),
            decreases self.rows@.len() - i,
        {
            match self.rows[i] {
                Row::Post { id: pid, .. } => {
                    if pid == id {
                        proof {
                            assert((self@[i as int] matches Row::Post { id: pid2, .. }
                                && pid2 == id));
                        }
                        return true;
                    }
                },
                _ => {},
            }
            proof {
                assert forall|j: int|
                    0 <= j < i + 1 implies !((#[trigger] self@.take(i + 1)[j])
                    matches Row::Post { id: pid, .. } && pid == id) by {
                    if j < i {
                        assert(self@.take(i as int)[j] == self@.take(i + 1)[j]);
                    } else {
                        assert(self@.take(i + 1)[j] == self@[i as int]);
                    }
                }
            }
            i = i + 1;
        }
        proof {
            assert(self@.take(self.rows@.len() as int) =~= self@);
        }
        false
    }

    /// Inserts a movie row; nothing constrains it.
    pub fn insert_movie(&mut self, title: String, year: u32)
        ensures
            final(self)@ == old(self)@.push(Row::Movie { title, year }),
    {
        self.rows.push(Row::Movie { title, year });
    }

    /// Inserts an author row; nothing constrains it.
    pub fn insert_author(&mut self, id: u32, name: String)
        ensures
            final(self)@ == old(self)@.push(Row::Author { id, name }),
    {
        self.rows.push(Row::Author { id, name });
    }

    /// Inserts a post row; its `author_id` must resolve to an author row
    /// already present, else nothing is written.
    pub fn insert_post(&mut self, id: u32, author_id: u32, title: String) -> (r: Result<
        (),
        StoreError,
    >)
        ensures
            r is Ok <==> author_in(old(self)@, author_id),
            r is Ok ==> final(self)@ == old(self)@.push(Row::Post { id, author_id, title }),
            r is Err ==> *final(self) == *old(self) && r == Err::<(), StoreError>(
                StoreError::MissingAuthor,
            ),
    {
        if !self.has_author(author_id) {
            return Err(StoreError::MissingAuthor);
        }
        self.rows.push(Row::Post { id, author_id, title });
        Ok(())
    }

    /// Inserts a comment row; its `post_id` must resolve to a post row
    /// already present, else nothing is written.
    pub fn insert_comment(&mut self, id: u32, post_id: u32, username: String) -> (r: Result<
        (),
        StoreError,
    >)
        ensures
            r is Ok <==> post_in(old(self)@, post_id),
            r is Ok ==> final(self)@ == old(self)@.push(Row::Comment { id, post_id, username }),
            r is Err ==> *final(self) == *old(self) && r == Err::<(), StoreError>(
                StoreError::MissingPost,
            ),
    {
        if !self.has_post(post_id) {
            return Err(StoreError::MissingPost);
        }
        self.rows.push(Row::Comment { id, post_id, username });
        Ok(())
    }
}

} // verus!
