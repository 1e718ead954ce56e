//! Personas ("characters") and their store.
//!
//! A character is a named proxy identity owned by a user: a display name, an
//! avatar reference and a trigger prefix. The store is insert-only and keeps
//! the rows in insertion order; every query contract below is stated over
//! that row sequence.

use vstd::prelude::*;
use vstd::string::*;

use crate::errors::ModelError;

verus! {

/// A persona record.
#[derive(Debug)]
pub struct Character {
    pub char_id: i64,
    pub user_id: i64,
    pub char_name: String,
    pub char_avatar: String,
    pub char_prefix: String,
}

impl Clone for Character {
    fn clone(&self) -> (c: Self)
        ensures
            c == *self,
    {
        let c = Character {
            char_id: self.char_id,
            user_id: self.user_id,
            char_name: self.char_name.clone(),
            char_avatar: self.char_avatar.clone(),
            char_prefix: self.char_prefix.clone(),
        };
        c
    }
}

/// The rows owned by `user_id`, in store order.
pub open spec fn owned_by(rows: Seq<Character>, user_id: u64) -> Seq<Character> {
    rows.filter(|c: Character| c.user_id == user_id as i64)
}

/// First index whose row has id `char_id`, or the length when there is none.
pub open spec fn find_by_id(rows: Seq<Character>, char_id: int) -> nat
    decreases rows.len(),
{
    if rows.len() == 0 {
        0
    } else if rows[0].char_id == char_id {
        0
    } else {
        1 + find_by_id(rows.drop_first(), char_id)
    }
}

/// First index whose row has this name and owner, or the length.
pub open spec fn find_by_name(rows: Seq<Character>, name: Seq<char>, user_id: int) -> nat
    decreases rows.len(),
{
    if rows.len() == 0 {
        0
    } else if rows[0].char_name@ == name && rows[0].user_id == user_id {
        0
    } else {
        1 + find_by_name(rows.drop_first(), name, user_id)
    }
}

proof fn lemma_find_by_id_props(rows: Seq<Character>, char_id: int)
    ensures
        find_by_id(rows, char_id) <= rows.len(),
        forall|k: int| 0 <= k < find_by_id(rows, char_id) ==> rows[k].char_id != char_id,
        find_by_id(rows, char_id) < rows.len() ==> rows[find_by_id(rows, char_id) as int].char_id
            == char_id,
    decreases rows.len(),
{
    if rows.len() > 0 && rows[0].char_id != char_id {
        let r1 = rows.drop_first();
        lemma_find_by_id_props(r1, char_id);
        let f = find_by_id(rows, char_id) as int;
        assert forall|k: int| 0 <= k < f implies rows[k].char_id != char_id by {
            if k >= 1 {
                assert(rows[k] == r1[k - 1]);
            }
        }
        if f < rows.len() {
            assert(rows[f] == r1[f - 1]);
        }
    }
}

proof fn lemma_find_by_name_props(rows: Seq<Character>, name: Seq<char>, user_id: int)
    ensures
        find_by_name(rows, name, user_id) <= rows.len(),
        forall|k: int|
            0 <= k < find_by_name(rows, name, user_id) ==> !(rows[k].char_name@ == name
                && rows[k].user_id == user_id),
        find_by_name(rows, name, user_id) < rows.len() ==> rows[find_by_name(
            rows,
            name,
            user_id,
        ) as int].char_name@ == name && rows[find_by_name(rows, name, user_id) as int].user_id
            == user_id,
    decreases rows.len(),
{
    if rows.len() > 0 && !(rows[0].char_name@ == name && rows[0].user_id == user_id) {
        let r1 = rows.drop_first();
        lemma_find_by_name_props(r1, name, user_id);
        let f = find_by_name(rows, name, user_id) as int;
        assert forall|k: int| 0 <= k < f implies !(rows[k].char_name@ == name && rows[k].user_id
            == user_id) by {
            if k >= 1 {
                assert(rows[k] == r1[k - 1]);
            }
        }
        if f < rows.len() {
            assert(rows[f] == r1[f - 1]);
        }
    }
}

/// Insert-only persona store; rows stay in insertion order and ids are
/// assigned from a counter, so they are unique.
pub struct CharacterStore {
    rows: Vec<Character>,
    next_id: i64,
}

impl CharacterStore {
    /// The stored rows, in insertion order.
    pub closed spec fn rows(&self) -> Seq<Character> {
        self.rows@
    }

    /// The id the next inserted row receives.
    pub closed spec fn next_id_spec(&self) -> int {
        self.next_id as int
    }

    /// Ids are non-negative and below the counter, hence unique.
    pub open spec fn inv(&self) -> bool {
        &&& 0 <= self.next_id_spec()
        &&& forall|i: int|
            0 <= i < self.rows().len() ==> 0 <= #[trigger] self.rows()[i].char_id
                < self.next_id_spec()
    }

    /// An empty store.
    pub fn new() -> (s: Self)
        ensures
            s.inv(),
            s.rows() =~= Seq::<Character>::empty(),
            s.next_id_spec() == 0,
    {
        CharacterStore { rows: Vec::new(), next_id: 0 }
    }

    /// Whether the id counter can still assign a fresh id, as [`Self::insert`]
    /// asks of its callers.
    pub fn next_id_has_room(&self) -> (r: bool)
        ensures
            r == (self.next_id_spec() < i64::MAX),
    {
        self.next_id < i64::MAX
    }

    /// Creates a new character for `user_id`, assigning it a fresh id.
    pub fn insert(&mut self, user_id: u64, name: &str, avatar: &str, prefix: &str) -> (r: Result<
        (),
        ModelError,
    >)
        requires
            old(self).inv(),
            old(self).next_id_spec() < i64::MAX,
        ensures
            r is Ok,
            final(self).inv(),
            final(self).rows().len() == old(self).rows().len() + 1,
            final(self).rows().subrange(0, old(self).rows().len() as int) == old(self).rows(),
            final(self).rows().last().char_id == old(self).next_id_spec(),
            final(self).rows().last().user_id == user_id as i64,
            final(self).rows().last().char_name@ == name@,
            final(self).rows().last().char_avatar@ == avatar@,
            final(self).rows().last().char_prefix@ == prefix@,
            final(self).next_id_spec() == old(self).next_id_spec() + 1,
    {
        let row = Character {
            char_id: self.next_id,
            user_id: user_id as i64,
            char_name: name.to_owned(),
            char_avatar: avatar.to_owned(),
            char_prefix: prefix.to_owned(),
        };
        self.rows.push(row);
        self.next_id = self.next_id + 1;
        proof {
            assert(self.rows().subrange(0, old(self).rows().len() as int) =~= old(self).rows());
        }
        Ok(())
    }

    /// The character with the given id, or `NoSuchItem` when none has it.
    pub fn with_id(&self, char_id: u32) -> (r: Result<Character, ModelError>)
        ensures
            match r {
                Ok(c) => find_by_id(self.rows(), char_id as int) < self.rows().len() && c
                    == self.rows()[find_by_id(self.rows(), char_id as int) as int],
                Err(e) => e is NoSuchItem && forall|i: int|
                    0 <= i < self.rows().len() ==> #[trigger] self.rows()[i].char_id
                        != char_id as int,
            },
    {
        proof {
            lemma_find_by_id_props(self.rows(), char_id as int);
        }
        let n: usize = self.rows.len();
        let mut i: usize = 0;
        while i < n
            invariant
                0 <= i <= n,
                n == self.rows().len(),
                forall|k: int| 0 <= k < i ==> #[trigger] self.rows()[k].char_id != char_id as int,
            decreases n - i,
        {
            if self.rows[i].char_id == char_id as i64 {
                proof {
                    lemma_find_by_id_props(self.rows(), char_id as int);
                }
                return Ok(self.rows[i].clone());
            }
            i += 1;
        }
        Err(ModelError::NoSuchItem)
    }

    /// The first character with this name owned by `user_id`, or
    /// `NoSuchItem`.
    pub fn with_name_for_user(&self, name: &str, user_id: u64) -> (r: Result<
        Character,
        ModelError,
    >)
        ensures
            match r {
                Ok(c) => find_by_name(self.rows(), name@, user_id as i64 as int)
                    < self.rows().len() && c == self.rows()[find_by_name(
                    self.rows(),
                    name@,
                    user_id as i64 as int,
                ) as int],
                Err(e) => e is NoSuchItem && forall|i: int|
                    0 <= i < self.rows().len() ==> !(#[trigger] self.rows()[i].char_name@ == name@
                        && self.rows()[i].user_id == user_id as i64),
            },
    {
        let n: usize = self.rows.len();
        let mut i: usize = 0;
        while i < n
            invariant
                0 <= i <= n,
                n == self.rows().len(),
                forall|k: int|
                    0 <= k < i ==> !(#[trigger] self.rows()[k].char_name@ == name@
                        && self.rows()[k].user_id == user_id as i64),
            decreases n - i,
        {
            if crate::text::str_eq(self.rows[i].char_name.as_str(), name) && self.rows[i].user_id
                == user_id as i64 {
                proof {
                    lemma_find_by_name_props(self.rows(), name@, user_id as i64 as int);
                }
                return Ok(self.rows[i].clone());
            }
            i += 1;
        }
        Err(ModelError::NoSuchItem)
    }

    /// All characters owned by `user_id`, in store order.
    pub fn all_with_user_id(&self, user_id: u64) -> (r: Result<Vec<Character>, ModelError>)
        ensures
            r is Ok,
            (r matches Ok(v) ==> v@ == owned_by(self.rows(), user_id)),
    {
        let n: usize = self.rows.len();
        let mut out: Vec<Character> = Vec::new();
        let mut i: usize = 0;
        while i < n
            invariant
                0 <= i <= n,
                n == self.rows().len(),
                out@ == owned_by(self.rows().take(i as int), user_id),
            decreases n - i,
        {
            proof {
                reveal(Seq::filter);
                assert(self.rows().take(i + 1).drop_last() =~= self.rows().take(i as int));
                assert(self.rows().take(i + 1).last() == self.rows()[i as int]);
            }
            if self.rows[i].user_id == user_id as i64 {
                out.push(self.rows[i].clone());
            }
            i += 1;
        }
        proof {
            assert(self.rows().take(n as int) =~= self.rows());
        }
        Ok(out)
    }
}

} // verus!
