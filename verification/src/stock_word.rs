//! The words that company names and codes are split into, for search.

use vstd::prelude::*;
use vstd::hash_map::StringHashMap;
use crate::sentinel::Millis;

verus! {

/// One word of the search index.
#[derive(Debug)]
pub struct Entity {
    pub word_id: i64,
    pub word: String,
    pub created_time: Millis,
    pub updated_time: Millis,
}

/// A word as plain values.
pub struct EntityView {
    pub word_id: i64,
    pub word: Seq<char>,
    pub created_time: Millis,
    pub updated_time: Millis,
}

impl View for Entity {
    type V = EntityView;

    open spec fn view(&self) -> EntityView {
        EntityView {
            word_id: self.word_id,
            word: self.word@,
            created_time: self.created_time,
            updated_time: self.updated_time,
        }
    }
}

impl Entity {
    /// A word that has no id yet, created at the moment `now`.
    pub fn new(word: String, now: Millis) -> (entity: Entity)
        ensures
            entity@ == (EntityView {
                word_id: 0,
                word: word@,
                created_time: now,
                updated_time: now,
            }),
    {
        Entity { word_id: 0, word, created_time: now, updated_time: now }
    }

    /// A copy of the word.
    pub fn clone(&self) -> (copy: Entity)
        ensures
            copy == *self,
    {
        Entity {
            word_id: self.word_id,
            word: self.word.clone(),
            created_time: self.created_time,
            updated_time: self.updated_time,
        }
    }

    /// Takes over the id that the store gave the word when it was written,
    /// and hands it on.
    pub fn insert(&mut self, word_id: i64) -> (id: i64)
        ensures
            id == word_id,
            final(self)@ == (EntityView { word_id, ..old(self)@ }),
    {
        self.word_id = word_id;
        word_id
    }

    /// The statement that lists the words among `words`, and whether `words`
    /// is to be bound as its argument: with no words given, every word is
    /// listed and nothing is bound.
    pub fn list_by_word(words: &Vec<String>) -> (query: (String, bool))
        ensures
            query.1 == (words@.len() > 0),
            query.0@ == if words@.len() > 0 {
                list_some_statement()
            } else {
                list_all_statement()
            },
    {
        let mut statement = String::from_str(
            "select word_id,word,created_time,updated_time from company_word",
        );
        if words.len() > 0 {
            statement.append(" where word = any(");
            statement.append("$1");
            statement.append(")");
            (statement, true)
        } else {
            (statement, false)
        }
    }
}

/// The statement that writes a word and answers with its id.  Its three
/// arguments are, in order: the word, the time of creation and the time of
/// the update.  A word that is there already keeps its id and its time of
/// creation.
pub const INSERT: &'static str = "INSERT INTO company_word (word, created_time, updated_time)
                 VALUES ($1, $2, $3)
                 ON CONFLICT (word) DO UPDATE SET
                    word = EXCLUDED.word,
                    updated_time = EXCLUDED.updated_time
                 RETURNING word_id";

/// The statement that lists every word.
pub open spec fn list_all_statement() -> Seq<char> {
    "select word_id,word,created_time,updated_time from company_word"@
}

/// The statement that lists the words among those given; its one argument
/// is the list of words.
pub open spec fn list_some_statement() -> Seq<char> {
    list_all_statement() + " where word = any("@ + "$1"@ + ")"@
}

/// The index that filing the entities one after the other under their
/// words gives: of two entities with one word, the later stays.
pub open spec fn indexed_by_word(entities: Seq<Entity>) -> Map<Seq<char>, Entity>
    decreases entities.len(),
{
    if entities.len() == 0 {
        Map::empty()
    } else {
        indexed_by_word(entities.drop_last()).insert(entities.last().word@, entities.last())
    }
}

/// Files each entity under its word.  Of two entities with one word, the
/// later stays; with no list given, the index holds nothing.
pub fn vec_to_hashmap_key_using_word(entities: Option<Vec<Entity>>) -> (stock_words: StringHashMap<
    Entity,
>)
    ensures
        stock_words@ == indexed_by_word(
            match entities {
                Some(list) => list@,
                None => Seq::empty(),
            },
        ),
{
    let mut stock_words: StringHashMap<Entity> = StringHashMap::new();
    if let Some(list) = entities {
        let mut i: usize = 0;
        assert(list@.take(0) =~= Seq::empty());
        while i < list.len()
            invariant
                i <= list@.len(),
                stock_words@ == indexed_by_word(list@.take(i as int)),
            decreases list@.len() - i,
        {
            proof {
                let upto = list@.take(i as int + 1);
                assert(upto.drop_last() =~= list@.take(i as int));
                assert(upto.last() == list@[i as int]);
            }
            let e = list[i].clone();
            stock_words.insert(e.word.clone(), e);
            i = i + 1;
        }
        assert(list@.take(list@.len() as int) =~= list@);
    }
    stock_words
}

} // verus!
