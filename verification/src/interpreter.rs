//! The reading of a secret's name: which words it holds, and the mock value
//! that a name with those words gets.

use vstd::prelude::*;
use vstd::string::StringExecFns;
use crate::text::{chars_of, lemma_first_character, lemma_mentions_step, lemma_mentions_within};
use crate::text::{mentions, mentions_before, occurs_at, word_at};

verus! {

/// The words that the reading of a secret's name looks for.
#[derive(Clone, Copy, Debug, PartialEq, Eq, Structural)]
pub enum MockServiceSecret {
    StorageConnectionString,
    Blob,
    Queue,
    Table,
}

/// Which of the words were found in a name.
#[derive(Clone, Copy, Debug, PartialEq, Eq, Structural)]
pub struct Found {
    pub storage: bool,
    pub blob: bool,
    pub queue: bool,
    pub table: bool,
}

/// The four words as characters, ready to be held against a name.
pub struct Vocabulary {
    storage: Vec<char>,
    blob: Vec<char>,
    queue: Vec<char>,
    table: Vec<char>,
}

/// The words that stand in `name` at an offset below `end`.
pub open spec fn found_before(name: Seq<char>, end: int) -> Found {
    Found {
        storage: mentions_before(name, MockServiceSecret::StorageConnectionString.word(), end),
        blob: mentions_before(name, MockServiceSecret::Blob.word(), end),
        queue: mentions_before(name, MockServiceSecret::Queue.word(), end),
        table: mentions_before(name, MockServiceSecret::Table.word(), end),
    }
}

/// The words that stand anywhere in `name`.
pub open spec fn found_in(name: Seq<char>) -> Found {
    Found {
        storage: mentions(name, MockServiceSecret::StorageConnectionString.word()),
        blob: mentions(name, MockServiceSecret::Blob.word()),
        queue: mentions(name, MockServiceSecret::Queue.word()),
        table: mentions(name, MockServiceSecret::Table.word()),
    }
}

/// What every connection string starts with.
pub open spec fn development_prefix() -> Seq<char> {
    "UseDevelopmentStorage=true;"@
}

/// The blob endpoint's part of a connection string.
pub open spec fn blob_endpoint() -> Seq<char> {
    "BlobEndpoint=http://azurite-blob.azmocks.cluster.local/devstoreaccount1;"@
}

/// The queue endpoint's part of a connection string.
pub open spec fn queue_endpoint() -> Seq<char> {
    "QueueEndpoint=http://azurite-queue.azmocks.cluster.local/devstoreaccount1;"@
}

/// The table endpoint's part of a connection string.
pub open spec fn table_endpoint() -> Seq<char> {
    "TableEndpoint=http://azurite-table.azmocks.cluster.local/devstoreaccount1;"@
}

/// The connection string with the chosen endpoints: the prefix once, then
/// blob, queue and table in that order, each only if chosen.
pub open spec fn connection_string(blob: bool, queue: bool, table: bool) -> Seq<char> {
    development_prefix() + (if blob {
        blob_endpoint()
    } else {
        Seq::empty()
    }) + (if queue {
        queue_endpoint()
    } else {
        Seq::empty()
    }) + (if table {
        table_endpoint()
    } else {
        Seq::empty()
    })
}

/// Exactly one of the three holds.
pub open spec fn exactly_one(blob: bool, queue: bool, table: bool) -> bool {
    ||| blob && !queue && !table
    ||| !blob && queue && !table
    ||| !blob && !queue && table
}

/// The value for a name, given which words were found in it.
pub open spec fn value_for_flags(storage: bool, blob: bool, queue: bool, table: bool) -> Seq<
    char,
> {
    if !storage {
        Seq::empty()
    } else if exactly_one(blob, queue, table) {
        connection_string(blob, queue, table)
    } else {
        connection_string(true, true, true)
    }
}

/// The value for a name: empty unless the name mentions a storage connection
/// string; then the one endpoint that it names, or all three where it names
/// none or several.
pub open spec fn interpretation(name: Seq<char>) -> Seq<char> {
    found_in(name).value()
}

/// No word is empty, and no two words start with the same character.
pub proof fn lemma_words_start_apart()
    ensures
        forall|w: MockServiceSecret| #[trigger] w.word().len() > 0,
        forall|v: MockServiceSecret, w: MockServiceSecret|
            v != w ==> #[trigger] v.word()[0] != #[trigger] w.word()[0],
{
    reveal_strlit("StorageConnectionString");
    reveal_strlit("Blob");
    reveal_strlit("Queue");
    reveal_strlit("Table");
}

/// At one offset of a name at most one word stands.
pub proof fn lemma_one_word_at(name: Seq<char>, at: int, v: MockServiceSecret, w: MockServiceSecret)
    requires
        occurs_at(name, v.word(), at),
        v != w,
    ensures
        !occurs_at(name, w.word(), at),
{
    lemma_words_start_apart();
    lemma_first_character(name, v.word(), at);
    if occurs_at(name, w.word(), at) {
        lemma_first_character(name, w.word(), at);
    }
}

/// Builds the connection string with the chosen endpoints.
pub fn build_connection_string(blob: bool, queue: bool, table: bool) -> (s: String)
    ensures
        s@ == connection_string(blob, queue, table),
{
    let mut s = String::from_str("UseDevelopmentStorage=true;");
    if blob {
        s.append("BlobEndpoint=http://azurite-blob.azmocks.cluster.local/devstoreaccount1;");
    }
    if queue {
        s.append("QueueEndpoint=http://azurite-queue.azmocks.cluster.local/devstoreaccount1;");
    }
    if table {
        s.append("TableEndpoint=http://azurite-table.azmocks.cluster.local/devstoreaccount1;");
    }
    assert(s@ =~= connection_string(blob, queue, table));
    s
}

/// The value for the words found: the decision table alone.
pub fn value_for(storage: bool, blob: bool, queue: bool, table: bool) -> (s: String)
    ensures
        s@ == value_for_flags(storage, blob, queue, table),
{
    if !storage {
        String::new()
    } else if (blob && !queue && !table) || (!blob && queue && !table) || (!blob && !queue
        && table) {
        build_connection_string(blob, queue, table)
    } else {
        build_connection_string(true, true, true)
    }
}

impl Found {
    /// What is found with `token` added.
    pub open spec fn with(self, token: MockServiceSecret) -> Found {
        match token {
            MockServiceSecret::StorageConnectionString => Found { storage: true, ..self },
            MockServiceSecret::Blob => Found { blob: true, ..self },
            MockServiceSecret::Queue => Found { queue: true, ..self },
            MockServiceSecret::Table => Found { table: true, ..self },
        }
    }

    /// The value that a name with these words gets.
    pub open spec fn value(self) -> Seq<char> {
        value_for_flags(self.storage, self.blob, self.queue, self.table)
    }

    /// Nothing found.
    pub fn nothing() -> (found: Found)
        ensures
            found == (Found { storage: false, blob: false, queue: false, table: false }),
    {
        Found { storage: false, blob: false, queue: false, table: false }
    }

    /// Takes note of one more word.
    pub fn note(self, token: MockServiceSecret) -> (found: Found)
        ensures
            found == self.with(token),
    {
        match token {
            MockServiceSecret::StorageConnectionString => Found { storage: true, ..self },
            MockServiceSecret::Blob => Found { blob: true, ..self },
            MockServiceSecret::Queue => Found { queue: true, ..self },
            MockServiceSecret::Table => Found { table: true, ..self },
        }
    }
}

impl Vocabulary {
    /// Each field holds the characters of its word.
    pub closed spec fn wf(&self) -> bool {
        &&& self.storage@ == MockServiceSecret::StorageConnectionString.word()
        &&& self.blob@ == MockServiceSecret::Blob.word()
        &&& self.queue@ == MockServiceSecret::Queue.word()
        &&& self.table@ == MockServiceSecret::Table.word()
    }

    /// The four words.
    pub fn new() -> (words: Vocabulary)
        ensures
            words.wf(),
    {
        Vocabulary {
            storage: chars_of(MockServiceSecret::StorageConnectionString.literal()),
            blob: chars_of(MockServiceSecret::Blob.literal()),
            queue: chars_of(MockServiceSecret::Queue.literal()),
            table: chars_of(MockServiceSecret::Table.literal()),
        }
    }

    /// The word that stands in `name` at offset `at`, if one does. It is the
    /// only one that stands there.
    pub fn token_at(&self, name: &Vec<char>, at: usize) -> (token: Option<MockServiceSecret>)
        requires
            self.wf(),
        ensures
            forall|w: MockServiceSecret|
                token == Some(w) <==> #[trigger] occurs_at(name@, w.word(), at as int),
    {
        let token = if word_at(name, &self.storage, at) {
            Some(MockServiceSecret::StorageConnectionString)
        } else if word_at(name, &self.blob, at) {
            Some(MockServiceSecret::Blob)
        } else if word_at(name, &self.queue, at) {
            Some(MockServiceSecret::Queue)
        } else if word_at(name, &self.table, at) {
            Some(MockServiceSecret::Table)
        } else {
            None
        };
        proof {
            assert forall|w: MockServiceSecret|
                token == Some(w) <==> #[trigger] occurs_at(name@, w.word(), at as int) by {
                if let Some(v) = token {
                    if v != w {
                        lemma_one_word_at(name@, at as int, v, w);
                    }
                }
            }
        }
        token
    }
}

impl MockServiceSecret {
    /// The characters that make up this word, matched case-sensitively.
    pub open spec fn word(self) -> Seq<char> {
        match self {
            MockServiceSecret::StorageConnectionString => "StorageConnectionString"@,
            MockServiceSecret::Blob => "Blob"@,
            MockServiceSecret::Queue => "Queue"@,
            MockServiceSecret::Table => "Table"@,
        }
    }

    /// This word as text.
    pub fn literal(self) -> (s: &'static str)
        ensures
            s@ == self.word(),
    {
        match self {
            MockServiceSecret::StorageConnectionString => "StorageConnectionString",
            MockServiceSecret::Blob => "Blob",
            MockServiceSecret::Queue => "Queue",
            MockServiceSecret::Table => "Table",
        }
    }

    /// Goes through `name` once, offset by offset, and notes each word that
    /// stands there. What else the name holds is passed over.
    pub fn scan(name: &Vec<char>) -> (found: Found)
        ensures
            found == found_in(name@),
    {
        let words = Vocabulary::new();
        let mut found = Found::nothing();
        let mut at: usize = 0;
        while at < name.len()
            invariant
                words.wf(),
                at <= name.len(),
                found == found_before(name@, at as int),
            decreases name.len() - at,
        {
            let token = words.token_at(name, at);
            proof {
                lemma_mentions_step(name@, MockServiceSecret::StorageConnectionString.word(), at as int);
                lemma_mentions_step(name@, MockServiceSecret::Blob.word(), at as int);
                lemma_mentions_step(name@, MockServiceSecret::Queue.word(), at as int);
                lemma_mentions_step(name@, MockServiceSecret::Table.word(), at as int);
            }
            match token {
                Some(word) => {
                    found = found.note(word);
                },
                None => {},
            }
            at += 1;
        }
        proof {
            lemma_words_start_apart();
            lemma_mentions_within(name@, MockServiceSecret::StorageConnectionString.word());
            lemma_mentions_within(name@, MockServiceSecret::Blob.word());
            lemma_mentions_within(name@, MockServiceSecret::Queue.word());
            lemma_mentions_within(name@, MockServiceSecret::Table.word());
        }
        found
    }

    /// Reads a secret's name and gives the mock value that goes with it.
    /// Every name has a value; one that mentions no storage connection
    /// string has the empty one.
    pub fn interpret(secret_name: &str) -> (value: String)
        ensures
            value@ == interpretation(secret_name@),
    {
        let name = chars_of(secret_name);
        let found = MockServiceSecret::scan(&name);
        value_for(found.storage, found.blob, found.queue, found.table)
    }
}

} // verus!
