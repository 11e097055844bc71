//! What holds of every name and of every request, proved once for all of
//! them.

use vstd::prelude::*;
use crate::handlers::{challenge, challenge_reply, secret_reply, PayloadView, ReplyView};
use crate::handlers::secrets::{acknowledgment, carries_body, read_answer, write_answer};
use crate::handlers::secrets::Secret;
use crate::interpreter::{blob_endpoint, development_prefix, queue_endpoint, table_endpoint};
use crate::interpreter::{exactly_one, interpretation, MockServiceSecret};
use crate::text::{mentions, occurs_at};

verus! {

/// A name that mentions a storage connection string and exactly one of blob,
/// queue and table has the connection string with that one endpoint after
/// the prefix, and nothing else.
pub proof fn lemma_single_endpoint(name: Seq<char>)
    requires
        mentions(name, MockServiceSecret::StorageConnectionString.word()),
        exactly_one(
            mentions(name, MockServiceSecret::Blob.word()),
            mentions(name, MockServiceSecret::Queue.word()),
            mentions(name, MockServiceSecret::Table.word()),
        ),
    ensures
        mentions(name, MockServiceSecret::Blob.word()) ==> interpretation(name)
            == development_prefix() + blob_endpoint(),
        mentions(name, MockServiceSecret::Queue.word()) ==> interpretation(name)
            == development_prefix() + queue_endpoint(),
        mentions(name, MockServiceSecret::Table.word()) ==> interpretation(name)
            == development_prefix() + table_endpoint(),
{
    let nothing = Seq::<char>::empty();
    assert(development_prefix() + blob_endpoint() + nothing + nothing =~= development_prefix()
        + blob_endpoint());
    assert(development_prefix() + nothing + queue_endpoint() + nothing =~= development_prefix()
        + queue_endpoint());
    assert(development_prefix() + nothing + nothing + table_endpoint() =~= development_prefix()
        + table_endpoint());
}

/// A name that mentions a storage connection string and none of blob, queue
/// and table, or more than one of them, has the connection string with all
/// three endpoints: blob, then queue, then table.
pub proof fn lemma_all_endpoints(name: Seq<char>)
    requires
        mentions(name, MockServiceSecret::StorageConnectionString.word()),
        !exactly_one(
            mentions(name, MockServiceSecret::Blob.word()),
            mentions(name, MockServiceSecret::Queue.word()),
            mentions(name, MockServiceSecret::Table.word()),
        ),
    ensures
        interpretation(name) == development_prefix() + blob_endpoint() + queue_endpoint()
            + table_endpoint(),
{
}

/// A name that mentions no storage connection string has the empty value,
/// whatever else it holds.
pub proof fn lemma_other_names_are_empty(name: Seq<char>)
    requires
        !mentions(name, MockServiceSecret::StorageConnectionString.word()),
    ensures
        interpretation(name) == Seq::<char>::empty(),
{
}

/// A word that a text holds is still held when anything is put before or
/// behind the text: where in a name a word stands makes no difference.
pub proof fn lemma_mentions_in_longer_text(
    before: Seq<char>,
    text: Seq<char>,
    behind: Seq<char>,
    word: Seq<char>,
)
    requires
        mentions(text, word),
    ensures
        mentions(before + text + behind, word),
{
    let at = choose|at: int| occurs_at(text, word, at);
    let longer = before + text + behind;
    let moved = before.len() + at;
    assert(longer.subrange(moved, moved + word.len()) =~= text.subrange(at, at + word.len()));
    assert(occurs_at(longer, word, moved));
}

/// A write without a body, or with an empty one, is answered with status
/// 401, the challenge in the header and no body, whatever the body would
/// have been read as.
pub proof fn lemma_write_without_body_is_challenged(
    raw_body: Option<Seq<u8>>,
    parsed: bool,
    host: Seq<char>,
)
    requires
        raw_body is None || raw_body->0.len() == 0,
    ensures
        write_answer(carries_body(raw_body), parsed, host) == challenge_reply(host),
        challenge_reply(host).status == 401,
        challenge_reply(host).www_authenticate == Some(challenge(host)),
        challenge_reply(host).payload == PayloadView::Empty,
{
}

/// A write whose body does not read as a secret is answered like one
/// without a body.
pub proof fn lemma_malformed_write_is_challenged(raw_body: Option<Seq<u8>>, host: Seq<char>)
    ensures
        write_answer(carries_body(raw_body), false, host) == challenge_reply(host),
{
}

/// A write whose body reads as a secret is answered with status 200 and the
/// acknowledgment, the same for every secret that was sent.
pub proof fn lemma_write_is_acknowledged(raw_body: Option<Seq<u8>>, host: Seq<char>)
    requires
        carries_body(raw_body),
    ensures
        write_answer(carries_body(raw_body), true, host) == secret_reply(acknowledgment(host)),
        secret_reply(acknowledgment(host)).status == 200,
        secret_reply(acknowledgment(host)).www_authenticate == None::<Seq<char>>,
{
}

/// Two answers to the same read are the same answer.
pub proof fn lemma_read_repeats(
    interprets: bool,
    name: Option<Seq<char>>,
    first: Secret,
    second: Secret,
)
    requires
        first@ == read_answer(interprets, name),
        second@ == read_answer(interprets, name),
    ensures
        first@ == second@,
{
}

/// Two answers to the same write are the same answer.
pub proof fn lemma_write_repeats(
    raw_body: Option<Seq<u8>>,
    parsed: bool,
    host: Seq<char>,
    first: ReplyView,
    second: ReplyView,
)
    requires
        first == write_answer(carries_body(raw_body), parsed, host),
        second == write_answer(carries_body(raw_body), parsed, host),
    ensures
        first == second,
{
}

/// The value of a read depends on the name alone when names are
/// interpreted, and on nothing when they are not.
pub proof fn lemma_read_value(interprets: bool, name: Seq<char>)
    ensures
        read_answer(true, Some(name)).value == interpretation(name),
        read_answer(false, Some(name)) == read_answer(false, None),
        read_answer(interprets, None) == read_answer(false, None),
{
}

} // verus!
