//! What holds of the store when its requests are carried out.
//!
//! [`run`] plays an operation against regions that never fail: each request
//! takes effect and is answered as `RequestView::effect` and
//! `RequestView::answer` say. The laws of the regions are stated over such
//! runs; the two laws on replies hold of every store.

use vstd::prelude::*;

use crate::codec::{ascending, readable, words_of};
use crate::error::SynonymError;
use crate::exchange::{Regions, ReplyView, Turn};
use crate::fold::{folded, folded_key_of};
use crate::synonyms::{
    clear_turn, del_synonyms_turn, put_synonyms_turn, synonyms_fst_turn, synonyms_turn,
    synonyms_unicased_turn, Found,
};

verus! {

/// Plays `operation` from the replies seen so far, for at most `rounds`
/// requests: the regions it leaves, and its result if it ended.
pub open spec fn run<T>(
    operation: spec_fn(Seq<ReplyView>) -> Turn<T>,
    regions: Regions,
    replies: Seq<ReplyView>,
    rounds: nat,
) -> (Regions, Option<Result<T, SynonymError>>)
    decreases rounds,
{
    match operation(replies) {
        Turn::Done(result) => (regions, Some(result)),
        Turn::Ask(request) => if rounds == 0 {
            (regions, None)
        } else {
            run(
                operation,
                request.effect(regions),
                replies.push(request.answer(regions)),
                (rounds - 1) as nat,
            )
        },
    }
}

/// `put(word, set)` on `regions`, where `blob` holds the set.
pub open spec fn put(regions: Regions, word: Seq<char>, blob: Seq<u8>) -> (Regions, Option<Result<(), SynonymError>>) {
    run(|replies: Seq<ReplyView>| put_synonyms_turn(replies, word, blob), regions, Seq::empty(), 2)
}

/// `del(word)` on `regions`.
pub open spec fn del(regions: Regions, word: Seq<char>) -> (Regions, Option<Result<bool, SynonymError>>) {
    run(|replies: Seq<ReplyView>| del_synonyms_turn(replies, word), regions, Seq::empty(), 2)
}

/// `clear()` on `regions`.
pub open spec fn clear(regions: Regions) -> (Regions, Option<Result<(), SynonymError>>) {
    run(|replies: Seq<ReplyView>| clear_turn(replies), regions, Seq::empty(), 2)
}

/// The folded lookup of `word` on `regions`.
pub open spec fn lookup_folded(regions: Regions, word: Seq<char>) -> (Regions, Option<Result<Seq<Seq<char>>, SynonymError>>) {
    run(|replies: Seq<ReplyView>| synonyms_turn(replies, word), regions, Seq::empty(), 1)
}

/// The exact lookup of `word` on `regions`.
pub open spec fn lookup_exact(regions: Regions, word: Seq<char>) -> (Regions, Option<Result<Seq<Seq<char>>, SynonymError>>) {
    run(|replies: Seq<ReplyView>| synonyms_unicased_turn(replies, word), regions, Seq::empty(), 1)
}

/// No operation asks for more than two requests: after two replies, or one
/// for a lookup, whatever they are, it has ended.
pub proof fn lemma_operations_are_bounded(replies: Seq<ReplyView>, word: Seq<char>, blob: Seq<u8>)
    ensures
        replies.len() >= 2 ==> put_synonyms_turn(replies, word, blob) is Done,
        replies.len() >= 2 ==> del_synonyms_turn(replies, word) is Done,
        replies.len() >= 2 ==> clear_turn(replies) is Done,
        replies.len() >= 1 ==> synonyms_fst_turn(replies, word) is Done,
        replies.len() >= 1 ==> synonyms_turn(replies, word) is Done,
        replies.len() >= 1 ==> synonyms_unicased_turn(replies, word) is Done,
{
}

/// A failure of the store is handed to the caller and nothing more is
/// asked: once the reply to the first request, or to the second after a
/// first that went well, is `Failed`, the operation has ended with
/// `Storage`.
pub proof fn lemma_storage_failure_surfaces(replies: Seq<ReplyView>, word: Seq<char>, blob: Seq<u8>)
    requires
        replies.len() >= 1,
        replies[0] is Failed || (replies.len() >= 2 && replies[1] is Failed),
    ensures
        replies[0] is Failed || replies[0] is Applied ==> put_synonyms_turn(replies, word, blob)
            == Turn::<()>::Done(Err(SynonymError::Storage)),
        replies[0] is Failed || replies[0] is Deleted ==> del_synonyms_turn(replies, word)
            == Turn::<bool>::Done(Err(SynonymError::Storage)),
        replies[0] is Failed || replies[0] is Applied ==> clear_turn(replies) == Turn::<()>::Done(
            Err(SynonymError::Storage),
        ),
        replies[0] is Failed ==> synonyms_fst_turn(replies, word) == Turn::<Found>::Done(
            Err(SynonymError::Storage),
        ),
        replies[0] is Failed ==> synonyms_turn(replies, word) == Turn::<Seq<Seq<char>>>::Done(
            Err(SynonymError::Storage),
        ),
        replies[0] is Failed ==> synonyms_unicased_turn(replies, word) == Turn::<
            Seq<Seq<char>>,
        >::Done(Err(SynonymError::Storage)),
{
}

/// A put ends within two requests. It succeeds exactly on a blob that reads
/// back as a set of strings, and then both regions hold the new entry. A
/// blob that does not read back leaves the regions as they were; one that
/// holds a key that is not a string leaves its folded entry behind.
pub proof fn lemma_put(regions: Regions, word: Seq<char>, blob: Seq<u8>)
    ensures
        put(regions, word, blob) == if !readable(blob) {
            (regions, Some(Err::<(), SynonymError>(SynonymError::InvalidSet)))
        } else if words_of(blob) is None {
            (
                Regions { folded: regions.folded.insert(folded_key_of(word), blob), ..regions },
                Some(Err::<(), SynonymError>(SynonymError::InvalidSet)),
            )
        } else {
            (
                Regions {
                    folded: regions.folded.insert(folded_key_of(word), blob),
                    exact: regions.exact.insert(word, words_of(blob).unwrap()),
                },
                Some(Ok::<(), SynonymError>(())),
            )
        },
{
    reveal_with_fuel(run, 3);
}

/// A lookup reads and changes nothing.
pub proof fn lemma_lookups_read_only(regions: Regions, word: Seq<char>)
    ensures
        lookup_folded(regions, word).0 == regions,
        lookup_exact(regions, word).0 == regions,
        lookup_folded(regions, word).1 is Some,
        lookup_exact(regions, word).1 is Some,
{
    reveal_with_fuel(run, 2);
}

/// After a put that succeeded, the folded lookup of the same word yields
/// the words of the set: each once, in ascending order.
pub proof fn lemma_put_then_lookup_folded(regions: Regions, word: Seq<char>, blob: Seq<u8>)
    requires
        put(regions, word, blob).1 == Some(Ok::<(), SynonymError>(())),
    ensures
        words_of(blob) is Some,
        ascending(words_of(blob).unwrap()),
        lookup_folded(put(regions, word, blob).0, word).1 == Some(
            Ok::<Seq<Seq<char>>, SynonymError>(words_of(blob).unwrap()),
        ),
{
    lemma_put(regions, word, blob);
    reveal_with_fuel(run, 2);
}

/// After a put that succeeded, the exact lookup of the same word yields
/// what the folded lookup yields.
pub proof fn lemma_put_then_lookups_agree(regions: Regions, word: Seq<char>, blob: Seq<u8>)
    requires
        put(regions, word, blob).1 == Some(Ok::<(), SynonymError>(())),
    ensures
        lookup_exact(put(regions, word, blob).0, word).1 == lookup_folded(
            put(regions, word, blob).0,
            word,
        ).1,
{
    lemma_put(regions, word, blob);
    reveal_with_fuel(run, 2);
}

/// Two distinct words with one folded spelling share the folded entry and
/// keep their own exact entries: after a put of each, the folded lookup of
/// either yields the second set, the exact lookup of each yields its own.
pub proof fn lemma_folding_collision(
    regions: Regions,
    first: Seq<char>,
    first_blob: Seq<u8>,
    second: Seq<char>,
    second_blob: Seq<u8>,
)
    requires
        folded(first) == folded(second),
        first != second,
        put(regions, first, first_blob).1 == Some(Ok::<(), SynonymError>(())),
        put(put(regions, first, first_blob).0, second, second_blob).1 == Some(
            Ok::<(), SynonymError>(()),
        ),
    ensures
        ({
            let end = put(put(regions, first, first_blob).0, second, second_blob).0;
            &&& words_of(first_blob) is Some
            &&& words_of(second_blob) is Some
            &&& lookup_folded(end, first).1 == Some(
                Ok::<Seq<Seq<char>>, SynonymError>(words_of(second_blob).unwrap()),
            )
            &&& lookup_folded(end, second).1 == Some(
                Ok::<Seq<Seq<char>>, SynonymError>(words_of(second_blob).unwrap()),
            )
            &&& lookup_exact(end, first).1 == Some(
                Ok::<Seq<Seq<char>>, SynonymError>(words_of(first_blob).unwrap()),
            )
            &&& lookup_exact(end, second).1 == Some(
                Ok::<Seq<Seq<char>>, SynonymError>(words_of(second_blob).unwrap()),
            )
        }),
{
    lemma_put(regions, first, first_blob);
    lemma_put(put(regions, first, first_blob).0, second, second_blob);
    reveal_with_fuel(run, 2);
}

/// A delete ends within two requests: it removes the word's exact entry and
/// the entry of its folded key, and reports whether the folded region had
/// one.
pub proof fn lemma_del(regions: Regions, word: Seq<char>)
    ensures
        del(regions, word) == (
            Regions {
                folded: regions.folded.remove(folded_key_of(word)),
                exact: regions.exact.remove(word),
            },
            Some(Ok::<bool, SynonymError>(regions.folded.contains_key(folded_key_of(word)))),
        ),
{
    reveal_with_fuel(run, 3);
}

/// Deleting a word of which neither region holds an entry reports `false`
/// and changes nothing.
pub proof fn lemma_del_absent(regions: Regions, word: Seq<char>)
    requires
        !regions.folded.contains_key(folded_key_of(word)),
        !regions.exact.contains_key(word),
    ensures
        del(regions, word) == (regions, Some(Ok::<bool, SynonymError>(false))),
{
    lemma_del(regions, word);
    assert(regions.folded.remove(folded_key_of(word)) =~= regions.folded);
    assert(regions.exact.remove(word) =~= regions.exact);
}

/// A put that succeeded, then a delete of the same word: the delete reports
/// `true`, and both lookups of the word then yield nothing.
pub proof fn lemma_put_then_del(regions: Regions, word: Seq<char>, blob: Seq<u8>)
    requires
        put(regions, word, blob).1 == Some(Ok::<(), SynonymError>(())),
    ensures
        ({
            let end = del(put(regions, word, blob).0, word);
            &&& end.1 == Some(Ok::<bool, SynonymError>(true))
            &&& lookup_folded(end.0, word).1 == Some(
                Ok::<Seq<Seq<char>>, SynonymError>(Seq::empty()),
            )
            &&& lookup_exact(end.0, word).1 == Some(
                Ok::<Seq<Seq<char>>, SynonymError>(Seq::empty()),
            )
        }),
{
    lemma_put(regions, word, blob);
    lemma_del(put(regions, word, blob).0, word);
    reveal_with_fuel(run, 2);
}

/// A clear ends within two requests and leaves both regions empty: every
/// lookup then yields nothing, whatever was stored before.
pub proof fn lemma_clear(regions: Regions, word: Seq<char>)
    ensures
        clear(regions) == (Regions::empty(), Some(Ok::<(), SynonymError>(()))),
        lookup_folded(clear(regions).0, word).1 == Some(
            Ok::<Seq<Seq<char>>, SynonymError>(Seq::empty()),
        ),
        lookup_exact(clear(regions).0, word).1 == Some(
            Ok::<Seq<Seq<char>>, SynonymError>(Seq::empty()),
        ),
{
    reveal_with_fuel(run, 3);
}

} // verus!
