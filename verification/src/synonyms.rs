//! The synonym store: its operations, one step at a time.
//!
//! Every operation is a function of what it was given and of the replies
//! that the store has made to it so far. Called with no reply it names its
//! first request; called again with the replies so far it names the next
//! one, or ends. A caller holds the transaction and turns the crank:
//!
//! ```text
//! replies = []
//! loop:
//!     Ask(request)  -> carry the request out, push the store's reply
//!     Done(result)  -> return the result
//! ```
//!
//! The spec functions ending in `_turn` say, as plain values, which step
//! follows which replies; the laws of the store are stated over them.

use vstd::prelude::*;

use crate::codec::{
    ascending, build, builder_wrote, built_blob, empty_set, encode, enumerate, list_verified,
    listing, readable, set_bytes, words_of,
};
use crate::error::SynonymError;
use crate::exchange::{plain_turn, transcript, words_turn, Reply, ReplyView, Request, RequestView, Step, Turn};
use crate::fold::{folded_key, folded_key_of};

verus! {

/// The synonym store. It holds no state of its own: the two regions live in
/// the transactional store, and what the store answered is handed in.
#[derive(Clone, Copy, Debug)]
pub struct Synonyms {}

/// What a lookup in the folded region found.
pub enum Found {
    /// No entry: the canonical empty set.
    Nothing,
    /// The set that this blob holds.
    Blob(Seq<u8>),
}

/// `put(word, set)`, where `blob` holds the set: write the blob under the
/// folded key, then the ascending list of the set's words under the word.
/// A set that does not read back, or that holds a key that is not a
/// string, is refused; a reply other than `Applied` ends the operation with
/// `Storage`.
pub open spec fn put_synonyms_turn(replies: Seq<ReplyView>, word: Seq<char>, blob: Seq<u8>) -> Turn<()> {
    if replies.len() == 0 {
        if readable(blob) {
            Turn::Ask(RequestView::PutFolded { key: folded_key_of(word), blob })
        } else {
            Turn::Done(Err(SynonymError::InvalidSet))
        }
    } else if !(replies[0] is Applied) {
        Turn::Done(Err(SynonymError::Storage))
    } else if replies.len() == 1 {
        match words_of(blob) {
            Some(synonyms) => Turn::Ask(RequestView::PutExact { word, synonyms }),
            None => Turn::Done(Err(SynonymError::InvalidSet)),
        }
    } else if !(replies[1] is Applied) {
        Turn::Done(Err(SynonymError::Storage))
    } else {
        Turn::Done(Ok(()))
    }
}

/// `put(word, set)` for the set of the given words: the words must stand in
/// strictly ascending order, and the blob is the one that the set builder
/// writes for them on this target.
pub open spec fn put_words_turn(replies: Seq<ReplyView>, word: Seq<char>, words: Seq<Seq<char>>) -> Turn<()> {
    if ascending(words) {
        put_synonyms_turn(replies, word, built_blob(words, usize::BITS))
    } else {
        Turn::Done(Err(SynonymError::InvalidSet))
    }
}

/// `del(word)`: delete the word's entry in the exact region, then the entry
/// of its folded key. The result is what the second delete reported.
pub open spec fn del_synonyms_turn(replies: Seq<ReplyView>, word: Seq<char>) -> Turn<bool> {
    if replies.len() == 0 {
        Turn::Ask(RequestView::DeleteExact { word })
    } else if !(replies[0] is Deleted) {
        Turn::Done(Err(SynonymError::Storage))
    } else if replies.len() == 1 {
        Turn::Ask(RequestView::DeleteFolded { key: folded_key_of(word) })
    } else {
        match replies[1] {
            ReplyView::Deleted(existed) => Turn::Done(Ok(existed)),
            _ => Turn::Done(Err(SynonymError::Storage)),
        }
    }
}

/// `clear()`: empty the folded region, then the exact region.
pub open spec fn clear_turn(replies: Seq<ReplyView>) -> Turn<()> {
    if replies.len() == 0 {
        Turn::Ask(RequestView::ClearFolded)
    } else if !(replies[0] is Applied) {
        Turn::Done(Err(SynonymError::Storage))
    } else if replies.len() == 1 {
        Turn::Ask(RequestView::ClearExact)
    } else if !(replies[1] is Applied) {
        Turn::Done(Err(SynonymError::Storage))
    } else {
        Turn::Done(Ok(()))
    }
}

/// The folded lookup as a set: read the blob under the folded key. No entry
/// is the empty set; a blob that does not read back is `CorruptData`.
pub open spec fn synonyms_fst_turn(replies: Seq<ReplyView>, word: Seq<char>) -> Turn<Found> {
    if replies.len() == 0 {
        Turn::Ask(RequestView::GetFolded { key: folded_key_of(word) })
    } else {
        match replies[0] {
            ReplyView::Folded(None) => Turn::Done(Ok(Found::Nothing)),
            ReplyView::Folded(Some(blob)) => if readable(blob) {
                Turn::Done(Ok(Found::Blob(blob)))
            } else {
                Turn::Done(Err(SynonymError::CorruptData))
            },
            _ => Turn::Done(Err(SynonymError::Storage)),
        }
    }
}

/// The folded lookup as a list: the words of the set under the folded key,
/// in ascending order. No entry is the empty list; a blob that does not
/// read back as a set of strings is `CorruptData`.
pub open spec fn synonyms_turn(replies: Seq<ReplyView>, word: Seq<char>) -> Turn<Seq<Seq<char>>> {
    if replies.len() == 0 {
        Turn::Ask(RequestView::GetFolded { key: folded_key_of(word) })
    } else {
        match replies[0] {
            ReplyView::Folded(None) => Turn::Done(Ok(Seq::empty())),
            ReplyView::Folded(Some(blob)) => match words_of(blob) {
                Some(list) => Turn::Done(Ok(list)),
                None => Turn::Done(Err(SynonymError::CorruptData)),
            },
            _ => Turn::Done(Err(SynonymError::Storage)),
        }
    }
}

/// The exact lookup: the list stored under the word, as it stands. No entry
/// is the empty list.
pub open spec fn synonyms_unicased_turn(replies: Seq<ReplyView>, word: Seq<char>) -> Turn<Seq<Seq<char>>> {
    if replies.len() == 0 {
        Turn::Ask(RequestView::GetExact { word })
    } else {
        match replies[0] {
            ReplyView::Exact(None) => Turn::Done(Ok(Seq::empty())),
            ReplyView::Exact(Some(list)) => Turn::Done(Ok(list)),
            _ => Turn::Done(Err(SynonymError::Storage)),
        }
    }
}

/// Whether a step of the folded lookup that hands out a set is the step
/// that `turn` describes.
pub open spec fn set_step_is(step: Step<fst::Set<Vec<u8>>>, turn: Turn<Found>) -> bool {
    match step {
        Step::Ask(request) => turn == Turn::<Found>::Ask(request@),
        Step::Done(Err(e)) => turn == Turn::<Found>::Done(Err(e)),
        Step::Done(Ok(set)) => match turn {
            Turn::Done(Ok(Found::Nothing)) => builder_wrote(set_bytes(set)) && listing(
                set_bytes(set),
            ) == Some(Seq::<Seq<char>>::empty()),
            Turn::Done(Ok(Found::Blob(blob))) => builder_wrote(set_bytes(set)) && set_bytes(set)
                == blob,
            _ => false,
        },
    }
}

/// A copy of a list of words.
fn copy_words(list: &Vec<String>) -> (copy: Vec<String>)
    ensures
        copy.deep_view() == list.deep_view(),
{
    let mut copy: Vec<String> = Vec::new();
    let mut i: usize = 0;
    while i < list.len()
        invariant
            i <= list.len(),
            copy.len() == i,
            forall|k: int| 0 <= k < i ==> copy[k]@ == list[k]@,
        decreases list.len() - i,
    {
        copy.push(list[i].clone());
        i = i + 1;
    }
    assert(copy.deep_view() =~= list.deep_view());
    copy
}

impl Synonyms {
    /// A store.
    pub fn new() -> Synonyms {
        Synonyms {}
    }

    /// Stores `synonyms` as the synonyms of `word`: the blob of the set
    /// under the folded key, then the ascending list of its words under
    /// the word itself. Nothing is written of a set that would not read
    /// back; the list is made after the first write, so a set with a key
    /// that is not a string is refused with its blob already written.
    ///
    /// The set must be one that the set builder wrote for a list of words:
    /// the `fst` crate cannot tell, and reading another may panic.
    /// [`Synonyms::put_words`] builds the set itself and asks nothing.
    pub fn put_synonyms(self, replies: &Vec<Reply>, word: &str, synonyms: &fst::Set<Vec<u8>>) -> (step: Step<()>)
        requires
            builder_wrote(set_bytes(*synonyms)),
        ensures
            plain_turn(step) == put_synonyms_turn(
                transcript(replies@),
                word@,
                set_bytes(*synonyms),
            ),
    {
        if replies.len() == 0 {
            match encode(synonyms) {
                Some(blob) => Step::Ask(Request::PutFolded { key: folded_key(word), blob }),
                None => Step::Done(Err(SynonymError::InvalidSet)),
            }
        } else if !replies[0].is_applied() {
            Step::Done(Err(SynonymError::Storage))
        } else if replies.len() == 1 {
            match enumerate(synonyms) {
                Some(list) => Step::Ask(Request::PutExact { word: word.to_owned(), synonyms: list }),
                None => Step::Done(Err(SynonymError::InvalidSet)),
            }
        } else if !replies[1].is_applied() {
            Step::Done(Err(SynonymError::Storage))
        } else {
            Step::Done(Ok(()))
        }
    }

    /// Stores the given words as the synonyms of `word`, as
    /// [`Synonyms::put_synonyms`] stores the set built from them. Words that
    /// do not stand in strictly ascending order are refused with
    /// `InvalidSet`, and nothing is asked of the store.
    pub fn put_words(self, replies: &Vec<Reply>, word: &str, words: &Vec<String>) -> (step: Step<()>)
        ensures
            plain_turn(step) == put_words_turn(transcript(replies@), word@, words.deep_view()),
            step matches Step::Ask(Request::PutExact { synonyms, .. }) ==> synonyms.deep_view()
                == words.deep_view(),
    {
        match build(words) {
            Some(set) => self.put_synonyms(replies, word, &set),
            None => Step::Done(Err(SynonymError::InvalidSet)),
        }
    }

    /// Removes the synonyms of `word` from both regions, the exact one
    /// first. The result says whether the folded region had an entry;
    /// what the exact region reported is not looked at.
    pub fn del_synonyms(self, replies: &Vec<Reply>, word: &str) -> (step: Step<bool>)
        ensures
            plain_turn(step) == del_synonyms_turn(transcript(replies@), word@),
    {
        if replies.len() == 0 {
            Step::Ask(Request::DeleteExact { word: word.to_owned() })
        } else if !replies[0].is_deleted() {
            Step::Done(Err(SynonymError::Storage))
        } else if replies.len() == 1 {
            Step::Ask(Request::DeleteFolded { key: folded_key(word) })
        } else {
            match &replies[1] {
                Reply::Deleted(existed) => Step::Done(Ok(*existed)),
                _ => Step::Done(Err(SynonymError::Storage)),
            }
        }
    }

    /// Empties both regions, the folded one first.
    pub fn clear(self, replies: &Vec<Reply>) -> (step: Step<()>)
        ensures
            plain_turn(step) == clear_turn(transcript(replies@)),
    {
        if replies.len() == 0 {
            Step::Ask(Request::ClearFolded)
        } else if !replies[0].is_applied() {
            Step::Done(Err(SynonymError::Storage))
        } else if replies.len() == 1 {
            Step::Ask(Request::ClearExact)
        } else if !replies[1].is_applied() {
            Step::Done(Err(SynonymError::Storage))
        } else {
            Step::Done(Ok(()))
        }
    }

    /// Looks `word` up by its folded spelling and hands out the set itself,
    /// for callers that want more of it than its list of words. Where the
    /// region has no entry this is the empty set; a blob that does not read
    /// back is `CorruptData`. The set is one that the builder wrote, as
    /// every [`Blob`](crate::codec::Blob) is.
    pub fn synonyms_fst(self, replies: &Vec<Reply>, word: &str) -> (step: Step<fst::Set<Vec<u8>>>)
        ensures
            set_step_is(step, synonyms_fst_turn(transcript(replies@), word@)),
    {
        if replies.len() == 0 {
            Step::Ask(Request::GetFolded { key: folded_key(word) })
        } else {
            match &replies[0] {
                Reply::Folded(None) => Step::Done(Ok(empty_set())),
                Reply::Folded(Some(blob)) => match blob.open() {
                    Ok(set) => Step::Done(Ok(set)),
                    Err(e) => Step::Done(Err(e)),
                },
                _ => Step::Done(Err(SynonymError::Storage)),
            }
        }
    }

    /// Looks `word` up by its exact spelling: the stored list as it stands,
    /// neither sorted again nor stripped of repeats, or the empty list
    /// where the region has no entry.
    pub fn synonyms_unicased(self, replies: &Vec<Reply>, word: &str) -> (step: Step<Vec<String>>)
        ensures
            words_turn(step) == synonyms_unicased_turn(transcript(replies@), word@),
    {
        if replies.len() == 0 {
            Step::Ask(Request::GetExact { word: word.to_owned() })
        } else {
            match &replies[0] {
                Reply::Exact(None) => {
                    let nothing: Vec<String> = Vec::new();
                    assert(nothing.deep_view() =~= Seq::<Seq<char>>::empty());
                    Step::Done(Ok(nothing))
                },
                Reply::Exact(Some(list)) => Step::Done(Ok(copy_words(list))),
                _ => Step::Done(Err(SynonymError::Storage)),
            }
        }
    }

    /// Looks `word` up by its folded spelling: the words of the stored set,
    /// each once and in ascending order, or the empty list where the region
    /// has no entry.
    pub fn synonyms(self, replies: &Vec<Reply>, word: &str) -> (step: Step<Vec<String>>)
        ensures
            words_turn(step) == synonyms_turn(transcript(replies@), word@),
            step matches Step::Done(Ok(list)) ==> ascending(list.deep_view()),
    {
        match self.synonyms_fst(replies, word) {
            Step::Ask(request) => Step::Ask(request),
            Step::Done(Err(e)) => Step::Done(Err(e)),
            Step::Done(Ok(set)) => match list_verified(&set) {
                Some(list) => Step::Done(Ok(list)),
                None => Step::Done(Err(SynonymError::CorruptData)),
            },
        }
    }
}

} // verus!
