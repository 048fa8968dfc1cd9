//! The conversation with the transactional store.
//!
//! The store keeps two regions: the folded region maps a folded key to the
//! blob of a set, the exact region maps a word to its list of synonyms. An
//! operation of the library never reaches the store itself. It names the
//! next [`Request`]; whoever holds the transaction carries it out and hands
//! back the [`Reply`].

use vstd::prelude::*;

use crate::codec::Blob;
use crate::error::SynonymError;

verus! {

/// One thing the store is asked to do, inside the caller's transaction.
#[derive(Clone, Debug, PartialEq, Eq)]
pub enum Request {
    /// Store `blob` under `key` in the folded region, over any earlier value.
    PutFolded { key: Vec<u8>, blob: Blob },
    /// Store `synonyms` under `word` in the exact region, over any earlier value.
    PutExact { word: String, synonyms: Vec<String> },
    /// Remove the entry of `word` from the exact region.
    DeleteExact { word: String },
    /// Remove the entry of `key` from the folded region.
    DeleteFolded { key: Vec<u8> },
    /// Remove every entry of the folded region.
    ClearFolded,
    /// Remove every entry of the exact region.
    ClearExact,
    /// Read the blob under `key` in the folded region.
    GetFolded { key: Vec<u8> },
    /// Read the list under `word` in the exact region.
    GetExact { word: String },
}

/// What the store answered.
#[derive(Clone, Debug, PartialEq, Eq)]
pub enum Reply {
    /// A put or a clear was carried out.
    Applied,
    /// A delete was carried out; the flag says whether there was an entry.
    Deleted(bool),
    /// What the folded region holds under the key.
    Folded(Option<Blob>),
    /// What the exact region holds under the word.
    Exact(Option<Vec<String>>),
    /// The store failed.
    Failed,
}

/// Where an operation stands after the replies it has seen.
#[derive(Debug)]
pub enum Step<T> {
    /// The store is to carry this out next.
    Ask(Request),
    /// The operation is over, with this result.
    Done(Result<T, SynonymError>),
}

/// A request as plain values.
pub enum RequestView {
    PutFolded { key: Seq<u8>, blob: Seq<u8> },
    PutExact { word: Seq<char>, synonyms: Seq<Seq<char>> },
    DeleteExact { word: Seq<char> },
    DeleteFolded { key: Seq<u8> },
    ClearFolded,
    ClearExact,
    GetFolded { key: Seq<u8> },
    GetExact { word: Seq<char> },
}

/// A reply as plain values.
pub enum ReplyView {
    Applied,
    Deleted(bool),
    Folded(Option<Seq<u8>>),
    Exact(Option<Seq<Seq<char>>>),
    Failed,
}

/// A step as plain values; `T` stands for the result.
pub enum Turn<T> {
    Ask(RequestView),
    Done(Result<T, SynonymError>),
}

impl View for Request {
    type V = RequestView;

    open spec fn view(&self) -> RequestView {
        match *self {
            Request::PutFolded { key, blob } => RequestView::PutFolded { key: key@, blob: blob@ },
            Request::PutExact { word, synonyms } => RequestView::PutExact {
                word: word@,
                synonyms: synonyms.deep_view(),
            },
            Request::DeleteExact { word } => RequestView::DeleteExact { word: word@ },
            Request::DeleteFolded { key } => RequestView::DeleteFolded { key: key@ },
            Request::ClearFolded => RequestView::ClearFolded,
            Request::ClearExact => RequestView::ClearExact,
            Request::GetFolded { key } => RequestView::GetFolded { key: key@ },
            Request::GetExact { word } => RequestView::GetExact { word: word@ },
        }
    }
}

impl View for Reply {
    type V = ReplyView;

    open spec fn view(&self) -> ReplyView {
        match *self {
            Reply::Applied => ReplyView::Applied,
            Reply::Deleted(existed) => ReplyView::Deleted(existed),
            Reply::Folded(None) => ReplyView::Folded(None),
            Reply::Folded(Some(blob)) => ReplyView::Folded(Some(blob@)),
            Reply::Exact(None) => ReplyView::Exact(None),
            Reply::Exact(Some(list)) => ReplyView::Exact(Some(list.deep_view())),
            Reply::Failed => ReplyView::Failed,
        }
    }
}

impl Reply {
    /// Whether the store reports a put or a clear as carried out.
    pub fn is_applied(&self) -> (applied: bool)
        ensures
            applied == (self@ is Applied),
    {
        match self {
            Reply::Applied => true,
            _ => false,
        }
    }

    /// Whether the store reports a delete as carried out.
    pub fn is_deleted(&self) -> (deleted: bool)
        ensures
            deleted == (self@ is Deleted),
    {
        match self {
            Reply::Deleted(_) => true,
            _ => false,
        }
    }
}

/// A step whose result is a plain value, as plain values.
pub open spec fn plain_turn<T>(step: Step<T>) -> Turn<T> {
    match step {
        Step::Ask(request) => Turn::Ask(request@),
        Step::Done(result) => Turn::Done(result),
    }
}

/// A step whose result is a list of words, as plain values.
pub open spec fn words_turn(step: Step<Vec<String>>) -> Turn<Seq<Seq<char>>> {
    match step {
        Step::Ask(request) => Turn::Ask(request@),
        Step::Done(Ok(words)) => Turn::Done(Ok(words.deep_view())),
        Step::Done(Err(e)) => Turn::Done(Err(e)),
    }
}

/// The replies seen so far, as plain values.
pub open spec fn transcript(replies: Seq<Reply>) -> Seq<ReplyView> {
    replies.map_values(|reply: Reply| reply@)
}

/// The two regions as a transaction sees them.
#[verifier::ext_equal]
pub struct Regions {
    /// Folded key to blob.
    pub folded: Map<Seq<u8>, Seq<u8>>,
    /// Word to its list of synonyms.
    pub exact: Map<Seq<char>, Seq<Seq<char>>>,
}

impl Regions {
    /// Two regions without an entry.
    pub open spec fn empty() -> Regions {
        Regions { folded: Map::empty(), exact: Map::empty() }
    }

    /// What a read of the folded region returns.
    pub open spec fn get_folded(self, key: Seq<u8>) -> Option<Seq<u8>> {
        if self.folded.contains_key(key) {
            Some(self.folded[key])
        } else {
            None
        }
    }

    /// What a read of the exact region returns.
    pub open spec fn get_exact(self, word: Seq<char>) -> Option<Seq<Seq<char>>> {
        if self.exact.contains_key(word) {
            Some(self.exact[word])
        } else {
            None
        }
    }
}

impl RequestView {
    /// The regions after a store that does not fail has carried out the
    /// request.
    pub open spec fn effect(self, regions: Regions) -> Regions {
        match self {
            RequestView::PutFolded { key, blob } => Regions {
                folded: regions.folded.insert(key, blob),
                ..regions
            },
            RequestView::PutExact { word, synonyms } => Regions {
                exact: regions.exact.insert(word, synonyms),
                ..regions
            },
            RequestView::DeleteExact { word } => Regions {
                exact: regions.exact.remove(word),
                ..regions
            },
            RequestView::DeleteFolded { key } => Regions {
                folded: regions.folded.remove(key),
                ..regions
            },
            RequestView::ClearFolded => Regions { folded: Map::empty(), ..regions },
            RequestView::ClearExact => Regions { exact: Map::empty(), ..regions },
            RequestView::GetFolded { .. } => regions,
            RequestView::GetExact { .. } => regions,
        }
    }

    /// What a store that does not fail answers, given the regions before
    /// the request.
    pub open spec fn answer(self, regions: Regions) -> ReplyView {
        match self {
            RequestView::PutFolded { .. } => ReplyView::Applied,
            RequestView::PutExact { .. } => ReplyView::Applied,
            RequestView::DeleteExact { word } => ReplyView::Deleted(
                regions.exact.contains_key(word),
            ),
            RequestView::DeleteFolded { key } => ReplyView::Deleted(
                regions.folded.contains_key(key),
            ),
            RequestView::ClearFolded => ReplyView::Applied,
            RequestView::ClearExact => ReplyView::Applied,
            RequestView::GetFolded { key } => ReplyView::Folded(regions.get_folded(key)),
            RequestView::GetExact { word } => ReplyView::Exact(regions.get_exact(word)),
        }
    }
}

} // verus!
