//! The ordered-set codec: a set of strings as one blob of bytes.
//!
//! The sets are `fst::Set`s. Verus sees nothing inside one, so the contracts
//! speak of a set through the bytes that hold it, and of those bytes through
//! what the `fst` crate answers when asked about them.
//!
//! The crate opens any bytes with a plausible header and footer, and its
//! checksum only says that the bytes are the ones once written. Walking the
//! nodes of bytes that no builder wrote may panic, and nothing in the crate
//! tests for that. So a set is listed only where it stands over bytes that
//! the builder wrote: [`build`] makes such sets, and a [`Blob`] holds such
//! bytes. What comes out is still tested: the footer against the target,
//! the checksum, and the order of the words.

use vstd::prelude::*;
use vstd::utf8::encode_utf8;

use crate::error::SynonymError;

verus! {

#[verifier::external_type_specification]
#[verifier::external_body]
#[verifier::reject_recursive_types(D)]
pub struct ExSet<D>(fst::Set<D>);

#[verifier::external_type_specification]
#[verifier::external_body]
pub struct ExCodecError(fst::Error);

/// The bytes that hold `set`: what `as_fst().as_bytes()` returns for it.
pub uninterp spec fn set_bytes(set: fst::Set<Vec<u8>>) -> Seq<u8>;

/// Whether `fst::Set::new` accepts `bytes`.
pub uninterp spec fn opens(bytes: Seq<u8>) -> bool;

/// Whether the checksum stored in `bytes` matches their contents: whether
/// `verify` succeeds on a set opened over them.
pub uninterp spec fn checksum_matches(bytes: Seq<u8>) -> bool;

/// What streaming a set opened over `bytes` into strings returns: every key
/// in order, or `None` where a key is not UTF-8.
pub uninterp spec fn listing(bytes: Seq<u8>) -> Option<Seq<Seq<char>>>;

/// The bytes of the set that `fst::Set::from_iter` builds from `words`, given
/// in ascending order, on a target whose `usize` has `width` bits. The
/// builder finds nodes that it has written before through a table indexed by
/// a hash cut to `usize`, so the width can tell in which bytes a large set
/// ends up; nothing else of the machine does.
pub uninterp spec fn built_blob(words: Seq<Seq<char>>, width: u32) -> Seq<u8>;

/// Whether every byte from `from` up to `to` is zero.
pub open spec fn zero_between(bytes: Seq<u8>, from: int, to: int) -> bool {
    forall|i: int| from <= i < to ==> bytes[i] == 0
}

/// Whether the bytes are long enough to hold a header and a footer, and
/// begin with a format version that the `fst` crate reads: 1, 2 or 3, as a
/// 64-bit number, low byte first. Of other bytes it reads no footer.
pub open spec fn format_known(bytes: Seq<u8>) -> bool {
    bytes.len() >= 36 && 1 <= bytes[0] <= 3 && zero_between(bytes, 1, 8)
}

/// Where the footer ends: before the four bytes of the checksum, which the
/// format has from version 3 on.
pub open spec fn footer_end(bytes: Seq<u8>) -> int {
    if bytes[0] <= 2 {
        bytes.len() as int
    } else {
        bytes.len() - 4
    }
}

/// Whether the footer can be read on this target. Its last sixteen bytes
/// are two 64-bit numbers, low byte first: the number of keys and the root
/// address. The `fst` crate turns both into `usize` when it opens a set,
/// and panics where one does not fit; on a 32-bit target that is where the
/// high half of either is not zero.
pub open spec fn fits_target(bytes: Seq<u8>) -> bool {
    usize::BITS == 64 || !format_known(bytes) || (zero_between(
        bytes,
        footer_end(bytes) - 4,
        footer_end(bytes),
    ) && zero_between(bytes, footer_end(bytes) - 12, footer_end(bytes) - 8))
}

/// A blob that reads back: its footer fits this target, it opens, and its
/// checksum matches.
pub open spec fn readable(bytes: Seq<u8>) -> bool {
    fits_target(bytes) && opens(bytes) && checksum_matches(bytes)
}

/// Whether `a` and `b` agree on their first `k` bytes and `a` stands before
/// `b` on account of what follows: `a` ends there and `b` goes on, or the
/// next byte of `a` is the smaller one.
pub open spec fn precedes_at(a: Seq<u8>, b: Seq<u8>, k: int) -> bool {
    &&& 0 <= k <= a.len()
    &&& k < b.len()
    &&& a.subrange(0, k) == b.subrange(0, k)
    &&& k < a.len() ==> a[k] < b[k]
}

/// Strict lexicographic order on byte strings.
pub open spec fn bytes_less(a: Seq<u8>, b: Seq<u8>) -> bool {
    exists|k: int| #[trigger] precedes_at(a, b, k)
}

/// The order of strings: that of their UTF-8 bytes.
pub open spec fn word_less(a: Seq<char>, b: Seq<char>) -> bool {
    bytes_less(encode_utf8(a), encode_utf8(b))
}

/// Strictly ascending: each word stands before every later one.
pub open spec fn ascending(words: Seq<Seq<char>>) -> bool {
    forall|i: int, j: int| 0 <= i < j < words.len() ==> word_less(#[trigger] words[i], #[trigger] words[j])
}

/// Bytes that the set builder wrote for some ascending list of words, on
/// some target. The `fst` crate reads a transducer without testing what the
/// bytes hold, and offers no test that would tell; only bytes of this kind
/// are streamed.
pub open spec fn builder_wrote(bytes: Seq<u8>) -> bool {
    exists|words: Seq<Seq<char>>, width: u32|
        ascending(words) && #[trigger] built_blob(words, width) == bytes
}

/// The words of the set that `bytes` hold, where they read back as a set of
/// strings: every word once, in ascending order.
pub open spec fn words_of(bytes: Seq<u8>) -> Option<Seq<Seq<char>>> {
    if readable(bytes) && listing(bytes) is Some && ascending(listing(bytes).unwrap()) {
        listing(bytes)
    } else {
        None
    }
}

/// Two byte strings that agree on their first `k` bytes agree on each of
/// them.
proof fn lemma_prefix_agrees(a: Seq<u8>, b: Seq<u8>, k: int, j: int)
    requires
        0 <= j < k,
        k <= a.len(),
        k <= b.len(),
        a.subrange(0, k) == b.subrange(0, k),
    ensures
        a[j] == b[j],
{
    assert(a.subrange(0, k)[j] == a[j]);
    assert(b.subrange(0, k)[j] == b[j]);
}

/// No byte string stands before itself.
pub proof fn lemma_bytes_less_irreflexive(a: Seq<u8>)
    ensures
        !bytes_less(a, a),
{
}

/// The order of byte strings is transitive.
pub proof fn lemma_bytes_less_transitive(a: Seq<u8>, b: Seq<u8>, c: Seq<u8>)
    requires
        bytes_less(a, b),
        bytes_less(b, c),
    ensures
        bytes_less(a, c),
{
    let k1 = choose|k: int| precedes_at(a, b, k);
    let k2 = choose|k: int| precedes_at(b, c, k);
    let k = if k1 <= k2 { k1 } else { k2 };
    assert forall|j: int| 0 <= j < k implies a[j] == c[j] by {
        lemma_prefix_agrees(a, b, k1, j);
        lemma_prefix_agrees(b, c, k2, j);
    }
    assert(a.subrange(0, k) =~= c.subrange(0, k));
    if k1 < k2 {
        lemma_prefix_agrees(b, c, k2, k1);
    } else if k2 < k1 {
        lemma_prefix_agrees(a, b, k1, k2);
    }
    assert(precedes_at(a, c, k));
}

/// Where two byte strings first differ, the smaller byte decides.
proof fn lemma_first_difference(a: Seq<u8>, b: Seq<u8>, i: int)
    requires
        0 <= i < a.len(),
        i < b.len(),
        forall|j: int| 0 <= j < i ==> a[j] == b[j],
        a[i] != b[i],
    ensures
        bytes_less(a, b) == (a[i] < b[i]),
{
    if a[i] < b[i] {
        assert(a.subrange(0, i) =~= b.subrange(0, i));
        assert(precedes_at(a, b, i));
    } else if bytes_less(a, b) {
        let k = choose|k: int| precedes_at(a, b, k);
        if k > i {
            lemma_prefix_agrees(a, b, k, i);
        }
        assert(false);
    }
}

/// Where one byte string is the start of the other, the shorter one stands
/// first.
proof fn lemma_common_prefix(a: Seq<u8>, b: Seq<u8>, i: int)
    requires
        0 <= i <= a.len(),
        i <= b.len(),
        i == a.len() || i == b.len(),
        forall|j: int| 0 <= j < i ==> a[j] == b[j],
    ensures
        bytes_less(a, b) == (a.len() < b.len()),
{
    if a.len() < b.len() {
        assert(a.subrange(0, i) =~= b.subrange(0, i));
        assert(precedes_at(a, b, i));
    } else if bytes_less(a, b) {
        let k = choose|k: int| precedes_at(a, b, k);
        assert(false);
    }
}

/// A strictly ascending list holds no word twice.
pub proof fn lemma_ascending_distinct(words: Seq<Seq<char>>, i: int, j: int)
    requires
        ascending(words),
        0 <= i < words.len(),
        0 <= j < words.len(),
        i != j,
    ensures
        words[i] != words[j],
{
    lemma_bytes_less_irreflexive(encode_utf8(words[i]));
    if i < j {
        assert(word_less(words[i], words[j]));
    } else {
        assert(word_less(words[j], words[i]));
    }
}

/// Calls `as_fst().as_bytes()`. A set only ever comes out of
/// `fst::Set::new` on its own bytes (the builders end in that call too), so
/// the bytes are claimed to open.
#[verifier::external_body]
fn set_as_bytes(set: &fst::Set<Vec<u8>>) -> (bytes: &[u8])
    ensures
        bytes@ == set_bytes(*set),
        opens(bytes@),
{
    set.as_fst().as_bytes()
}

/// Calls `fst::Set::new`. It reads the header and the footer only: success
/// is named by [`opens`], and a set that comes back holds exactly the bytes
/// given. Where `usize` is narrower than 64 bits the call panics on a footer
/// number that does not fit, hence the `requires`.
#[verifier::external_body]
fn open_set(bytes: Vec<u8>) -> (opened: Result<fst::Set<Vec<u8>>, fst::Error>)
    requires
        fits_target(bytes@),
    ensures
        opened is Ok <==> opens(bytes@),
        opened matches Ok(set) ==> set_bytes(set) == bytes@,
{
    fst::Set::new(bytes)
}

/// Calls `as_fst().verify()`, which recomputes the checksum over the set's
/// bytes: success is named by [`checksum_matches`].
#[verifier::external_body]
fn verify_set(set: &fst::Set<Vec<u8>>) -> (verified: Result<(), fst::Error>)
    ensures
        verified is Ok <==> checksum_matches(set_bytes(*set)),
{
    set.as_fst().verify()
}

/// Calls `fst::Set::from_iter` on the words. With the words in ascending
/// order the builder refuses nothing, and writing into memory cannot fail,
/// so a set is owed. Its bytes are named by [`built_blob`]; it holds the
/// words given and nothing else, so streaming it lists them.
#[verifier::external_body]
fn build_set(words: &Vec<String>) -> (built: Result<fst::Set<Vec<u8>>, fst::Error>)
    requires
        ascending(words.deep_view()),
    ensures
        built is Ok,
        built matches Ok(set) ==> set_bytes(set) == built_blob(words.deep_view(), usize::BITS),
        built matches Ok(set) ==> listing(set_bytes(set)) == Some(words.deep_view()),
{
    fst::Set::from_iter(words)
}

/// Calls `stream().into_strs()`. The crate walks the nodes of a transducer
/// without testing what the bytes hold: on bytes that no builder wrote it
/// may panic or list keys out of order, and neither opening nor the
/// checksum rules that out. So only a set over bytes that the builder wrote
/// is admitted. The call fails where a key is not UTF-8.
#[verifier::external_body]
fn set_into_strs(set: &fst::Set<Vec<u8>>) -> (listed: Result<Vec<String>, fst::Error>)
    requires
        builder_wrote(set_bytes(*set)),
    ensures
        match listed {
            Ok(words) => listing(set_bytes(*set)) == Some(words.deep_view()),
            Err(_) => listing(set_bytes(*set)) is None,
        },
{
    set.stream().into_strs()
}

/// Calls `fst::Set::default()`, which is `from_iter` on no key at all: the
/// set that the builder writes for the empty list, and it lists nothing.
#[verifier::external_body]
pub(crate) fn empty_set() -> (set: fst::Set<Vec<u8>>)
    ensures
        set_bytes(set) == built_blob(Seq::<Seq<char>>::empty(), usize::BITS),
        listing(set_bytes(set)) == Some(Seq::<Seq<char>>::empty()),
{
    fst::Set::default()
}

/// Whether `a` stands before `b`.
pub fn bytes_lt(a: &[u8], b: &[u8]) -> (less: bool)
    ensures
        less == bytes_less(a@, b@),
{
    let mut i: usize = 0;
    while i < a.len() && i < b.len()
        invariant
            i <= a.len(),
            i <= b.len(),
            forall|j: int| 0 <= j < i ==> a@[j] == b@[j],
        decreases a.len() - i,
    {
        if a[i] != b[i] {
            proof {
                lemma_first_difference(a@, b@, i as int);
            }
            return a[i] < b[i];
        }
        i = i + 1;
    }
    proof {
        lemma_common_prefix(a@, b@, i as int);
    }
    a.len() < b.len()
}

/// Whether the words are strictly ascending: each before the next, and so
/// before every later one.
pub fn is_ascending(words: &Vec<String>) -> (sorted: bool)
    ensures
        sorted == ascending(words.deep_view()),
{
    if words.len() < 2 {
        return true;
    }
    let mut i: usize = 1;
    while i < words.len()
        invariant
            1 <= i <= words.len(),
            forall|p: int, q: int|
                0 <= p < q < i ==> word_less(
                    #[trigger] words.deep_view()[p],
                    #[trigger] words.deep_view()[q],
                ),
        decreases words.len() - i,
    {
        let earlier = words[i - 1].as_str().as_bytes();
        let later = words[i].as_str().as_bytes();
        if !bytes_lt(earlier, later) {
            assert(!word_less(words.deep_view()[i - 1], words.deep_view()[i as int]));
            return false;
        }
        proof {
            let list = words.deep_view();
            assert forall|p: int| 0 <= p < i implies word_less(
                #[trigger] list[p],
                list[i as int],
            ) by {
                if p < i - 1 {
                    assert(word_less(list[p], list[i - 1]));
                    lemma_bytes_less_transitive(
                        encode_utf8(list[p]),
                        encode_utf8(list[i - 1]),
                        encode_utf8(list[i as int]),
                    );
                }
            }
        }
        i = i + 1;
    }
    true
}

/// The set of the given words, or `None` where they are not in strictly
/// ascending order.
pub fn build(words: &Vec<String>) -> (built: Option<fst::Set<Vec<u8>>>)
    ensures
        built is Some <==> ascending(words.deep_view()),
        built matches Some(set) ==> set_bytes(set) == built_blob(words.deep_view(), usize::BITS),
        built matches Some(set) ==> listing(set_bytes(set)) == Some(words.deep_view()),
{
    if !is_ascending(words) {
        return None;
    }
    match build_set(words) {
        Ok(set) => Some(set),
        Err(_) => None,
    }
}

/// A blob of the folded region: bytes that the set builder wrote. Verified
/// code makes one only from a set of that kind; bytes read from a store are
/// taken on the caller's word, through [`Blob::stored`].
#[derive(Debug, PartialEq, Eq)]
pub struct Blob {
    bytes: Vec<u8>,
}

impl Clone for Blob {
    fn clone(&self) -> (copy: Blob)
        ensures
            copy@ == self@,
    {
        proof {
            use_type_invariant(self);
        }
        Blob { bytes: vstd::slice::slice_to_vec(self.bytes.as_slice()) }
    }
}

impl View for Blob {
    type V = Seq<u8>;

    closed spec fn view(&self) -> Seq<u8> {
        self.bytes@
    }
}

impl Blob {
    #[verifier::type_invariant]
    spec fn written_by_builder(self) -> bool {
        builder_wrote(self.bytes@)
    }

    /// The blob that `bytes` are. The folded region is written through this
    /// library alone; whoever reads bytes back from it vouches for that
    /// here. Bytes from elsewhere are the caller's risk: reading them may
    /// panic.
    pub fn stored(bytes: Vec<u8>) -> (blob: Blob)
        requires
            builder_wrote(bytes@),
        ensures
            blob@ == bytes@,
    {
        Blob { bytes }
    }

    /// The bytes to store.
    pub fn as_bytes(&self) -> (bytes: &[u8])
        ensures
            bytes@ == self@,
    {
        self.bytes.as_slice()
    }

    /// The set that the blob holds, or `CorruptData` where it does not read
    /// back.
    pub fn open(&self) -> (opened: Result<fst::Set<Vec<u8>>, SynonymError>)
        ensures
            match opened {
                Ok(set) => set_bytes(set) == self@ && readable(self@) && builder_wrote(
                    set_bytes(set),
                ),
                Err(e) => e == SynonymError::CorruptData && !readable(self@),
            },
    {
        proof {
            use_type_invariant(self);
        }
        decode(self.bytes.as_slice())
    }
}


/// Whether every byte from `from` up to `to` is zero.
fn zeros(bytes: &[u8], from: usize, to: usize) -> (all: bool)
    requires
        from <= to <= bytes.len(),
    ensures
        all == zero_between(bytes@, from as int, to as int),
{
    let mut i: usize = from;
    while i < to
        invariant
            from <= i <= to,
            to <= bytes.len(),
            zero_between(bytes@, from as int, i as int),
        decreases to - i,
    {
        if bytes[i] != 0 {
            return false;
        }
        i = i + 1;
    }
    true
}

/// Whether the footer of the bytes can be read on this target.
pub fn fits(bytes: &[u8]) -> (fitting: bool)
    ensures
        fitting == fits_target(bytes@),
{
    if usize::BITS == 64 {
        return true;
    }
    let n = bytes.len();
    if n < 36 || bytes[0] < 1 || bytes[0] > 3 || !zeros(bytes, 1, 8) {
        return true;
    }
    let end = if bytes[0] <= 2 {
        n
    } else {
        n - 4
    };
    zeros(bytes, end - 4, end) && zeros(bytes, end - 12, end - 8)
}

/// Whether the bytes of `set` read back: whether a lookup will accept them
/// once they are stored.
pub fn is_sound(set: &fst::Set<Vec<u8>>) -> (sound: bool)
    ensures
        sound == readable(set_bytes(*set)),
{
    // Every set opens over its own bytes: reading them says so.
    let bytes = set_as_bytes(set);
    if !fits(bytes) {
        return false;
    }
    match verify_set(set) {
        Ok(_) => true,
        Err(_) => false,
    }
}

/// The blob that stores a set that the builder wrote, or `None` where it
/// would not read back.
pub fn encode(set: &fst::Set<Vec<u8>>) -> (blob: Option<Blob>)
    requires
        builder_wrote(set_bytes(*set)),
    ensures
        match blob {
            Some(stored) => stored@ == set_bytes(*set) && readable(stored@),
            None => !readable(set_bytes(*set)),
        },
{
    if is_sound(set) {
        Some(Blob::stored(vstd::slice::slice_to_vec(set_as_bytes(set))))
    } else {
        None
    }
}

/// The set that `bytes` store, or `CorruptData` where they do not read back.
pub fn decode(bytes: &[u8]) -> (decoded: Result<fst::Set<Vec<u8>>, SynonymError>)
    ensures
        match decoded {
            Ok(set) => set_bytes(set) == bytes@ && readable(bytes@),
            Err(e) => e == SynonymError::CorruptData && !readable(bytes@),
        },
{
    if !fits(bytes) {
        return Err(SynonymError::CorruptData);
    }
    match open_set(vstd::slice::slice_to_vec(bytes)) {
        Ok(set) => match verify_set(&set) {
            Ok(_) => Ok(set),
            Err(_) => Err(SynonymError::CorruptData),
        },
        Err(_) => Err(SynonymError::CorruptData),
    }
}

/// The words of a set that the builder wrote, or `None` where a key is not
/// a string or the words do not come out in strictly ascending order.
pub(crate) fn list_verified(set: &fst::Set<Vec<u8>>) -> (words: Option<Vec<String>>)
    requires
        builder_wrote(set_bytes(*set)),
    ensures
        match words {
            Some(list) => listing(set_bytes(*set)) == Some(list.deep_view()) && ascending(
                list.deep_view(),
            ),
            None => listing(set_bytes(*set)) is None || !ascending(
                listing(set_bytes(*set)).unwrap(),
            ),
        },
{
    match set_into_strs(set) {
        Ok(list) => if is_ascending(&list) {
            Some(list)
        } else {
            None
        },
        Err(_) => None,
    }
}

/// The words of a set that the builder wrote, each once and in ascending
/// order, or `None` where the set does not read back as a set of strings.
pub fn enumerate(set: &fst::Set<Vec<u8>>) -> (words: Option<Vec<String>>)
    requires
        builder_wrote(set_bytes(*set)),
    ensures
        match words {
            Some(list) => words_of(set_bytes(*set)) == Some(list.deep_view()),
            None => words_of(set_bytes(*set)) is None,
        },
{
    if is_sound(set) {
        list_verified(set)
    } else {
        None
    }
}

} // verus!
