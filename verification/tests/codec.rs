use synonym_store::codec::{build, bytes_lt, decode, encode, enumerate, fits, is_ascending, is_sound, Blob};
use synonym_store::error::SynonymError;
use synonym_store::fold::folded_key;

#[test]
fn folded_key_strips_accents() {
    assert_eq!(folded_key("café"), b"cafe".to_vec());
    assert_eq!(folded_key("Æneid"), b"AEneid".to_vec());
    assert_eq!(folded_key("étude"), b"etude".to_vec());
}

#[test]
fn folded_key_keeps_ascii_as_it_is() {
    assert_eq!(folded_key("cafe"), b"cafe".to_vec());
    assert_eq!(folded_key("Hello, World!"), b"Hello, World!".to_vec());
    assert_eq!(folded_key(""), Vec::<u8>::new());
}

#[test]
fn folded_key_transliterates_other_scripts() {
    assert_eq!(folded_key("北亰"), b"Bei Jing".to_vec());
    assert_eq!(folded_key("…"), b"...".to_vec());
}

#[test]
fn folding_a_folded_key_changes_nothing() {
    for word in ["café", "Ünïcode", "北亰", "plain"] {
        let once = folded_key(word);
        let again = folded_key(std::str::from_utf8(&once).unwrap());
        assert_eq!(once, again);
    }
}

#[test]
fn encode_gives_the_bytes_of_the_set() {
    let set = fst::Set::from_iter(vec!["a", "b", "c"]).unwrap();
    let blob = encode(&set).unwrap();
    assert_eq!(blob.as_bytes(), set.as_fst().as_bytes());
    assert_eq!(blob, Blob::stored(set.as_fst().as_bytes().to_vec()));
    assert_eq!(blob.clone(), blob);
}

// Some tests below hand the codec bytes and sets that no builder wrote for a
// list of words, which its contracts leave to the caller: they show what it
// refuses all the same.
#[test]
fn encode_refuses_a_set_whose_checksum_does_not_match() {
    let mut bytes = fst::Set::from_iter(vec!["a", "b"]).unwrap().as_fst().as_bytes().to_vec();
    let last = bytes.len() - 1;
    bytes[last] ^= 0xff;
    let tampered = fst::Set::new(bytes).unwrap();
    assert!(encode(&tampered).is_none());
    assert_eq!(enumerate(&tampered), None);
}

#[test]
fn decode_reads_back_what_encode_wrote() {
    let set = fst::Set::from_iter(vec!["greetings", "hi"]).unwrap();
    let blob = encode(&set).unwrap();
    let back = decode(blob.as_bytes()).unwrap();
    assert_eq!(back.as_fst().as_bytes(), blob.as_bytes());
    assert_eq!(enumerate(&back), Some(vec!["greetings".to_string(), "hi".to_string()]));
    let opened = blob.open().unwrap();
    assert_eq!(opened.as_fst().as_bytes(), blob.as_bytes());
}

#[test]
fn decode_refuses_bytes_that_are_no_set() {
    assert!(matches!(decode(&Vec::new()), Err(SynonymError::CorruptData)));
    assert!(matches!(decode(&vec![0u8; 35]), Err(SynonymError::CorruptData)));
    assert!(matches!(decode(&vec![0xffu8; 48]), Err(SynonymError::CorruptData)));
    assert!(matches!(decode(&b"not a transducer, however long it may be".to_vec()), Err(SynonymError::CorruptData)));
}

#[test]
fn decode_refuses_a_blob_with_a_flipped_bit() {
    let blob = encode(&fst::Set::from_iter(vec!["greetings", "hi"]).unwrap()).unwrap();
    let blob = blob.as_bytes().to_vec();
    for at in [16, blob.len() / 2, blob.len() - 1] {
        let mut damaged = blob.clone();
        damaged[at] ^= 0x10;
        assert!(matches!(decode(&damaged), Err(SynonymError::CorruptData)));
    }
}

#[test]
fn enumerate_lists_in_ascending_order_without_repeats() {
    let set = fst::Set::from_iter(vec!["a", "ab", "b", "ba", "é"]).unwrap();
    let words = enumerate(&set).unwrap();
    assert_eq!(words, vec!["a", "ab", "b", "ba", "é"]);
    for pair in words.windows(2) {
        assert!(pair[0].as_bytes() < pair[1].as_bytes());
    }
}

#[test]
fn enumerate_refuses_a_key_that_is_no_string() {
    let set = fst::Set::from_iter(vec![vec![0x80u8]]).unwrap();
    assert_eq!(enumerate(&set), None);
    assert!(encode(&set).is_some());
}

#[test]
fn the_empty_set_lists_nothing() {
    let set = fst::Set::default();
    assert_eq!(enumerate(&set), Some(Vec::new()));
    let blob = encode(&set).unwrap();
    assert!(decode(blob.as_bytes()).unwrap().is_empty());
    assert!(blob.open().unwrap().is_empty());
}

#[test]
fn build_makes_the_set_of_the_words() {
    let words = vec!["greetings".to_string(), "hi".to_string()];
    let set = build(&words).unwrap();
    assert_eq!(set.len(), 2);
    assert!(set.contains("hi"));
    assert!(set.contains("greetings"));
    assert_eq!(set.as_fst().as_bytes(), fst::Set::from_iter(vec!["greetings", "hi"]).unwrap().as_fst().as_bytes());
    assert_eq!(enumerate(&set), Some(words));
    assert!(build(&Vec::new()).unwrap().is_empty());
}

#[test]
fn build_refuses_words_that_are_not_strictly_ascending() {
    assert!(build(&vec!["hi".to_string(), "greetings".to_string()]).is_none());
    assert!(build(&vec!["a".to_string(), "a".to_string()]).is_none());
    assert!(build(&vec!["a".to_string(), "b".to_string(), "ab".to_string()]).is_none());
}

#[test]
fn bytes_lt_is_the_lexicographic_order() {
    assert!(bytes_lt(b"", b"a"));
    assert!(bytes_lt(b"a", b"ab"));
    assert!(bytes_lt(b"ab", b"b"));
    assert!(bytes_lt(b"abc", b"abd"));
    assert!(bytes_lt(&[0x7f], &[0x80]));
    assert!(!bytes_lt(b"", b""));
    assert!(!bytes_lt(b"a", b"a"));
    assert!(!bytes_lt(b"ab", b"a"));
    assert!(!bytes_lt(b"b", b"ab"));
    assert!(!bytes_lt(b"abd", b"abc"));
    for (a, b) in [("a", "b"), ("b", "a"), ("é", "z"), ("z", "é"), ("", "x"), ("same", "same")] {
        assert_eq!(bytes_lt(a.as_bytes(), b.as_bytes()), a < b);
    }
}

#[test]
fn is_ascending_asks_for_strict_order() {
    let list = |words: &[&str]| words.iter().map(|w| w.to_string()).collect::<Vec<String>>();
    assert!(is_ascending(&list(&[])));
    assert!(is_ascending(&list(&["only"])));
    assert!(is_ascending(&list(&["a", "ab", "b", "é"])));
    assert!(!is_ascending(&list(&["b", "a"])));
    assert!(!is_ascending(&list(&["a", "a"])));
    assert!(!is_ascending(&list(&["a", "c", "b"])));
    assert!(!is_ascending(&list(&["a", "b", "c", "c"])));
}

#[test]
fn a_built_set_is_sound_and_a_tampered_one_is_not() {
    let set = fst::Set::from_iter(vec!["a", "b"]).unwrap();
    assert!(is_sound(&set));
    let mut bytes = set.as_fst().as_bytes().to_vec();
    bytes[17] ^= 0x01;
    assert!(!is_sound(&fst::Set::new(bytes).unwrap()));
}

#[test]
fn the_footer_fits_where_usize_has_64_bits() {
    if usize::BITS == 64 {
        assert!(fits(&[]));
        assert!(fits(&[0xffu8; 64]));
        let mut wide = vec![0u8; 36];
        wide[0] = 3;
        wide[31] = 0xff;
        assert!(fits(&wide));
    }
    let blob = encode(&fst::Set::from_iter(vec!["a", "b"]).unwrap()).unwrap();
    assert!(fits(blob.as_bytes()));
}
