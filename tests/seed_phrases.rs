use namada_bridge::mnemonic::{check_phrase, is_english_word, generate_seed_phrase, generate_seed_phrase_24, seed_phrase_from};

fn assert_phrase(p: &str, n: usize) {
    let words: Vec<&str> = p.split(' ').collect();
    assert_eq!(words.len(), n, "phrase {:?}", p);
    for w in words {
        assert!(w.len() >= 3 && w.len() <= 8, "word {:?}", w);
        assert!(w.chars().all(|c| c.is_ascii_lowercase()), "word {:?}", w);
        assert!(is_english_word(w), "word {:?}", w);
    }
}

#[test]
fn twelve_word_phrase() {
    let p = generate_seed_phrase();
    assert_phrase(&p, 12);
    assert!(check_phrase(&p).is_ok());
}

#[test]
fn twenty_four_word_phrase() {
    let p = generate_seed_phrase_24();
    assert_phrase(&p, 24);
    assert!(check_phrase(&p).is_ok());
}

#[test]
fn phrases_differ_between_calls() {
    assert_ne!(generate_seed_phrase(), generate_seed_phrase());
}

#[test]
fn failed_draw_gives_fallback_text() {
    assert_eq!(seed_phrase_from(None), "Failed to generate seed phrase");
}

#[test]
fn draw_of_other_length_gives_fallback_text() {
    assert_eq!(seed_phrase_from(Some(vec![0u8; 20])), "Failed to generate seed phrase");
    assert_eq!(seed_phrase_from(Some(Vec::new())), "Failed to generate seed phrase");
}

#[test]
fn known_entropy_gives_known_phrase() {
    let entropy = vec![
        0x33, 0xE4, 0x6B, 0xB1, 0x3A, 0x74, 0x6E, 0xA4, 0x1C, 0xDD, 0xE4, 0x5C, 0x90, 0x84, 0x6A, 0x79,
    ];
    let p = seed_phrase_from(Some(entropy));
    assert_eq!(p, "crop cash unable insane eight faith inflict route frame loud box vibrant");
    assert!(check_phrase(&p).is_ok());
}

#[test]
fn thirty_two_bytes_give_twenty_four_words() {
    let p = seed_phrase_from(Some(vec![0u8; 32]));
    assert_phrase(&p, 24);
    assert!(check_phrase(&p).is_ok());
    assert!(p.starts_with("abandon abandon"));
}

#[test]
fn known_phrase_is_accepted() {
    let p = "park remain person kitchen mule spell knee armed position rail grid ankle";
    assert!(check_phrase(p).is_ok());
}

#[test]
fn unknown_words_are_rejected() {
    let e = check_phrase("not a real mnemonic phrase").err().unwrap();
    assert_eq!(e, "InvalidWord(0)");
}

#[test]
fn bad_checksum_is_rejected() {
    let p = "park remain person kitchen mule spell knee armed position rail grid abandon";
    assert_eq!(check_phrase(p).err().unwrap(), "InvalidChecksum");
}

#[test]
fn english_word_lookup() {
    assert!(is_english_word("abandon"));
    assert!(is_english_word("zoo"));
    assert!(is_english_word("park"));
    assert!(!is_english_word("not"));
    assert!(!is_english_word("Park"));
    assert!(!is_english_word(""));
}
