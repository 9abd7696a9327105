use phase1_coordinator::io::{
    check_mnemonic, check_mnemonic_answer, draw_check_indices, generate_keypair, has_alpha_char,
    is_valid_mnemonic_phrase, keypair_from_seed, trim_line, validate_reply, IOError,
    InputValidator, Mnemonic,
};

fn phrase_24() -> String {
    let mut words = vec!["abandon"; 23];
    words.push("art");
    words.join(" ")
}

fn phrase_24_ff() -> String {
    let mut words = vec!["zoo"; 23];
    words.push("vote");
    words.join(" ")
}

#[test]
fn valid_24_word_shape_is_accepted() {
    assert!(is_valid_mnemonic_phrase(&phrase_24()));
    assert!(is_valid_mnemonic_phrase("a b c d e f g h i j k l m n o p q r s t u v w x"));
}

#[test]
fn twenty_three_word_phrase_is_rejected() {
    let words = vec!["abandon"; 23];
    let phrase = words.join(" ");
    assert!(!is_valid_mnemonic_phrase(&phrase));
    // The prompt loop re-asks exactly while the validator keeps rejecting.
    assert!(validate_reply(&phrase, &InputValidator::MnemonicPhrase).is_none());
    let conforming = phrase_24();
    assert_eq!(
        validate_reply(&conforming, &InputValidator::MnemonicPhrase),
        Some(conforming.clone())
    );
}

#[test]
fn phrase_shape_details() {
    assert!(!is_valid_mnemonic_phrase(""));
    // Double separator.
    assert!(!is_valid_mnemonic_phrase(
        "a  b c d e f g h i j k l m n o p q r s t u v w x"
    ));
    // Non-alphabetic token.
    assert!(!is_valid_mnemonic_phrase(
        "a b c d e f g h i j k l m n o p q r s t u v w 9"
    ));
    // Trailing separator.
    let mut p = phrase_24();
    p.push(' ');
    assert!(!is_valid_mnemonic_phrase(&p));
    // 25 words.
    let mut q = phrase_24();
    q.push_str(" abandon");
    assert!(!is_valid_mnemonic_phrase(&q));
}

#[test]
fn replies_are_trimmed_before_matching() {
    assert_eq!(trim_line("  hello \t\r\n"), "hello".to_string());
    assert_eq!(trim_line("   "), "".to_string());
    assert_eq!(trim_line("x"), "x".to_string());
    // Unicode whitespace is trimmed too: no-break and ideographic spaces.
    assert_eq!(trim_line("\u{a0}word\u{3000}\u{2009}"), "word".to_string());
    let padded = format!("  {}\n", phrase_24());
    assert_eq!(
        validate_reply(&padded, &InputValidator::MnemonicPhrase),
        Some(phrase_24())
    );
}

#[test]
fn alpha_word_validator() {
    assert!(has_alpha_char("word"));
    assert!(!has_alpha_char("123 !?"));
    assert!(validate_reply(" word \n", &InputValidator::AlphaWord).is_some());
    assert!(validate_reply("1234\n", &InputValidator::AlphaWord).is_none());
    assert!(validate_reply("\n", &InputValidator::Any).is_none());
    assert_eq!(
        validate_reply("anything 9!\n", &InputValidator::Any),
        Some("anything 9!".to_string())
    );
}

#[test]
fn parse_accepts_only_valid_24_word_phrases() {
    assert!(Mnemonic::parse(&phrase_24()).is_ok());
    assert!(Mnemonic::parse(&phrase_24_ff()).is_ok());
    // A word off the list.
    let bad = phrase_24().replace("art", "zzzzz");
    assert!(matches!(
        Mnemonic::parse(&bad),
        Err(IOError::InvalidMnemonic(_))
    ));
    // A bad checksum: 24 valid words in an order no checksum admits.
    let bad_checksum = {
        let mut words = vec!["abandon"; 23];
        words.push("abandon");
        words.join(" ")
    };
    assert!(matches!(
        Mnemonic::parse(&bad_checksum),
        Err(IOError::InvalidMnemonic(_))
    ));
    // A valid 12-word mnemonic is rejected: the bootstrap demands 24 words.
    let twelve = {
        let mut words = vec!["abandon"; 11];
        words.push("about");
        words.join(" ")
    };
    assert!(matches!(
        Mnemonic::parse(&twelve),
        Err(IOError::InvalidMnemonic(_))
    ));
}

#[test]
fn backup_check_accepts_matching_answers() {
    let m = Mnemonic::parse(&phrase_24()).unwrap();
    let indices = vec![1usize, 5, 23];
    let answers = vec![
        "abandon".to_string(),
        "abandon".to_string(),
        "abandon".to_string(),
    ];
    assert!(check_mnemonic(&m, &indices, &answers).is_ok());
}

#[test]
fn backup_check_reaches_the_last_word() {
    // The sampler covers all 24 positions; position 24 holds the last word.
    let m = Mnemonic::parse(&phrase_24()).unwrap();
    assert!(check_mnemonic_answer(&m, 24, &"art".to_string()).is_ok());
    assert!(matches!(
        check_mnemonic_answer(&m, 24, &"abandon".to_string()),
        Err(IOError::CheckMnemonicFailed)
    ));
    assert!(check_mnemonic(&m, &vec![24usize], &vec!["art".to_string()]).is_ok());
}

#[test]
fn one_wrong_answer_fails_the_backup_check() {
    let m = Mnemonic::parse(&phrase_24()).unwrap();
    let indices = vec![1usize, 5, 23];
    let answers = vec![
        "abandon".to_string(),
        "zoo".to_string(),
        "abandon".to_string(),
    ];
    assert!(matches!(
        check_mnemonic(&m, &indices, &answers),
        Err(IOError::CheckMnemonicFailed)
    ));
    // And the whole bootstrap fails the same way: no key pair comes out.
    assert!(matches!(
        generate_keypair(&m, true, &indices, &answers),
        Err(IOError::CheckMnemonicFailed)
    ));
}

#[test]
fn generate_keypair_is_deterministic() {
    let m1 = Mnemonic::parse(&phrase_24()).unwrap();
    let m2 = Mnemonic::parse(&phrase_24()).unwrap();
    let none_i: Vec<usize> = Vec::new();
    let none_a: Vec<String> = Vec::new();
    let kp1 = generate_keypair(&m1, false, &none_i, &none_a).unwrap();
    let kp2 = generate_keypair(&m2, false, &none_i, &none_a).unwrap();
    assert_eq!(kp1.pk, kp2.pk);
    assert_eq!(kp1.sk, kp2.sk);
    assert_eq!(kp1.pk.len(), 32);
    assert_eq!(kp1.sk.len(), 64);
}

#[test]
fn different_phrases_give_different_keys() {
    let m1 = Mnemonic::parse(&phrase_24()).unwrap();
    let m2 = Mnemonic::parse(&phrase_24_ff()).unwrap();
    let none_i: Vec<usize> = Vec::new();
    let none_a: Vec<String> = Vec::new();
    let kp1 = generate_keypair(&m1, false, &none_i, &none_a).unwrap();
    let kp2 = generate_keypair(&m2, false, &none_i, &none_a).unwrap();
    assert_ne!(kp1.pk, kp2.pk);
}

#[test]
fn interactive_bootstrap_with_correct_answers_yields_the_same_keys() {
    let m = Mnemonic::parse(&phrase_24()).unwrap();
    let indices = vec![3usize, 3, 17];
    let answers = vec![
        "abandon".to_string(),
        "abandon".to_string(),
        "abandon".to_string(),
    ];
    let kp = generate_keypair(&m, true, &indices, &answers).unwrap();
    let none_i: Vec<usize> = Vec::new();
    let none_a: Vec<String> = Vec::new();
    let kp2 = generate_keypair(&m, false, &none_i, &none_a).unwrap();
    assert_eq!(kp.pk, kp2.pk);
}

#[test]
fn keypair_from_seed_edges() {
    // The derived public key is not an echo of the seed bytes.
    let seed = vec![7u8; 64];
    let kp = keypair_from_seed(&seed).unwrap();
    assert_eq!(kp.pk.len(), 32);
    assert_eq!(kp.sk.len(), 64);
    assert_ne!(kp.pk, seed[..32].to_vec());
    // Too few bytes cannot produce a key.
    assert!(matches!(
        keypair_from_seed(&vec![7u8; 10]),
        Err(IOError::KeyDerivationFailed)
    ));
    // An all-zero seed cannot produce a key.
    assert!(matches!(
        keypair_from_seed(&vec![0u8; 64]),
        Err(IOError::KeyDerivationFailed)
    ));
}

#[test]
fn sampled_check_positions_cover_all_words() {
    let mut seen = [false; 25];
    for _ in 0..2000 {
        let idx = draw_check_indices();
        assert_eq!(idx.len(), 3);
        for i in idx {
            assert!((1..=24).contains(&i));
            seen[i] = true;
        }
    }
    // Uniform over all word positions: with 6000 samples every position
    // comes up.
    for i in 1..=24 {
        assert!(seen[i]);
    }
}
