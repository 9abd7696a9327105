//! Key bootstrap: console-reply validation, the mnemonic backup check, and
//! derivation of the operator's signing key pair from a mnemonic phrase.
//!
//! Console reads and writes themselves live outside this library; the
//! functions here decide what a reply means and what key material follows
//! from an accepted phrase.

use rand::distributions::Distribution;
use vstd::prelude::*;

verus! {

/// Errors of the key bootstrap flow.
#[derive(Debug)]
pub enum IOError {
    /// The input channel itself failed; carries the underlying message.
    InvalidInput(String),
    /// The phrase failed wordlist or checksum validation; carries the
    /// underlying message.
    InvalidMnemonic(String),
    /// A backup-check answer did not match the recorded phrase.
    CheckMnemonicFailed,
    /// The seed could not produce a valid signing key.
    KeyDerivationFailed,
}

/// Number of words a mnemonic phrase must have.
pub const MNEMONIC_LEN: usize = 24;

/// Number of word positions sampled by the backup check.
pub const MNEMONIC_CHECK_LEN: usize = 3;

/// An ASCII letter.
pub open spec fn is_alpha_char(c: char) -> bool {
    (97 <= c as u32 && c as u32 <= 122) || (65 <= c as u32 && c as u32 <= 90)
}

/// A Unicode whitespace character: the ASCII whitespace characters together
/// with the other code points of the White_Space property (next line,
/// no-break space, the typographic spaces, the line and paragraph
/// separators, and the ideographic space).
pub open spec fn is_space_char(c: char) -> bool {
    ||| c == ' ' || c == '\t' || c == '\n' || c == '\u{b}' || c == '\u{c}' || c == '\r'
    ||| c == '\u{85}' || c == '\u{a0}' || c == '\u{1680}'
    ||| (0x2000 <= c as u32 && c as u32 <= 0x200a)
    ||| c == '\u{2028}' || c == '\u{2029}' || c == '\u{202f}' || c == '\u{205f}' || c
        == '\u{3000}'
}

/// Whether `c` is a whitespace character.
fn is_space(c: char) -> (r: bool)
    ensures
        r == is_space_char(c),
{
    let u = c as u32;
    (u == 0x20 || u == 0x9 || u == 0xa || u == 0xb || u == 0xc || u == 0xd) || (u == 0x85 || u
        == 0xa0 || u == 0x1680) || (0x2000 <= u && u <= 0x200a) || (u == 0x2028 || u == 0x2029 || u
        == 0x202f || u == 0x205f || u == 0x3000)
}

/// Number of whitespace characters in `s`.
pub open spec fn space_count(s: Seq<char>) -> nat
    decreases s.len(),
{
    if s.len() == 0 {
        0
    } else {
        space_count(s.drop_last()) + (if is_space_char(s.last()) {
            1nat
        } else {
            0nat
        })
    }
}

/// Every character of `s` is a letter or a whitespace character.
pub open spec fn phrase_chars_ok(s: Seq<char>) -> bool {
    forall|j: int| 0 <= j < s.len() ==> is_alpha_char(s[j]) || is_space_char(s[j])
}

/// Every whitespace character of `s` stands strictly between two letters:
/// no leading or trailing whitespace and no two adjacent whitespace
/// characters.
pub open spec fn spaces_interior(s: Seq<char>) -> bool {
    forall|j: int|
        0 <= j < s.len() && is_space_char(s[j]) ==> 0 < j && j + 1 < s.len() && is_alpha_char(
            s[j - 1],
        ) && is_alpha_char(s[j + 1])
}

/// The shape a mnemonic phrase reply must have: exactly 24 alphabetic words
/// separated by single whitespace characters.
pub open spec fn is_mnemonic_phrase_format(s: Seq<char>) -> bool {
    s.len() > 0 && phrase_chars_ok(s) && spaces_interior(s) && space_count(s) == (
    MNEMONIC_LEN - 1) as nat
}

proof fn lemma_space_count_step(s: Seq<char>, i: int)
    requires
        0 <= i < s.len(),
    ensures
        space_count(s.take(i + 1)) == space_count(s.take(i)) + (if is_space_char(s[i]) {
            1nat
        } else {
            0nat
        }),
{
    assert(s.take(i + 1).drop_last() =~= s.take(i));
    assert(s.take(i + 1).last() == s[i]);
}

/// Whether `s` is a well-formed 24-word mnemonic phrase reply: 24 alphabetic
/// words separated by single whitespace characters, nothing else.
pub fn is_valid_mnemonic_phrase(s: &str) -> (r: bool)
    ensures
        r == is_mnemonic_phrase_format(s@),
{
    let len = s.unicode_len();
    if len == 0 {
        return false;
    }
    let mut spaces: usize = 0;
    let mut prev_is_alpha: bool = false;
    let mut i: usize = 0;
    while i < len
        invariant
            len == s@.len(),
            0 <= i <= len,
            spaces <= i,
            spaces == space_count(s@.take(i as int)),
            prev_is_alpha == (i > 0 && is_alpha_char(s@[i as int - 1])),
            forall|j: int| 0 <= j < i ==> is_alpha_char(s@[j]) || is_space_char(s@[j]),
            forall|j: int|
                0 <= j < i && is_space_char(s@[j]) ==> 0 < j && j + 1 < s@.len() && is_alpha_char(
                    s@[j - 1],
                ) && (j + 1 < i ==> is_alpha_char(s@[j + 1])),
        decreases len - i,
    {
        let c = s.get_char(i);
        let u = c as u32;
        let alpha = (97 <= u && u <= 122) || (65 <= u && u <= 90);
        let space = is_space(c);
        proof {
            lemma_space_count_step(s@, i as int);
        }
        if alpha {
            prev_is_alpha = true;
        } else if space {
            if !prev_is_alpha || i + 1 >= len {
                assert(!spaces_interior(s@));
                return false;
            }
            spaces = spaces + 1;
            prev_is_alpha = false;
        } else {
            assert(!phrase_chars_ok(s@));
            return false;
        }
        i = i + 1;
    }
    proof {
        assert(s@.take(len as int) =~= s@);
    }
    spaces == MNEMONIC_LEN - 1
}

/// `s` with leading whitespace removed.
pub open spec fn trim_front(s: Seq<char>) -> Seq<char>
    decreases s.len(),
{
    if s.len() > 0 && is_space_char(s[0]) {
        trim_front(s.drop_first())
    } else {
        s
    }
}

/// `s` with trailing whitespace removed.
pub open spec fn trim_back(s: Seq<char>) -> Seq<char>
    decreases s.len(),
{
    if s.len() > 0 && is_space_char(s.last()) {
        trim_back(s.drop_last())
    } else {
        s
    }
}

/// `s` with leading and trailing whitespace removed.
pub open spec fn trim_spec(s: Seq<char>) -> Seq<char> {
    trim_back(trim_front(s))
}

proof fn lemma_trim_front_subrange(s: Seq<char>, a: int)
    requires
        0 <= a <= s.len(),
        forall|j: int| 0 <= j < a ==> is_space_char(s[j]),
        a == s.len() || !is_space_char(s[a]),
    ensures
        trim_front(s) == s.subrange(a, s.len() as int),
    decreases a,
{
    if a == 0 {
        assert(s.subrange(0, s.len() as int) =~= s);
    } else {
        let t = s.drop_first();
        assert(forall|j: int| 0 <= j < a - 1 ==> is_space_char(t[j]));
        lemma_trim_front_subrange(t, a - 1);
        assert(t.subrange(a - 1, t.len() as int) =~= s.subrange(a, s.len() as int));
    }
}

proof fn lemma_trim_back_subrange(s: Seq<char>, b: int)
    requires
        0 <= b <= s.len(),
        forall|j: int| b <= j < s.len() ==> is_space_char(s[j]),
        b == 0 || !is_space_char(s[b - 1]),
    ensures
        trim_back(s) == s.subrange(0, b),
    decreases s.len() - b,
{
    if b == s.len() {
        assert(s.subrange(0, b) =~= s);
    } else {
        let t = s.drop_last();
        lemma_trim_back_subrange(t, b);
        assert(t.subrange(0, b) =~= s.subrange(0, b));
    }
}

/// `s` with leading and trailing Unicode whitespace removed, as a console
/// reply is trimmed before it is matched.
pub fn trim_line(s: &str) -> (r: String)
    ensures
        r@ == trim_spec(s@),
{
    let len = s.unicode_len();
    let mut a: usize = 0;
    loop
        invariant
            len == s@.len(),
            0 <= a <= len,
            forall|j: int| 0 <= j < a ==> is_space_char(s@[j]),
        ensures
            0 <= a <= len,
            forall|j: int| 0 <= j < a ==> is_space_char(s@[j]),
            a == len || !is_space_char(s@[a as int]),
        decreases len - a,
    {
        if a >= len {
            break;
        }
        if !is_space(s.get_char(a)) {
            break;
        }
        a = a + 1;
    }
    proof {
        lemma_trim_front_subrange(s@, a as int);
    }
    if a == len {
        proof {
            assert(s@.subrange(a as int, len as int) =~= Seq::<char>::empty());
        }
        return String::new();
    }
    let mut b: usize = len;
    loop
        invariant
            len == s@.len(),
            a < b <= len,
            a < len,
            forall|j: int| b <= j < len ==> is_space_char(s@[j]),
        ensures
            a < b <= len,
            forall|j: int| b <= j < len ==> is_space_char(s@[j]),
            b == a + 1 || !is_space_char(s@[b - 1]),
        decreases b,
    {
        if b <= a + 1 {
            break;
        }
        if !is_space(s.get_char(b - 1)) {
            break;
        }
        b = b - 1;
    }
    // The front scan stopped on a non-whitespace character at `a`, so the
    // back scan, which never moves past `a + 1`, stopped on one too.
    let r = s.substring_char(a, b);
    proof {
        let t = s@.subrange(a as int, len as int);
        assert(!is_space_char(t[0]));
        assert(forall|j: int|
            b - a <= j < t.len() ==> is_space_char(#[trigger] t[j]) == is_space_char(
                s@[j + a],
            ));
        assert(!is_space_char(t[b - a - 1]));
        lemma_trim_back_subrange(t, b - a);
        assert(t.subrange(0, b - a) =~= s@.subrange(a as int, b as int));
    }
    r.to_owned()
}

/// The validators a console prompt can ask for.
pub enum InputValidator {
    /// The reply must be a 24-word mnemonic phrase.
    MnemonicPhrase,
    /// The reply must hold at least one letter.
    AlphaWord,
    /// Any non-empty reply is accepted.
    Any,
}

/// What a trimmed console reply must satisfy to be accepted.
pub open spec fn reply_matches(v: InputValidator, line: Seq<char>) -> bool {
    match v {
        InputValidator::MnemonicPhrase => is_mnemonic_phrase_format(line),
        InputValidator::AlphaWord => contains_alpha_char(line),
        InputValidator::Any => line.len() > 0,
    }
}

/// Decides one console reply: trims it, then accepts it exactly when it
/// matches the validator. A rejected reply means the caller must prompt
/// again; the caller re-prompts until a reply is accepted, so a phrase of
/// the wrong shape can never pass this gate.
pub fn validate_reply(line: &str, v: &InputValidator) -> (r: Option<String>)
    ensures
        r is Some <==> reply_matches(*v, trim_spec(line@)),
        r matches Some(t) ==> t@ == trim_spec(line@),
{
    let trimmed = trim_line(line);
    let ok = match v {
        InputValidator::MnemonicPhrase => is_valid_mnemonic_phrase(trimmed.as_str()),
        InputValidator::AlphaWord => has_alpha_char(trimmed.as_str()),
        InputValidator::Any => trimmed.as_str().unicode_len() > 0,
    };
    if ok {
        Some(trimmed)
    } else {
        None
    }
}

/// `s` holds at least one letter.
pub open spec fn contains_alpha_char(s: Seq<char>) -> bool {
    exists|j: int| 0 <= j < s.len() && is_alpha_char(s[j])
}

/// Whether `s` holds at least one letter.
pub fn has_alpha_char(s: &str) -> (r: bool)
    ensures
        r == contains_alpha_char(s@),
{
    let len = s.unicode_len();
    let mut i: usize = 0;
    while i < len
        invariant
            len == s@.len(),
            0 <= i <= len,
            forall|j: int| 0 <= j < i ==> !is_alpha_char(s@[j]),
        decreases len - i,
    {
        let c = s.get_char(i);
        let u = c as u32;
        if (97 <= u && u <= 122) || (65 <= u && u <= 90) {
            return true;
        }
        i = i + 1;
    }
    false
}

/// What parsing a normalized phrase against the English wordlist yields: the
/// phrase's words when wordlist and checksum validation succeed, nothing
/// otherwise. The result depends on the phrase alone.
pub uninterp spec fn bip39_words_of(phrase: Seq<char>) -> Option<Seq<Seq<char>>>;

/// The 64-byte seed the standard passphrase-less derivation assigns to a
/// valid phrase. The result depends on the phrase alone.
pub uninterp spec fn bip39_seed_of(phrase: Seq<char>) -> Seq<u8>;

/// The signing key pair (public key, secret key) derived from a 32-byte
/// seed. The result depends on the seed alone.
pub uninterp spec fn ed25519_keys_of(seed: Seq<u8>) -> (Seq<u8>, Seq<u8>);

/// Some byte of `s` is not zero.
pub open spec fn seed_nonzero(s: Seq<u8>) -> bool {
    exists|j: int| 0 <= j < s.len() && s[j] != 0
}

/// The key material that a given phrase determines: the seed's leading 32
/// bytes drive the signing-key derivation.
pub open spec fn derived_keys_of(phrase: Seq<char>) -> (Seq<u8>, Seq<u8>) {
    ed25519_keys_of(bip39_seed_of(phrase).take(32))
}

/// Relies on bip39's `Mnemonic::parse_in_normalized` with the English
/// wordlist, and on `words` to read the parsed words back: parsing
/// succeeds exactly when every word is on the wordlist and the checksum
/// holds, and both outcomes depend on the phrase alone.
#[verifier::external_body]
fn parse_mnemonic_words(phrase: &str) -> (r: Result<Vec<String>, String>)
    ensures
        r is Ok <==> bip39_words_of(phrase@) is Some,
        r matches Ok(w) ==> w@.map_values(|x: String| x@) == bip39_words_of(phrase@).unwrap(),
{
    match bip39::Mnemonic::parse_in_normalized(bip39::Language::English, phrase) {
        Ok(m) => Ok(m.words().map(|w| w.to_string()).collect()),
        Err(e) => Err(e.to_string()),
    }
}

/// Relies on bip39's `Mnemonic::to_seed_normalized` with an empty
/// passphrase: it returns a 64-byte array that depends on the phrase alone.
#[verifier::external_body]
fn derive_seed(phrase: &str) -> (r: Vec<u8>)
    requires
        bip39_words_of(phrase@) is Some,
    ensures
        r@ == bip39_seed_of(phrase@),
        r@.len() == 64,
{
    let m = bip39::Mnemonic::parse_in_normalized(bip39::Language::English, phrase).unwrap();
    m.to_seed_normalized("").to_vec()
}

/// Relies on ed25519_compact's `KeyPair::try_from_seed`: it derives a
/// 32-byte public key and a 64-byte secret key that depend on the seed
/// alone, and fails exactly when the seed is all zeros.
#[verifier::external_body]
fn ed25519_derive(seed: &Vec<u8>) -> (r: Option<(Vec<u8>, Vec<u8>)>)
    requires
        seed@.len() >= 32,
    ensures
        r is Some <==> seed_nonzero(seed@.take(32)),
        r matches Some(kp) ==> kp.0@ == ed25519_keys_of(seed@.take(32)).0 && kp.1@
            == ed25519_keys_of(seed@.take(32)).1 && kp.0@.len() == 32 && kp.1@.len() == 64,
{
    let s = ed25519_compact::Seed::from_slice(&seed[..32]).unwrap();
    match ed25519_compact::KeyPair::try_from_seed(s) {
        Ok(kp) => Some((kp.pk.to_vec(), kp.sk.to_vec())),
        Err(_) => None,
    }
}

/// Relies on rand's `Uniform` distribution over the inclusive range
/// `1..=24`: each sample falls on one of the phrase's word positions.
/// Sampling is with replacement, so the same position may come back more
/// than once; nothing here claims otherwise.
#[verifier::external_body]
fn sample_indices() -> (r: Vec<usize>)
    ensures
        r@.len() == MNEMONIC_CHECK_LEN,
        forall|j: int| 0 <= j < r@.len() ==> 1 <= #[trigger] r@[j] <= MNEMONIC_LEN,
{
    let rng = rand::thread_rng();
    let uniform = rand::distributions::Uniform::from(1..=MNEMONIC_LEN);
    uniform.sample_iter(rng).take(MNEMONIC_CHECK_LEN).collect()
}

/// Draws the word positions the backup check will ask for: 3 positions
/// sampled uniformly from all 24 word positions, possibly repeating.
pub fn draw_check_indices() -> (r: Vec<usize>)
    ensures
        r@.len() == MNEMONIC_CHECK_LEN,
        forall|j: int| 0 <= j < r@.len() ==> 1 <= #[trigger] r@[j] <= MNEMONIC_LEN,
{
    sample_indices()
}

/// A 24-word phrase that passed wordlist and checksum validation, together
/// with its words. Ephemeral: it exists only while the key pair is
/// bootstrapped.
pub struct Mnemonic {
    phrase: String,
    words: Vec<String>,
}

/// A signing identity: the raw public and secret key bytes.
#[derive(Debug)]
pub struct KeyPair {
    pub pk: Vec<u8>,
    pub sk: Vec<u8>,
}

impl Mnemonic {
    /// The phrase as it was accepted.
    pub closed spec fn phrase_view(&self) -> Seq<char> {
        self.phrase@
    }

    /// The phrase's words, in order.
    pub closed spec fn words_view(&self) -> Seq<Seq<char>> {
        self.words@.map_values(|w: String| w@)
    }

    /// The words are exactly what validation assigned to the phrase, and
    /// there are 24 of them.
    pub closed spec fn wf(&self) -> bool {
        &&& bip39_words_of(self.phrase@) is Some
        &&& self.words@.map_values(|w: String| w@) == bip39_words_of(self.phrase@).unwrap()
        &&& self.words@.len() == MNEMONIC_LEN
    }

    /// Parses a phrase against the canonical wordlist; accepts exactly the
    /// valid 24-word phrases.
    pub fn parse(phrase: &str) -> (r: Result<Mnemonic, IOError>)
        ensures
            r is Ok <==> (bip39_words_of(phrase@) is Some && bip39_words_of(
                phrase@,
            ).unwrap().len() == MNEMONIC_LEN),
            r matches Ok(m) ==> m.wf() && m.phrase_view() == phrase@,
            r matches Err(e) ==> e is InvalidMnemonic,
    {
        match parse_mnemonic_words(phrase) {
            Ok(words) => {
                if words.len() == MNEMONIC_LEN {
                    Ok(Mnemonic { phrase: phrase.to_owned(), words })
                } else {
                    Err(IOError::InvalidMnemonic(String::from_str("not a 24-word phrase")))
                }
            },
            Err(msg) => Err(IOError::InvalidMnemonic(msg)),
        }
    }
}

/// Every answer names the word standing at its sampled position (positions
/// count from 1).
pub open spec fn all_answers_match(m: Mnemonic, indices: Seq<usize>, answers: Seq<String>) -> bool {
    forall|j: int| 0 <= j < indices.len() ==> answers[j]@ == m.words_view()[indices[j] - 1]
}

/// Decides one backup-check answer: it passes exactly when it is the word
/// recorded at the sampled position. The prompt loop asks one position at a
/// time and aborts the bootstrap at the first mismatch, so positions after
/// a mismatch are never asked.
pub fn check_mnemonic_answer(mnemonic: &Mnemonic, index: usize, answer: &String) -> (r: Result<
    (),
    IOError,
>)
    requires
        mnemonic.wf(),
        1 <= index <= MNEMONIC_LEN,
    ensures
        r is Ok <==> answer@ == mnemonic.words_view()[index - 1],
        r matches Err(e) ==> e is CheckMnemonicFailed,
{
    if *answer == mnemonic.words[index - 1] {
        Ok(())
    } else {
        Err(IOError::CheckMnemonicFailed)
    }
}

/// The backup-verification challenge over a whole batch of sampled
/// positions and answers: it succeeds exactly when every answer matches,
/// and the first mismatch fails the whole check.
pub fn check_mnemonic(mnemonic: &Mnemonic, indices: &Vec<usize>, answers: &Vec<String>) -> (r:
    Result<(), IOError>)
    requires
        mnemonic.wf(),
        indices@.len() == answers@.len(),
        forall|j: int| 0 <= j < indices@.len() ==> 1 <= #[trigger] indices@[j] <= MNEMONIC_LEN,
    ensures
        r is Ok <==> all_answers_match(*mnemonic, indices@, answers@),
        r matches Err(e) ==> e is CheckMnemonicFailed,
{
    let n = indices.len();
    let mut k: usize = 0;
    while k < n
        invariant
            n == indices@.len(),
            indices@.len() == answers@.len(),
            mnemonic.wf(),
            forall|j: int| 0 <= j < indices@.len() ==> 1 <= #[trigger] indices@[j] <= MNEMONIC_LEN,
            0 <= k <= n,
            forall|j: int|
                0 <= j < k ==> answers@[j]@ == mnemonic.words_view()[indices@[j] - 1],
        decreases n - k,
    {
        match check_mnemonic_answer(mnemonic, indices[k], &answers[k]) {
            Ok(()) => {},
            Err(e) => {
                assert(!all_answers_match(*mnemonic, indices@, answers@));
                return Err(e);
            },
        }
        k = k + 1;
    }
    Ok(())
}

/// Derives a signing key pair from seed bytes: the leading 32 bytes drive
/// the derivation, which fails exactly when they are missing or all zero.
pub fn keypair_from_seed(seed: &Vec<u8>) -> (r: Result<KeyPair, IOError>)
    ensures
        r is Ok <==> (seed@.len() >= 32 && seed_nonzero(seed@.take(32))),
        r matches Ok(kp) ==> kp.pk@ == ed25519_keys_of(seed@.take(32)).0 && kp.sk@
            == ed25519_keys_of(seed@.take(32)).1 && kp.pk@.len() == 32 && kp.sk@.len() == 64,
        r matches Err(e) ==> e is KeyDerivationFailed,
{
    if seed.len() < 32 {
        return Err(IOError::KeyDerivationFailed);
    }
    match ed25519_derive(seed) {
        Some(kp) => Ok(KeyPair { pk: kp.0, sk: kp.1 }),
        None => Err(IOError::KeyDerivationFailed),
    }
}

/// Generates the operator's key pair from an accepted mnemonic. When
/// `interactive`, the backup check runs first over the sampled positions
/// and their answers, and any mismatch aborts the bootstrap before any key
/// material is derived.
pub fn generate_keypair(
    mnemonic: &Mnemonic,
    interactive: bool,
    check_indices: &Vec<usize>,
    check_answers: &Vec<String>,
) -> (r: Result<KeyPair, IOError>)
    requires
        mnemonic.wf(),
        check_indices@.len() == check_answers@.len(),
        forall|j: int|
            0 <= j < check_indices@.len() ==> 1 <= #[trigger] check_indices@[j] <= MNEMONIC_LEN,
    ensures
        r is Ok <==> ((interactive ==> all_answers_match(*mnemonic, check_indices@, check_answers@))
            && seed_nonzero(bip39_seed_of(mnemonic.phrase_view()).take(32))),
        r matches Ok(kp) ==> kp.pk@ == derived_keys_of(mnemonic.phrase_view()).0 && kp.sk@
            == derived_keys_of(mnemonic.phrase_view()).1,
        r matches Err(e) ==> (e is CheckMnemonicFailed <==> (interactive && !all_answers_match(
            *mnemonic,
            check_indices@,
            check_answers@,
        ))),
        r matches Err(e) ==> (e is CheckMnemonicFailed || e is KeyDerivationFailed),
{
    if interactive {
        match check_mnemonic(mnemonic, check_indices, check_answers) {
            Ok(()) => {},
            Err(e) => {
                return Err(e);
            },
        }
    }
    let seed = derive_seed(mnemonic.phrase.as_str());
    keypair_from_seed(&seed)
}

/// Law: key-pair generation is deterministic. Two mnemonics carrying the
/// same phrase have the same words, and the key material their phrase
/// determines is the same; so identical phrases yield identical key pairs
/// across runs.
pub proof fn lemma_keypair_deterministic(m1: Mnemonic, m2: Mnemonic)
    requires
        m1.wf(),
        m2.wf(),
        m1.phrase_view() == m2.phrase_view(),
    ensures
        m1.words_view() == m2.words_view(),
        derived_keys_of(m1.phrase_view()) == derived_keys_of(m2.phrase_view()),
{
}

} // verus!
