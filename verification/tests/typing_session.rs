use hemi::session::TypingData;
use hemi::words::WordDictionary;
use hemi::words::WordSource;

fn cat_dictionary() -> WordDictionary {
    WordDictionary::new(vec!["cat".to_string()], "QWERT".to_string())
}

#[test]
fn submit_on_exact_match_advances_the_streak() {
    let dict = cat_dictionary();
    let mut session = TypingData::new(1, &dict);
    assert_eq!(session.next_word(), Some("cat"));

    session.push_str("cat");
    assert_eq!(session.input(), "cat");
    session.submit();
    assert_eq!(session.streak(), 1);
    assert_eq!(session.last_word(), "cat");
    assert_eq!(session.input(), "");
    assert_eq!(session.next_word(), Some("cat"), "queue was refilled");

    session.push_str("pig");
    session.submit();
    assert_eq!(session.streak(), 0, "a mismatch resets the streak");
    assert_eq!(session.last_word(), "pig");
}

#[test]
fn submit_compares_the_trimmed_input() {
    let dict = cat_dictionary();
    let mut session = TypingData::new(1, &dict);
    session.push_str("  cat \t ");
    session.submit();
    assert_eq!(session.streak(), 1);
    assert_eq!(session.last_word(), "  cat \t ");
}

#[test]
fn streak_counts_consecutive_matches() {
    let list: Vec<String> = ["one", "two", "three", "four"]
        .iter()
        .map(|w| w.to_string())
        .collect();
    let dict = WordDictionary::new(list, "QWERT".to_string());
    let mut session = TypingData::new(4, &dict);
    for round in 1..=3 {
        let next = session.next_word().expect("queue should not be empty").to_string();
        session.push_str(&next);
        session.submit();
        assert_eq!(session.streak(), round);
    }
}

#[test]
fn backspace_on_an_empty_buffer_is_a_no_op() {
    let dict = cat_dictionary();
    let mut session = TypingData::new(1, &dict);
    let queued = session.buffer().clone();
    assert_eq!(session.pop(), None);
    assert_eq!(session.input(), "");
    assert_eq!(session.streak(), 0);
    assert_eq!(session.last_word(), "");
    assert_eq!(session.buffer(), &queued);
}

#[test]
fn backspace_removes_the_last_character() {
    let dict = cat_dictionary();
    let mut session = TypingData::new(1, &dict);
    session.push_str("ab");
    assert_eq!(session.pop(), Some('b'));
    assert_eq!(session.input(), "a");
    assert_eq!(session.pop(), Some('a'));
    assert_eq!(session.input(), "");
}

#[test]
fn push_appends_single_characters() {
    let dict = cat_dictionary();
    let mut session = TypingData::new(0, &dict);
    session.push('c');
    session.push('a');
    assert_eq!(session.input(), "ca");
}

#[test]
fn submitting_the_last_word_refills_the_queue() {
    let dict = cat_dictionary();
    let mut session = TypingData::new(1, &dict);
    assert_eq!(session.buffer().len(), 1);
    session.push_str("cat");
    session.submit();
    assert!(
        session.next_word().is_some(),
        "a productive source must refill the drained queue"
    );
}

#[test]
fn new_with_zero_amount_starts_empty() {
    let dict = cat_dictionary();
    let session = TypingData::new(0, &dict);
    assert_eq!(session.next_word(), None);
    assert!(session.buffer().is_empty());
}

#[test]
fn drain_empties_only_the_queue() {
    let dict = cat_dictionary();
    let mut session = TypingData::new(1, &dict);
    session.push_str("ca");
    session.drain();
    assert!(session.buffer().is_empty());
    assert_eq!(session.next_word(), None);
    assert_eq!(session.input(), "ca");
    assert_eq!(session.streak(), 0);
}

#[test]
fn drain_and_refill_switches_to_the_new_source() {
    let dict = WordDictionary::new(vec!["qqq".to_string()], "QWERT".to_string());
    let mut session = TypingData::new(1, &dict);
    assert_eq!(session.next_word(), Some("qqq"));

    let right: Vec<char> = "YUIOP".chars().collect();
    let outcome = session.drain_and_refill(WordSource::key_based("YUIOP"));
    assert!(outcome.is_ok());
    assert_eq!(session.buffer().len(), 10);
    for word in session.buffer() {
        let count = word.chars().count();
        assert!((3..=6).contains(&count));
        assert!(
            word.chars().all(|c| right.contains(&c)),
            "word from the old source survived the switch: {:?}",
            word
        );
    }
}

#[test]
fn drain_and_refill_rejects_an_empty_key_set() {
    let dict = cat_dictionary();
    let mut session = TypingData::new(1, &dict);
    let outcome = session.drain_and_refill(WordSource::key_based("   "));
    assert!(outcome.is_err());
    assert_eq!(session.next_word(), Some("cat"), "a rejected switch leaves the session alone");
}

#[test]
fn generate_words_rebinds_to_the_given_dictionary() {
    let first = cat_dictionary();
    let mut session = TypingData::new(1, &first);
    let second = WordDictionary::new(
        vec!["dog".to_string(), "owl".to_string()],
        "YUIOP".to_string(),
    );
    session.generate_words(2, &second);
    assert_eq!(session.buffer().len(), 2);
    for word in session.buffer() {
        assert!(second.words.contains(word));
    }
    session.push_str("none of these");
    session.submit();
    session.drain();
    session.push_str("x");
    session.submit();
    assert_eq!(
        session.buffer().len(),
        2,
        "an empty queue refills from the rebound dictionary"
    );
}
