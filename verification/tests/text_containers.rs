use hemi::text_container::TextContainer;

fn charset(keys: &str) -> Vec<char> {
    keys.chars().filter(|c| !c.is_whitespace()).collect()
}

#[test]
fn new_container_synthesizes_its_initial_buffer() {
    let container = TextContainer::new("QWERT ASDFG", 5);
    let set = charset("QWERT ASDFG");
    assert_eq!(container.words_buffer.len(), 5);
    assert_eq!(container.current_index, 0);
    assert_eq!(container.input_buffer, "");
    assert!(container.dictionary.is_none());
    for word in &container.words_buffer {
        let count = word.chars().count();
        assert!((3..=6).contains(&count));
        assert!(word.chars().all(|c| set.contains(&c)));
    }
}

#[test]
fn last_word_appears_only_after_advancing() {
    let mut container = TextContainer::new("QWERT", 3);
    assert_eq!(container.last_word(), None);
    let second = container.words_buffer[1].clone();
    container.try_increment();
    assert_eq!(container.last_word(), Some(&second));
}

#[test]
fn next_word_walks_the_buffer() {
    let mut container = TextContainer::new("QWERT", 3);
    let second = container.words_buffer[1].clone();
    let third = container.words_buffer[2].clone();
    assert_eq!(container.next_word(), Some(&second));
    container.try_increment();
    assert_eq!(container.next_word(), Some(&third));
    container.try_increment();
    assert_eq!(container.next_word(), None, "the cursor reached the end");
}

#[test]
fn exhausting_the_buffer_appends_a_fresh_batch() {
    let mut container = TextContainer::new("QWERT", 1);
    assert_eq!(container.next_word(), None);
    container.try_increment();
    assert_eq!(container.words_buffer.len(), 33, "one old word plus a batch of 32");
    assert_eq!(container.current_index, 0);
    assert!(container.next_word().is_some());
}

#[test]
fn a_loaded_dictionary_takes_over_generation() {
    let mut container = TextContainer::new("QWERT", 1);
    let list: Vec<String> = ["north", "south", "east", "west"]
        .iter()
        .map(|w| w.to_string())
        .collect();
    container.dictionary = Some(list.clone());
    container.generate_words(3);
    assert_eq!(container.words_buffer.len(), 3);
    assert_eq!(container.current_index, 0);
    for (i, w) in container.words_buffer.iter().enumerate() {
        assert!(list.contains(w));
        for (j, v) in container.words_buffer.iter().enumerate() {
            assert!(i == j || w != v, "dictionary sampling repeated a word");
        }
    }
    container.generate_words(9);
    assert_eq!(container.words_buffer.len(), 4, "oversampling degrades to the whole list");
}
