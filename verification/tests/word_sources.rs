use hemi::words::ConfigurationError;
use hemi::words::LayoutDictionary;
use hemi::words::Layouts;
use hemi::words::WordDictionary;
use hemi::words::WordSource;

fn charset(keys: &str) -> Vec<char> {
    keys.chars().filter(|c| !c.is_whitespace()).collect()
}

fn word_fits(word: &str, chars: &[char]) -> bool {
    (3..=6).contains(&word.chars().count()) && word.chars().all(|c| chars.contains(&c))
}

#[test]
fn key_based_generates_exact_amount_from_charset() {
    let source = WordSource::key_based("QWERT ASDFG ZXCVB");
    let set = charset("QWERT ASDFG ZXCVB");
    let words = source.generate(5).unwrap();
    assert_eq!(words.len(), 5);
    for word in &words {
        assert!(word_fits(word, &set), "bad word: {:?}", word);
    }
}

#[test]
fn key_based_zero_amount_gives_empty_batch() {
    let source = WordSource::key_based("AB");
    let words = source.generate(0).unwrap();
    assert!(words.is_empty());
}

#[test]
fn key_based_empty_set_is_a_configuration_error() {
    let source = WordSource::key_based("  \t \n ");
    assert_eq!(source.generate(3), Err(ConfigurationError {}));
    let source = WordSource::key_based("");
    assert_eq!(source.generate(1), Err(ConfigurationError {}));
}

#[test]
fn key_based_deduplicates_its_character_set() {
    let source = WordSource::key_based("AAB B");
    match source {
        WordSource::KeyBased { chars } => {
            assert_eq!(chars.len(), 2);
            assert!(chars.contains(&'A'));
            assert!(chars.contains(&'B'));
        }
        WordSource::Dictionary { .. } => panic!("expected a key-based source"),
    }
}

#[test]
fn dictionary_sampling_is_distinct_and_from_the_list() {
    let list: Vec<String> = ["alpha", "bravo", "carol", "delta", "eagle"]
        .iter()
        .map(|w| w.to_string())
        .collect();
    let source = WordSource::dictionary(list.clone());

    let three = source.generate(3).unwrap();
    assert_eq!(three.len(), 3);
    for (i, w) in three.iter().enumerate() {
        assert!(list.contains(w));
        for (j, v) in three.iter().enumerate() {
            assert!(i == j || w != v, "duplicate word in sample");
        }
    }

    let all = source.generate(10).unwrap();
    assert_eq!(all.len(), 5, "oversampling degrades to the whole list");
    for w in &list {
        assert!(all.contains(w));
    }
}

#[test]
fn dictionary_zero_amount_and_empty_list() {
    let source = WordSource::dictionary(vec!["one".to_string()]);
    assert!(source.generate(0).unwrap().is_empty());
    let empty = WordSource::dictionary(Vec::new());
    assert!(empty.generate(4).unwrap().is_empty());
}

#[test]
fn word_dictionary_exposes_its_keys() {
    let dict = WordDictionary::new(vec!["cat".to_string()], "QWERT ASDFG".to_string());
    assert_eq!(dict.keys(), "QWERT ASDFG");
    assert_eq!(dict.words, vec!["cat".to_string()]);
}

#[test]
fn layout_dictionary_default_is_the_qwerty_halves() {
    let dict = LayoutDictionary::default();
    assert_eq!(dict.left.keys(), "QWERT ASDFG ZXCVB");
    assert_eq!(dict.right.keys(), "YUIOP HJKL; NM,./");
    assert_eq!(dict.left.words, vec!["<space>".to_string()]);
    assert_eq!(dict.right.words, vec!["<space>".to_string()]);
}

#[test]
fn layouts_default_covers_both_known_layouts() {
    let layouts = Layouts::default();
    assert_eq!(layouts.qwerty.left.keys(), "QWERT ASDFG ZXCVB");
    assert_eq!(layouts.colemak.right.keys(), "YUIOP HJKL; NM,./");
}

#[test]
fn duplicate_copies_both_sides() {
    let dict = LayoutDictionary::default();
    let copy = dict.duplicate();
    assert_eq!(copy.left.keys(), dict.left.keys());
    assert_eq!(copy.right.keys(), dict.right.keys());
    assert_eq!(copy.left.words, dict.left.words);
    assert_eq!(copy.right.words, dict.right.words);
}
