use harper_desktop::dictionary::sorted_words;

fn strings(words: &[&str]) -> Vec<String> {
    words.iter().map(|word| word.to_string()).collect()
}

#[test]
fn words_are_listed_in_order() {
    assert_eq!(
        sorted_words(strings(&["zebra", "Apple", "apple", "app", "éclair", "banana"])),
        strings(&["Apple", "app", "apple", "banana", "zebra", "éclair"])
    );
}

#[test]
fn duplicates_and_empty_lists_survive_sorting() {
    assert_eq!(sorted_words(strings(&["b", "a", "b"])), strings(&["a", "b", "b"]));
    assert_eq!(sorted_words(Vec::new()), Vec::<String>::new());
}

#[test]
fn sorting_agrees_with_str_order() {
    let words = strings(&["ß", "z", "Z", "", "aa", "a", "🙂", "日本"]);
    let mut expected = words.clone();
    expected.sort();
    assert_eq!(sorted_words(words), expected);
}
