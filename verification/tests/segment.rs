use tosa_core::segment::{cut, keep_words, Segmenter};

fn strings(items: &[&str]) -> Vec<String> {
    items.iter().map(|s| s.to_string()).collect()
}

#[test]
fn words_of_one_byte_are_dropped() {
    let words = strings(&["我们", "a", " ", "ab", "", " b ", "中", "é", "  ", " cd", "\u{3000}x\u{3000}", "a b"]);
    assert_eq!(keep_words(words), strings(&["我们", "ab", "中", "é", " cd", "a b"]));
    assert!(keep_words(Vec::new()).is_empty());
}

#[test]
fn sentence_is_cut_into_words() {
    let segmenter = Segmenter::new();
    assert_eq!(
        cut(&segmenter, "我们中出了一个叛徒"),
        Ok(strings(&["我们", "中", "出", "了", "一个", "叛徒"]))
    );
    assert_eq!(
        cut(&segmenter, "  我们 a 中出了一个叛徒, ok \n"),
        Ok(strings(&["我们", "中", "出", "了", "一个", "叛徒", "ok"]))
    );
    assert_eq!(cut(&segmenter, ""), Ok(Vec::new()));
    assert_eq!(cut(&segmenter, " \n "), Ok(Vec::new()));
}
