use semantic_index::excerpt::{
    char_aligned_range, excerpt_from_text, format_output, materialize, Excerpt, SearchHit,
};

fn hit(path: &str, start: usize, end: usize, score: f32) -> SearchHit<f32> {
    SearchHit { path: path.to_string(), range_start: start, range_end: end, score }
}

#[test]
fn deleted_file_is_dropped_from_batch() {
    let loaded = vec![
        (hit("src/a.rs", 0, 5, 0.9), Some("alpha beta".to_string())),
        (hit("src/gone.rs", 0, 4, 0.8), None),
        (hit("src/c.rs", 6, 10, 0.7), Some("gamma delta".to_string())),
    ];
    let excerpts = materialize(loaded);
    assert_eq!(excerpts.len(), 2);
    assert_eq!(excerpts[0].path, "src/a.rs");
    assert_eq!(excerpts[0].text, "alpha");
    assert_eq!(excerpts[0].score, 0.9);
    assert_eq!(excerpts[1].path, "src/c.rs");
    assert_eq!(excerpts[1].text, "delt");
    assert_eq!(excerpts[1].score, 0.7);
}

#[test]
fn empty_batch_gives_no_excerpts() {
    let loaded: Vec<(SearchHit<f32>, Option<String>)> = Vec::new();
    assert!(materialize(loaded).is_empty());
}

#[test]
fn all_loads_failed_gives_no_excerpts() {
    let loaded = vec![(hit("a", 0, 1, 1.0), None), (hit("b", 0, 1, 2.0), None)];
    assert!(materialize(loaded).is_empty());
}

#[test]
fn end_mid_character_moves_back() {
    // "h" is one byte, "é" two (bytes 1 and 2), then "llo".
    let text = "h\u{e9}llo";
    assert_eq!(char_aligned_range(text, 0, 2), (0, 1));
    let excerpt = excerpt_from_text(hit("f", 0, 2, 1.0), text);
    assert_eq!(excerpt.text, "h");
    assert_eq!(excerpt.score, 1.0);
}

#[test]
fn start_mid_character_moves_forward() {
    let text = "h\u{e9}llo";
    assert_eq!(char_aligned_range(text, 2, 5), (3, 5));
    assert_eq!(excerpt_from_text(hit("f", 2, 5, 1.0), text).text, "ll");
}

#[test]
fn multibyte_characters_kept_whole() {
    let text = "a\u{1f600}b";
    assert_eq!(char_aligned_range(text, 0, 4), (0, 1));
    assert_eq!(char_aligned_range(text, 1, 5), (1, 5));
    assert_eq!(excerpt_from_text(hit("f", 1, 6, 1.0), text).text, "\u{1f600}b");
}

#[test]
fn end_past_file_is_clamped() {
    let text = "short";
    assert_eq!(char_aligned_range(text, 1, 100), (1, 5));
    assert_eq!(excerpt_from_text(hit("f", 1, 100, 0.5), text).text, "hort");
}

#[test]
fn range_past_file_gives_empty_text() {
    let text = "short";
    assert_eq!(char_aligned_range(text, 50, 100), (5, 5));
    assert_eq!(excerpt_from_text(hit("f", 50, 100, 0.5), text).text, "");
}

#[test]
fn start_and_end_in_one_character() {
    let text = "a\u{1f600}b";
    assert_eq!(char_aligned_range(text, 2, 3), (1, 1));
    assert_eq!(excerpt_from_text(hit("f", 2, 3, 0.5), text).text, "");
}

#[test]
fn inverted_range_gives_empty_text() {
    assert_eq!(char_aligned_range("abcdef", 4, 2), (2, 2));
}

#[test]
fn format_output_frames_each_excerpt() {
    let excerpts = vec![
        Excerpt {
            path: "src/a.rs".to_string(),
            text: "fn a() {}\n".to_string(),
            score: 0.5f32.to_string(),
        },
        Excerpt { path: "b.md".to_string(), text: "B".to_string(), score: "1".to_string() },
    ];
    assert_eq!(
        format_output(&excerpts),
        "Semantic search results for user query:\n\
         Excerpt from src/a.rs, score 0.5:\n~~~\nfn a() {}\n~~~\n\
         Excerpt from b.md, score 1:\n~~~\nB~~~\n"
    );
}

#[test]
fn format_output_of_no_excerpts() {
    assert_eq!(format_output(&Vec::new()), "Semantic search results for user query:\n");
}
