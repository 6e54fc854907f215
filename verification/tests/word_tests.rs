use kit::input::{Key, KeyModifier, KeyPress};
use kit::word::{transpose, MatchEngine, WordRegex};

#[test]
fn test_transpose() {
    assert_eq!(
        transpose(vec![vec![1, 2, 3]]),
        vec![vec![1], vec![2], vec![3]]
    );
    assert_eq!(
        transpose(vec![vec![1, 2, 3], vec![4, 5, 6]]),
        vec![vec![1, 4], vec![2, 5], vec![3, 6]]
    );
    assert_eq!(
        transpose(vec![vec![1, 2, 3], vec![4, 5, 6], vec![7, 8, 9]]),
        vec![vec![1, 4, 7], vec![2, 5, 8], vec![3, 6, 9]]
    );
}

#[test]
fn transpose_of_ragged_rows() {
    assert_eq!(
        transpose(vec![vec![1], vec![2, 3], vec![4, 5, 6]]),
        vec![vec![1, 2, 4], vec![3, 5], vec![6]]
    );
    let no_rows: Vec<Vec<i32>> = Vec::new();
    let no_columns: Vec<Vec<i32>> = Vec::new();
    assert_eq!(transpose(no_rows), no_columns);
}

#[test]
fn matches_whole_lines_only() {
    let engine = MatchEngine::new("a.*".to_string());
    let found = engine.matches("apple\nbanana\navocado\nplum").unwrap();
    assert_eq!(found, vec!["apple".to_string(), "avocado".to_string()]);
}

#[test]
fn matches_uses_the_pattern_not_the_text_alone() {
    let engine = MatchEngine::new("ap+le".to_string());
    let found = engine.matches("apple\nale\naple").unwrap();
    assert_eq!(found, vec!["apple".to_string(), "aple".to_string()]);
}

#[test]
fn empty_pattern_matches_nothing() {
    // An empty pattern matches one empty string per line start, which
    // collapses to no matches at all on a single line.
    let engine = MatchEngine::new(String::new());
    let found = engine.matches("").unwrap();
    assert_eq!(found, Vec::<String>::new());
}

#[test]
fn invalid_pattern_is_an_error() {
    let engine = MatchEngine::new("foo(bar".to_string());
    assert!(engine.matches("foo\nbar").is_err());
}

#[test]
fn typing_extends_the_pattern_and_resets_the_page() {
    let mut screen = WordRegex::new();
    assert_eq!(screen.match_engine.pattern, "");
    let quit = screen.handle_key(&KeyPress {
        code: Key::Character('a'),
        modifier: KeyModifier::Plain,
    });
    assert!(!quit);
    screen.handle_key(&KeyPress { code: Key::Character('b'), modifier: KeyModifier::Plain });
    assert_eq!(screen.match_engine.pattern, "ab");
    assert_eq!(screen.current_page, 0);
    // Backspace shortens the pattern, and is harmless on an empty one.
    screen.handle_key(&KeyPress { code: Key::Backspace, modifier: KeyModifier::Plain });
    assert_eq!(screen.match_engine.pattern, "a");
    screen.handle_key(&KeyPress { code: Key::Backspace, modifier: KeyModifier::Plain });
    screen.handle_key(&KeyPress { code: Key::Backspace, modifier: KeyModifier::Plain });
    assert_eq!(screen.match_engine.pattern, "");
}

#[test]
fn paging_saturates_at_the_first_page() {
    let mut screen = WordRegex::new();
    screen.handle_key(&KeyPress { code: Key::Character('u'), modifier: KeyModifier::Control });
    assert_eq!(screen.current_page, 0);
    screen.handle_key(&KeyPress { code: Key::Character('d'), modifier: KeyModifier::Control });
    screen.handle_key(&KeyPress { code: Key::Character('d'), modifier: KeyModifier::Control });
    assert_eq!(screen.current_page, 2);
    screen.handle_key(&KeyPress { code: Key::Character('u'), modifier: KeyModifier::Control });
    assert_eq!(screen.current_page, 1);
    // Typing returns to the first page.
    screen.handle_key(&KeyPress { code: Key::Character('z'), modifier: KeyModifier::Plain });
    assert_eq!(screen.current_page, 0);
    assert_eq!(screen.match_engine.pattern, "z");
}

#[test]
fn quit_keys_leave_the_screen_unchanged() {
    let mut screen = WordRegex::new();
    screen.handle_key(&KeyPress { code: Key::Character('a'), modifier: KeyModifier::Plain });
    let quit = screen.handle_key(&KeyPress {
        code: Key::Character('c'),
        modifier: KeyModifier::Control,
    });
    assert!(quit);
    let quit = screen.handle_key(&KeyPress { code: Key::Escape, modifier: KeyModifier::Plain });
    assert!(quit);
    assert_eq!(screen.match_engine.pattern, "a");
}
