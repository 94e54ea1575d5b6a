use gotest_runner::pattern::{declaration_matcher, PatternError};
use grep_searcher::sinks::UTF8;
use grep_searcher::Searcher;

fn matches(name: &str, text: &str) -> bool {
    let matcher = match declaration_matcher(name) {
        Ok(m) => m,
        Err(_) => panic!("pattern did not compile"),
    };
    let mut hit = false;
    Searcher::new()
        .search_slice(
            &matcher,
            text.as_bytes(),
            UTF8(|_, _| {
                hit = true;
                Ok(false)
            }),
        )
        .unwrap();
    hit
}

#[test]
fn declaration_with_testing_t_matches() {
    assert!(matches("TestBar", "package pkg\n\nfunc TestBar(t *testing.T) {}\n"));
}

#[test]
fn declaration_without_testing_t_does_not_match() {
    assert!(!matches("TestBar", "package pkg\n\nfunc TestBar() {}\n"));
    assert!(!matches("TestBar", "func TestBar(b *testing.B) {}\n"));
    assert!(!matches("TestBar", "func TestBaz(t *testing.T) {}\n"));
}

#[test]
fn invalid_pattern_is_reported() {
    match declaration_matcher("Test(") {
        Err(PatternError::Invalid { pattern }) => {
            assert_eq!(pattern, "func Test(\\(.* \\*testing.T\\)")
        }
        Ok(_) => panic!("an unbalanced parenthesis must not compile"),
    }
}
