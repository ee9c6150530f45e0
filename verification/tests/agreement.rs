use kata::lines::lines;
use kata::numbers::read_number;
use kata::search::{search, search_case_insensitive};
use kata::substring::contains;
use kata::words::first_word;

/// A small generator of the same texts on every run.
struct Texts {
    state: u64,
}

impl Texts {
    fn new(seed: u64) -> Texts {
        Texts { state: seed }
    }

    fn number(&mut self, below: u64) -> u64 {
        self.state = self
            .state
            .wrapping_mul(6364136223846793005)
            .wrapping_add(1442695040888963407);
        (self.state >> 33) % below
    }

    fn text(&mut self, alphabet: &[char], longest: u64) -> String {
        let length = self.number(longest + 1);
        (0..length)
            .map(|_| alphabet[self.number(alphabet.len() as u64) as usize])
            .collect()
    }
}

#[test]
fn lines_agree_with_the_standard_library_on_many_texts() {
    let alphabet = ['a', 'b', '\n', '\n', '\r', ' ', 'é', '\u{2028}', '𝄞'];
    let mut texts = Texts::new(1);
    for _ in 0..20000 {
        let text = texts.text(&alphabet, 12);
        let expected: Vec<&str> = text.lines().collect();
        assert_eq!(lines(&text), expected, "on {:?}", text);
    }
}

#[test]
fn contains_agrees_with_the_standard_library_on_many_texts() {
    let alphabet = ['a', 'b', 'é', 'è'];
    let mut texts = Texts::new(2);
    for _ in 0..20000 {
        let haystack = texts.text(&alphabet, 8);
        let needle = texts.text(&alphabet, 3);
        assert_eq!(
            contains(&haystack, &needle),
            haystack.contains(needle.as_str()),
            "{:?} in {:?}",
            needle,
            haystack
        );
    }
}

#[test]
fn searches_agree_with_a_search_by_the_standard_library() {
    let alphabet = ['a', 'A', 'b', 'B', 'ß', 'Σ', 'σ', '\n', '\n', '\r'];
    let mut texts = Texts::new(3);
    for _ in 0..20000 {
        let contents = texts.text(&alphabet, 14);
        let query = texts.text(&['a', 'A', 'b', 'B', 'Σ', 'σ'], 2);
        let exact: Vec<&str> = contents.lines().filter(|l| l.contains(query.as_str())).collect();
        assert_eq!(search(&query, &contents), exact, "{:?} in {:?}", query, contents);
        let lower = query.to_lowercase();
        let folded: Vec<&str> = contents
            .lines()
            .filter(|l| l.to_lowercase().contains(lower.as_str()))
            .collect();
        assert_eq!(
            search_case_insensitive(&query, &contents),
            folded,
            "{:?} in {:?}",
            query,
            contents
        );
    }
}

#[test]
fn first_words_agree_with_a_split_at_the_first_space() {
    let alphabet = ['a', 'é', ' ', ' ', '\t', '\u{a0}', '\n'];
    let mut texts = Texts::new(4);
    for _ in 0..20000 {
        let text = texts.text(&alphabet, 8);
        let expected = text.split(' ').next().unwrap_or("");
        assert_eq!(first_word(&text), expected, "on {:?}", text);
    }
}

#[test]
fn numbers_agree_with_trim_and_parse_on_many_texts() {
    let alphabet = ['0', '1', '9', '4', '+', '-', ' ', '\n', '\u{a0}', 'x'];
    let mut texts = Texts::new(5);
    for _ in 0..50000 {
        let text = texts.text(&alphabet, 12);
        assert_eq!(read_number(&text), text.trim().parse::<u32>().ok(), "on {:?}", text);
    }
}
