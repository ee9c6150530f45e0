use kata::config::{run, Config, NOT_ENOUGH_ARGUMENTS};

fn args(words: &[&str]) -> Vec<String> {
    words.iter().map(|w| w.to_string()).collect()
}

#[test]
fn config_takes_query_and_filename() {
    let config = Config::new(&args(&["minigrep", "duct", "poem.txt"]), true).unwrap();
    assert_eq!(config.query, "duct");
    assert_eq!(config.filename, "poem.txt");
    assert!(config.case_sensitive);
}

#[test]
fn config_ignores_further_arguments() {
    let config = Config::new(&args(&["minigrep", "q", "f", "extra"]), false).unwrap();
    assert_eq!(config.query, "q");
    assert_eq!(config.filename, "f");
    assert!(!config.case_sensitive);
}

#[test]
fn config_needs_three_arguments() {
    for given in [&[][..], &["minigrep"][..], &["minigrep", "query"][..]] {
        match Config::new(&args(given), true) {
            Err(message) => {
                assert_eq!(message, NOT_ENOUGH_ARGUMENTS);
                assert_eq!(
                    message,
                    "Not enough arguments, please specify: `query` and `filename`"
                );
            }
            Ok(_) => panic!("accepted {} arguments", given.len()),
        }
    }
}

#[test]
fn run_searches_as_the_settings_say() {
    let contents = "Rust:\nsafe, fast, productive.\nPick three.\nTrust me.";
    let exact = Config::new(&args(&["minigrep", "rUsT", "poem.txt"]), true).unwrap();
    assert_eq!(run(&exact, contents), Vec::<&str>::new());
    let folded = Config::new(&args(&["minigrep", "rUsT", "poem.txt"]), false).unwrap();
    assert_eq!(run(&folded, contents), vec!["Rust:", "Trust me."]);
    let duct = Config::new(&args(&["minigrep", "duct", "other.txt"]), true).unwrap();
    assert_eq!(run(&duct, contents), vec!["safe, fast, productive."]);
}
