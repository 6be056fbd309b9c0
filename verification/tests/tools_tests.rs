use textutils::catr;
use textutils::echor::echo;
use textutils::lessr::{Config, PagerError};
use textutils::source::Source;

fn owned(texts: &[&str]) -> Vec<String> {
    texts.iter().map(|text| text.to_string()).collect()
}

#[test]
fn a_dash_names_standard_input() {
    assert_eq!(Source::named("-"), Source::Stdin);
    assert!(Source::named("-").is_stdin());
    assert_eq!(Source::named("notes.txt"), Source::File("notes.txt".to_string()));
    assert_eq!(Source::named("--"), Source::File("--".to_string()));
    assert_eq!(Source::named("-a"), Source::File("-a".to_string()));
    assert_eq!(Source::named(""), Source::File(String::new()));
    assert_eq!(Source::named("–"), Source::File("–".to_string()));
    assert!(!Source::named("file").is_stdin());
}

#[test]
fn pager_settings() {
    let config = Config::new("notes.txt".to_string(), true);
    assert_eq!(config.file(), "notes.txt");
    assert!(config.line_number());
    assert_eq!(config.source(), Some(Source::File("notes.txt".to_string())));

    let config = Config::new("-".to_string(), false);
    assert!(!config.line_number());
    assert_eq!(config.source(), Some(Source::Stdin));

    let config = Config::new(String::new(), false);
    assert_eq!(config.source(), None);
}

#[test]
fn pager_settings_decide_the_numbering() {
    let source = owned(&["a", "b", "c"]);
    let plain = Config::new("f".to_string(), false).load(source.clone());
    assert_eq!(plain.lines(), &source[..]);
    let numbered = Config::new("f".to_string(), true).load(source);
    assert_eq!(numbered.lines(), &owned(&["     1\ta", "     2\tb", "     3\tc"])[..]);
}

#[test]
fn pager_failures() {
    let error = PagerError::SourceOpen {
        name: "missing.txt".to_string(),
        cause: "No such file or directory (os error 2)".to_string(),
    };
    assert!(!error.is_fatal());
    assert_eq!(
        error.message(),
        "Failed to open missing.txt : No such file or directory (os error 2)"
    );

    let error = PagerError::MalformedLine {
        cause: "stream did not contain valid UTF-8".to_string(),
    };
    assert!(error.is_fatal());
    assert_eq!(error.message(), "stream did not contain valid UTF-8");

    let error = PagerError::Terminal { cause: "not a terminal".to_string() };
    assert!(error.is_fatal());
    assert_eq!(error.message(), "not a terminal");
}

#[test]
fn cat_copies_lines_by_default() {
    let config = catr::Config::new(owned(&["-"]), false, false);
    assert_eq!(config.files(), &owned(&["-"])[..]);
    assert!(!config.number_lines());
    assert!(!config.number_nonblank_lines());
    let lines = owned(&["one", "", "three"]);
    assert_eq!(config.render(&lines), lines);
}

#[test]
fn cat_numbers_every_line() {
    let config = catr::Config::new(owned(&["f"]), true, false);
    assert!(config.number_lines());
    let lines = owned(&["one", "", "three"]);
    assert_eq!(config.render(&lines), owned(&["     1\tone", "     2\t", "     3\tthree"]));
}

#[test]
fn cat_numbers_lines_that_are_not_empty() {
    let config = catr::Config::new(owned(&["f"]), false, true);
    assert!(config.number_nonblank_lines());
    let lines = owned(&["", "one", "", "", "two", " ", ""]);
    assert_eq!(
        config.render(&lines),
        owned(&["", "     1\tone", "", "", "     2\ttwo", "     3\t ", ""])
    );
}

#[test]
fn cat_numbering_every_line_wins() {
    let config = catr::Config::new(owned(&["f"]), true, true);
    let lines = owned(&["", "one"]);
    assert_eq!(config.render(&lines), owned(&["     1\t", "     2\tone"]));
}

#[test]
fn cat_starts_counting_afresh() {
    let config = catr::Config::new(owned(&["a", "b"]), false, true);
    assert_eq!(config.render(&owned(&["x", "y"])), owned(&["     1\tx", "     2\ty"]));
    assert_eq!(config.render(&owned(&["z"])), owned(&["     1\tz"]));
    assert_eq!(config.render(&[].to_vec()), Vec::<String>::new());
}

#[test]
fn cat_writes_line_by_line() {
    let config = catr::Config::new(owned(&["f"]), false, true);
    let mut numbering = catr::Numbering::new();
    assert!(!numbering.is_full());
    assert_eq!(config.write_line(&mut numbering, ""), "");
    assert_eq!(config.write_line(&mut numbering, "a"), "     1\ta");
    assert_eq!(config.write_line(&mut numbering, ""), "");
    assert_eq!(config.write_line(&mut numbering, "b"), "     2\tb");

    let config = catr::Config::new(owned(&["f"]), true, false);
    assert_eq!(config.write_line(&mut numbering, "c"), "     5\tc");
    let mut numbering = catr::Numbering::new();
    assert_eq!(config.write_line(&mut numbering, ""), "     1\t");

    let config = catr::Config::new(owned(&["f"]), false, false);
    assert_eq!(config.write_line(&mut numbering, "plain"), "plain");
}

#[test]
fn echo_joins_words_with_spaces() {
    assert_eq!(echo(&owned(&["Hello", "there"]), false), "Hello there\n");
    assert_eq!(echo(&owned(&["Hello", "there"]), true), "Hello there");
    assert_eq!(echo(&owned(&["one"]), false), "one\n");
    assert_eq!(echo(&owned(&["a  b", "", "c"]), true), "a  b  c");
    assert_eq!(echo(&owned(&[]), false), "\n");
    assert_eq!(echo(&owned(&[]), true), "");
    let words = owned(&["x", "y", "z"]);
    assert_eq!(echo(&words, true), words.join(" "));
}
