use slog_error_chain::render;
use slog_error_chain::{ChainedError, InlineErrorChain};
use std::error::Error;
use std::fmt;
use std::io;

#[derive(Debug)]
enum ErrorA {
    A(io::Error),
}

impl fmt::Display for ErrorA {
    fn fmt(&self, f: &mut fmt::Formatter<'_>) -> fmt::Result {
        f.write_str("error a")
    }
}

impl Error for ErrorA {
    fn source(&self) -> Option<&(dyn Error + 'static)> {
        match self {
            ErrorA::A(source) => Some(source),
        }
    }
}

#[derive(Debug)]
enum ErrorB {
    B(ErrorA),
}

impl fmt::Display for ErrorB {
    fn fmt(&self, f: &mut fmt::Formatter<'_>) -> fmt::Result {
        f.write_str("error b")
    }
}

impl Error for ErrorB {
    fn source(&self) -> Option<&(dyn Error + 'static)> {
        match self {
            ErrorB::B(source) => Some(source),
        }
    }
}

/// The display strings of `err` and of its sources, as a `ChainedError`.
fn chained(err: &dyn Error) -> ChainedError {
    match err.source() {
        None => ChainedError::new(err.to_string()),
        Some(source) => ChainedError::with_source(err.to_string(), chained(source)),
    }
}

fn error(message: &str) -> ChainedError {
    ChainedError::new(message.to_string())
}

fn caused(message: &str, source: ChainedError) -> ChainedError {
    ChainedError::with_source(message.to_string(), source)
}

#[test]
fn inline_error_chain_formatting() {
    let err = io::Error::new(io::ErrorKind::Other, "test error");
    assert_eq!(InlineErrorChain::new(&chained(&err)).to_string(), "test error");

    let err = ErrorA::A(err);
    assert_eq!(
        InlineErrorChain::new(&chained(&err)).to_string(),
        "error a: test error"
    );

    let err = ErrorB::B(err);
    assert_eq!(
        InlineErrorChain::new(&chained(&err)).to_string(),
        "error b: error a: test error"
    );
}

#[test]
fn inline_formatting_of_errors_built_by_hand() {
    let err = error("test error");
    assert_eq!(InlineErrorChain::new(&err).to_string(), "test error");

    let err = caused("error a", err);
    assert_eq!(
        InlineErrorChain::new(&err).to_string(),
        "error a: test error"
    );

    let err = caused("error b", err);
    assert_eq!(
        InlineErrorChain::new(&err).to_string(),
        "error b: error a: test error"
    );
}

#[test]
fn inline_single_error_has_no_separator() {
    let err = error("disk full");
    let text = InlineErrorChain::new(&err).to_string();
    assert_eq!(text, "disk full");
    assert_eq!(text, err.display());
    assert!(!text.contains(": "));
}

#[test]
fn inline_joins_in_chain_order() {
    let err = caused("first", caused("second", caused("third", error("fourth"))));
    assert_eq!(
        InlineErrorChain::new(&err).to_string(),
        "first: second: third: fourth"
    );
}

#[test]
fn inline_has_no_leading_or_trailing_separator() {
    let err = caused("outer", caused("middle", error("inner")));
    let text = InlineErrorChain::new(&err).to_string();
    assert!(text.starts_with("outer"));
    assert!(text.ends_with("inner"));
    assert_eq!(text.matches(": ").count(), 2);
    assert_eq!(text.len(), "outer".len() + "middle".len() + "inner".len() + 2 * 2);
}

#[test]
fn inline_keeps_empty_display_strings() {
    let err = error("");
    assert_eq!(InlineErrorChain::new(&err).to_string(), "");

    let err = caused("", error(""));
    assert_eq!(InlineErrorChain::new(&err).to_string(), ": ");

    let err = caused("outer", caused("", error("inner")));
    assert_eq!(InlineErrorChain::new(&err).to_string(), "outer: : inner");
}

#[test]
fn inline_does_not_escape_display_strings() {
    let err = caused("read: failed", error("os error: 5"));
    assert_eq!(
        InlineErrorChain::new(&err).to_string(),
        "read: failed: os error: 5"
    );
}

#[test]
fn inline_keeps_characters_outside_ascii() {
    let err = caused("échec de lecture", error("ディスクがいっぱいです"));
    assert_eq!(
        InlineErrorChain::new(&err).to_string(),
        "échec de lecture: ディスクがいっぱいです"
    );
}

#[test]
fn inline_rendering_is_repeatable() {
    let err = caused("error b", caused("error a", error("test error")));
    let chain = InlineErrorChain::new(&err);
    let first = chain.to_string();
    let second = chain.to_string();
    assert_eq!(first, second);
    assert_eq!(InlineErrorChain::new(&err).to_string(), first);
}

#[test]
fn inline_unfolds_along_the_source() {
    let err = caused("error b", caused("error a", error("test error")));
    let cause = err.source().unwrap();
    let expected = format!(
        "{}: {}",
        err.display(),
        InlineErrorChain::new(cause).to_string()
    );
    assert_eq!(InlineErrorChain::new(&err).to_string(), expected);
}

#[test]
fn inline_text_can_be_cut_at_any_cause() {
    let displays = ["first", "second", "third", "fourth"];
    let err = caused("first", caused("second", caused("third", error("fourth"))));
    let whole = InlineErrorChain::new(&err).to_string();
    let errors = err.chain();
    for at in 1..displays.len() {
        let mut above = error(displays[at - 1]);
        for display in displays[..at - 1].iter().rev() {
            above = caused(display, above);
        }
        let cut = format!(
            "{}: {}",
            InlineErrorChain::new(&above).to_string(),
            InlineErrorChain::new(errors[at]).to_string()
        );
        assert_eq!(whole, cut);
    }
}

#[test]
fn inline_renders_a_long_chain() {
    let mut err = error("e0");
    let mut expected = String::from("e0");
    for i in 1..200 {
        let message = format!("e{i}");
        expected = format!("{message}: {expected}");
        err = ChainedError::with_source(message, err);
    }
    assert_eq!(InlineErrorChain::new(&err).to_string(), expected);
}

#[test]
fn push_cause_appends_separator_and_cause() {
    let mut text = String::from("error a");
    render::push_cause(&mut text, "test error");
    assert_eq!(text, "error a: test error");

    let mut text = String::new();
    render::push_cause(&mut text, "");
    assert_eq!(text, ": ");
}
