use greeter::{file_line, file_output, greeting_line, GreetError, Language, Request, Step};

fn run(request: Request, content: Option<&str>) -> Result<String, GreetError> {
    match request.resolve()? {
        Step::Print(text) => Ok(text),
        Step::ReadFile(_) => file_output(content.map(|c| c.to_string())),
    }
}

fn request(language: Option<Language>, file: Option<&str>) -> Request {
    Request { language, file: file.map(|f| f.to_string()) }
}

#[test]
fn greet_without_arguments() {
    assert_eq!(run(request(None, None), None), Ok("Hello\n".to_string()));
}

#[test]
fn greet_with_option_lang_en() {
    assert_eq!(run(request(Some(Language::En), None), None), Ok("Hello\n".to_string()));
}

#[test]
fn greet_with_option_lang_ja() {
    assert_eq!(run(request(Some(Language::Ja), None), None), Ok("こんにちは\n".to_string()));
}

#[test]
fn greet_with_option_file_see_you() {
    let r = request(None, Some("tests/data/see_you.txt"));
    assert_eq!(run(r, Some("See you!  \n\n")), Ok("See you!\n".to_string()));
}

#[test]
fn greet_with_language_and_file() {
    let r = request(Some(Language::Ja), Some("foo.txt"));
    assert_eq!(run(r, Some("anything")), Err(GreetError::Configuration));
}

#[test]
fn english_with_file_is_refused() {
    let r = request(Some(Language::En), Some("foo.txt"));
    assert!(matches!(r.resolve(), Err(GreetError::Configuration)));
}

#[test]
fn file_alone_asks_for_that_file() {
    match request(None, Some("dir/hello world.txt")).resolve() {
        Ok(Step::ReadFile(path)) => assert_eq!(path, "dir/hello world.txt"),
        other => panic!("unexpected step {:?}", other),
    }
}

#[test]
fn language_alone_prints_without_reading() {
    match request(Some(Language::Ja), None).resolve() {
        Ok(Step::Print(text)) => assert_eq!(text, "こんにちは\n"),
        other => panic!("unexpected step {:?}", other),
    }
}

#[test]
fn failed_read_is_an_io_error() {
    assert_eq!(file_output(None), Err(GreetError::Io));
    let r = request(None, Some("missing.txt"));
    assert_eq!(run(r, None), Err(GreetError::Io));
}

#[test]
fn greeting_lines() {
    assert_eq!(greeting_line(None), "Hello\n");
    assert_eq!(greeting_line(Some(Language::En)), "Hello\n");
    assert_eq!(greeting_line(Some(Language::Ja)), "こんにちは\n");
}

#[test]
fn trailing_whitespace_only_at_the_end_is_trimmed() {
    assert_eq!(file_line("  Hello, world! \t\r\n"), "  Hello, world!\n");
    assert_eq!(file_line("a \n b\n"), "a \n b\n");
}

#[test]
fn content_without_trailing_whitespace_is_kept() {
    assert_eq!(file_line("See you!"), "See you!\n");
}

#[test]
fn empty_and_blank_content_give_an_empty_line() {
    assert_eq!(file_line(""), "\n");
    assert_eq!(file_line(" \t\n\n "), "\n");
}

#[test]
fn unicode_whitespace_is_trimmed() {
    assert_eq!(file_line("x\u{3000}\u{a0}\u{2029}\u{85}"), "x\n");
    assert_eq!(file_line("x\u{200b}"), "x\u{200b}\n");
}

#[test]
fn repeated_runs_give_the_same_output() {
    for (language, file, content) in [
        (None, None, None),
        (Some(Language::En), None, None),
        (Some(Language::Ja), None, None),
        (None, Some("see_you.txt"), Some("See you!  \n\n")),
        (None, Some("missing.txt"), None),
        (Some(Language::Ja), Some("foo.txt"), Some("x")),
    ] {
        let first = run(request(language, file), content);
        let second = run(request(language, file), content);
        assert_eq!(first, second);
    }
}
