use vstd::prelude::*;
use crate::greeter::{line_for_read, output, opt_view, GreetError, Language, Request};

verus! {

/// Without options the command prints `Hello` and a newline, with
/// `--language en` the same, and with `--language ja` the Japanese greeting
/// and a newline, whatever the file system holds.
pub proof fn lemma_language_lines(content: Option<Seq<char>>)
    ensures
        output(None, None, content) == Ok::<Seq<char>, GreetError>(
            seq!['H', 'e', 'l', 'l', 'o', '\n'],
        ),
        output(Some(Language::En), None, content) == Ok::<Seq<char>, GreetError>(
            seq!['H', 'e', 'l', 'l', 'o', '\n'],
        ),
        output(Some(Language::Ja), None, content) == Ok::<Seq<char>, GreetError>(
            seq!['こ', 'ん', 'に', 'ち', 'は', '\n'],
        ),
{
    assert(seq!['H', 'e', 'l', 'l', 'o'].push('\n') =~= seq!['H', 'e', 'l', 'l', 'o', '\n']);
    assert(seq!['こ', 'ん', 'に', 'ち', 'は'].push('\n') =~= seq![
        'こ',
        'ん',
        'に',
        'ち',
        'は',
        '\n',
    ]);
}

/// A language together with a file is refused as a configuration error,
/// so nothing is printed, whatever the file holds.
pub proof fn lemma_language_and_file_refused(
    language: Language,
    file: Seq<char>,
    content: Option<Seq<char>>,
)
    ensures
        output(Some(language), Some(file), content) == Err::<Seq<char>, GreetError>(
            GreetError::Configuration,
        ),
{
}

/// With a file alone the command prints what reading it gave, trimmed and
/// ended by a newline, and fails with an I/O error where the read failed.
pub proof fn lemma_file_line(file: Seq<char>, content: Option<Seq<char>>)
    ensures
        output(None, Some(file), content) == line_for_read(content),
        content is None ==> output(None, Some(file), content) == Err::<Seq<char>, GreetError>(
            GreetError::Io,
        ),
{
}

/// Two runs with the same options and the same file content print the same
/// output or fail with the same error.
pub proof fn lemma_repeat_same_output(
    a: Request,
    b: Request,
    content_a: Option<String>,
    content_b: Option<String>,
)
    requires
        a.language == b.language,
        opt_view(a.file) == opt_view(b.file),
        opt_view(content_a) == opt_view(content_b),
    ensures
        output(a.language, opt_view(a.file), opt_view(content_a)) == output(
            b.language,
            opt_view(b.file),
            opt_view(content_b),
        ),
{
}

} // verus!
