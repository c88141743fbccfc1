use vstd::prelude::*;

verus! {

/// Language in which the greeting is shown.
#[derive(Clone, Copy, Debug, PartialEq, Eq, Structural)]
pub enum Language {
    En,
    Ja,
}

/// The greeting itself, without its line end.
pub open spec fn greeting_text(language: Option<Language>) -> Seq<char> {
    match language {
        Some(Language::Ja) => seq!['こ', 'ん', 'に', 'ち', 'は'],
        _ => seq!['H', 'e', 'l', 'l', 'o'],
    }
}

/// A line of output: the text followed by a newline.
pub open spec fn line(text: Seq<char>) -> Seq<char> {
    text.push('\n')
}

/// The line printed for a language, or for no option at all.
pub fn greeting_line(language: Option<Language>) -> (r: String)
    ensures
        r@ == line(greeting_text(language)),
{
    let r = match language {
        Some(Language::Ja) => String::from_str("こんにちは\n"),
        _ => String::from_str("Hello\n"),
    };
    proof {
        reveal_strlit("こんにちは\n");
        reveal_strlit("Hello\n");
    }
    assert(r@ =~= line(greeting_text(language)));
    r
}

/// A character with Unicode's `White_Space` property.
pub open spec fn is_white_space(c: char) -> bool {
    ||| '\u{9}' <= c <= '\u{d}'
    ||| c == ' '
    ||| c == '\u{85}'
    ||| c == '\u{a0}'
    ||| c == '\u{1680}'
    ||| '\u{2000}' <= c <= '\u{200a}'
    ||| c == '\u{2028}'
    ||| c == '\u{2029}'
    ||| c == '\u{202f}'
    ||| c == '\u{205f}'
    ||| c == '\u{3000}'
}

/// The text with every whitespace character at its end removed.
pub open spec fn trimmed_end(s: Seq<char>) -> Seq<char>
    decreases s.len(),
{
    if s.len() > 0 && is_white_space(s.last()) {
        trimmed_end(s.drop_last())
    } else {
        s
    }
}

/// Relies on `str::trim_end`: the slice without its trailing characters
/// of the `White_Space` property.
#[verifier::external_body]
fn trim_end(s: &str) -> (r: &str)
    ensures
        r@ == trimmed_end(s@),
{
    s.trim_end()
}

/// The line printed for a file's content: the content without its
/// trailing whitespace, followed by a newline.
pub fn file_line(content: &str) -> (r: String)
    ensures
        r@ == line(trimmed_end(content@)),
{
    let mut r = trim_end(content).to_owned();
    r.append("\n");
    proof {
        reveal_strlit("\n");
    }
    assert(r@ =~= line(trimmed_end(content@)));
    r
}

/// Why a greeting could not be produced.
#[derive(Clone, Copy, Debug, PartialEq, Eq, Structural)]
pub enum GreetError {
    /// A language and a file were both given.
    Configuration,
    /// The file could not be read as text.
    Io,
}

/// The options of one `greet` command.
#[derive(Clone, Debug)]
pub struct Request {
    pub language: Option<Language>,
    pub file: Option<String>,
}

/// What the command does once its options are checked.
#[derive(Clone, Debug)]
pub enum Step {
    /// Print this line.
    Print(String),
    /// Read the file at this path and print its line.
    ReadFile(String),
}

/// The model of a `Step`, over character sequences.
pub enum StepModel {
    Print(Seq<char>),
    ReadFile(Seq<char>),
}

impl View for Step {
    type V = StepModel;

    open spec fn view(&self) -> StepModel {
        match self {
            Step::Print(text) => StepModel::Print(text@),
            Step::ReadFile(path) => StepModel::ReadFile(path@),
        }
    }
}

/// The characters of an optional string.
pub open spec fn opt_view(s: Option<String>) -> Option<Seq<char>> {
    match s {
        Some(t) => Some(t@),
        None => None,
    }
}

/// The step that options lead to: a language and a file exclude each other;
/// without a file the greeting of the language (English by default) is
/// printed; with a file alone that file is read.
pub open spec fn step_for(language: Option<Language>, file: Option<Seq<char>>) -> Result<
    StepModel,
    GreetError,
> {
    match (language, file) {
        (Some(_), Some(_)) => Err(GreetError::Configuration),
        (None, Some(path)) => Ok(StepModel::ReadFile(path)),
        (_, None) => Ok(StepModel::Print(line(greeting_text(language)))),
    }
}

/// The line printed after a file read: its trimmed content, or an error
/// where the read failed.
pub open spec fn line_for_read(content: Option<Seq<char>>) -> Result<Seq<char>, GreetError> {
    match content {
        Some(c) => Ok(line(trimmed_end(c))),
        None => Err(GreetError::Io),
    }
}

/// What the whole command prints, given what reading the file would give.
pub open spec fn output(
    language: Option<Language>,
    file: Option<Seq<char>>,
    content: Option<Seq<char>>,
) -> Result<Seq<char>, GreetError> {
    match step_for(language, file) {
        Err(e) => Err(e),
        Ok(StepModel::Print(text)) => Ok(text),
        Ok(StepModel::ReadFile(_)) => line_for_read(content),
    }
}

impl Request {
    /// Checks the options and says what to print or which file to read.
    pub fn resolve(self) -> (r: Result<Step, GreetError>)
        ensures
            match r {
                Ok(step) => step_for(self.language, opt_view(self.file)) == Ok::<
                    StepModel,
                    GreetError,
                >(step@),
                Err(e) => step_for(self.language, opt_view(self.file)) == Err::<
                    StepModel,
                    GreetError,
                >(e),
            },
            (self.language is Some && self.file is Some) <==> r is Err,
    {
        match (self.language, self.file) {
            (Some(_), Some(_)) => Err(GreetError::Configuration),
            (None, Some(path)) => Ok(Step::ReadFile(path)),
            (language, None) => Ok(Step::Print(greeting_line(language))),
        }
    }
}

/// The line printed for the result of reading the file: `None` stands for a
/// failed read.
pub fn file_output(content: Option<String>) -> (r: Result<String, GreetError>)
    ensures
        match r {
            Ok(text) => line_for_read(opt_view(content)) == Ok::<Seq<char>, GreetError>(text@),
            Err(e) => line_for_read(opt_view(content)) == Err::<Seq<char>, GreetError>(e),
        },
        content is Some <==> r is Ok,
{
    match content {
        Some(c) => Ok(file_line(c.as_str())),
        None => Err(GreetError::Io),
    }
}

} // verus!
