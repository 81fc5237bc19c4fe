//! The format of a log line: an ordered list of tokens, and the line that it
//! makes of the texts that the tokens stand for.

use vstd::prelude::*;
use crate::error::CallableError;

verus! {

/// One token of a logging format.
#[derive(Debug, Clone)]
pub enum LoggingFormatToken {
    /// Stands for the description of the handle.
    Handle,
    /// Stands for the description of the arguments.
    Args,
    /// Stands for the text of what the run produced.
    Output,
    /// Stands for itself.
    ArbitraryString(String),
}

/// A token as contracts see it: a literal is the characters that it holds.
pub enum Piece {
    Handle,
    Args,
    Output,
    Literal(Seq<char>),
}

impl View for LoggingFormatToken {
    type V = Piece;

    open spec fn view(&self) -> Piece {
        match self {
            LoggingFormatToken::Handle => Piece::Handle,
            LoggingFormatToken::Args => Piece::Args,
            LoggingFormatToken::Output => Piece::Output,
            LoggingFormatToken::ArbitraryString(text) => Piece::Literal(text@),
        }
    }
}

/// The pieces that a list of tokens stands for, in order.
pub open spec fn pieces(tokens: Seq<LoggingFormatToken>) -> Seq<Piece> {
    tokens.map_values(|token: LoggingFormatToken| token@)
}

/// The logging format of a callable: an ordered list of tokens, built once
/// and then read by every unit that refers to it.
#[derive(Debug, Clone)]
pub struct LoggingFormat {
    logging_format: Vec<LoggingFormatToken>,
}

pub type LoggingFormatBuilder = LoggingFormat;

impl View for LoggingFormat {
    type V = Seq<Piece>;

    closed spec fn view(&self) -> Seq<Piece> {
        pieces(self.logging_format@)
    }
}

impl std::ops::Deref for LoggingFormat {
    type Target = Vec<LoggingFormatToken>;

    fn deref(&self) -> (tokens: &Vec<LoggingFormatToken>)
        ensures
            pieces(tokens@) == self@,
    {
        &self.logging_format
    }
}

impl LoggingFormat {
    /// A format without tokens.
    pub fn new() -> (format: Self)
        ensures
            format@ == Seq::<Piece>::empty(),
    {
        LoggingFormat { logging_format: Vec::new() }
    }

    /// Appends the callable's handle to the end of the format.
    pub fn append_handle(self) -> (format: Self)
        ensures
            format@ == self@.push(Piece::Handle),
    {
        let mut format = self;
        format.logging_format.push(LoggingFormatToken::Handle);
        format
    }

    /// Appends the callable's arguments to the end of the format.
    pub fn append_args(self) -> (format: Self)
        ensures
            format@ == self@.push(Piece::Args),
    {
        let mut format = self;
        format.logging_format.push(LoggingFormatToken::Args);
        format
    }

    /// Appends the callable's output to the end of the format.
    pub fn append_output(self) -> (format: Self)
        ensures
            format@ == self@.push(Piece::Output),
    {
        let mut format = self;
        format.logging_format.push(LoggingFormatToken::Output);
        format
    }

    /// Appends a literal text to the end of the format.
    pub fn append_string(self, given_string: &str) -> (format: Self)
        ensures
            format@ == self@.push(Piece::Literal(given_string@)),
    {
        let mut format = self;
        format.logging_format.push(
            LoggingFormatToken::ArbitraryString(String::from_str(given_string)),
        );
        format
    }
}

/// The text that one piece contributes to a line, or the error that says
/// which description the piece needs and does not find.
pub open spec fn piece_text(
    piece: Piece,
    handle: Option<Seq<char>>,
    arguments: Option<Seq<char>>,
    output: Seq<char>,
) -> Result<Seq<char>, CallableError> {
    match piece {
        Piece::Handle => match handle {
            Some(text) => Ok(text),
            None => Err(CallableError::CallableHandleStringMissing),
        },
        Piece::Args => match arguments {
            Some(text) => Ok(text),
            None => Err(CallableError::CallableArgumentStringMissing),
        },
        Piece::Output => Ok(output),
        Piece::Literal(text) => Ok(text),
    }
}

/// The line that a list of pieces stands for: the texts of the pieces, one
/// after the other; or the error of the first piece that has no text.
pub open spec fn rendered(
    pieces: Seq<Piece>,
    handle: Option<Seq<char>>,
    arguments: Option<Seq<char>>,
    output: Seq<char>,
) -> Result<Seq<char>, CallableError>
    decreases pieces.len(),
{
    if pieces.len() == 0 {
        Ok(Seq::empty())
    } else {
        match rendered(pieces.drop_last(), handle, arguments, output) {
            Err(error) => Err(error),
            Ok(line) => match piece_text(pieces.last(), handle, arguments, output) {
                Ok(text) => Ok(line + text),
                Err(error) => Err(error),
            },
        }
    }
}

/// An error in the rendering of the first pieces of a list is the error of
/// the whole list.
pub proof fn lemma_rendered_error_stays(
    pieces: Seq<Piece>,
    n: int,
    handle: Option<Seq<char>>,
    arguments: Option<Seq<char>>,
    output: Seq<char>,
)
    requires
        0 <= n <= pieces.len(),
        rendered(pieces.take(n), handle, arguments, output) is Err,
    ensures
        rendered(pieces, handle, arguments, output) == rendered(
            pieces.take(n),
            handle,
            arguments,
            output,
        ),
    decreases pieces.len(),
{
    if n < pieces.len() {
        assert(pieces.drop_last().take(n) == pieces.take(n));
        lemma_rendered_error_stays(pieces.drop_last(), n, handle, arguments, output);
    } else {
        assert(pieces.take(n) == pieces);
    }
}

impl LoggingFormat {
    /// Renders one line: each token gives way to the text it stands for.
    /// Fails with the error of the first token whose description is absent.
    pub fn render(&self, handle: Option<&str>, arguments: Option<&str>, output: &str) -> (line:
        Result<String, CallableError>)
        ensures
            match line {
                Ok(text) => rendered(self@, texts(handle), texts(arguments), output@) == Ok::<
                    Seq<char>,
                    CallableError,
                >(text@),
                Err(error) => rendered(self@, texts(handle), texts(arguments), output@) == Err::<
                    Seq<char>,
                    CallableError,
                >(error),
            },
    {
        let ghost all = self@;
        let mut line = String::new();
        let mut i: usize = 0;
        while i < self.logging_format.len()
            invariant
                all == self@,
                i <= self.logging_format.len(),
                rendered(all.take(i as int), texts(handle), texts(arguments), output@) == Ok::<
                    Seq<char>,
                    CallableError,
                >(line@),
            decreases self.logging_format.len() - i,
        {
            let ghost before = all.take(i as int);
            let ghost after = all.take(i + 1);
            proof {
                assert(after.drop_last() == before);
                assert(after.last() == self.logging_format@[i as int]@);
            }
            match &self.logging_format[i] {
                LoggingFormatToken::Handle => match handle {
                    Some(text) => {
                        line.append(text);
                    },
                    None => {
                        proof {
                            lemma_rendered_error_stays(
                                all,
                                i + 1,
                                texts(handle),
                                texts(arguments),
                                output@,
                            );
                        }
                        return Err(CallableError::CallableHandleStringMissing);
                    },
                },
                LoggingFormatToken::Args => match arguments {
                    Some(text) => {
                        line.append(text);
                    },
                    None => {
                        proof {
                            lemma_rendered_error_stays(
                                all,
                                i + 1,
                                texts(handle),
                                texts(arguments),
                                output@,
                            );
                        }
                        return Err(CallableError::CallableArgumentStringMissing);
                    },
                },
                LoggingFormatToken::Output => {
                    line.append(output);
                },
                LoggingFormatToken::ArbitraryString(text) => {
                    line.append(text.as_str());
                },
            }
            i = i + 1;
        }
        proof {
            assert(all.take(i as int) == all);
        }
        Ok(line)
    }
}

/// The characters of an optional string slice.
pub open spec fn texts(text: Option<&str>) -> Option<Seq<char>> {
    match text {
        Some(text) => Some(text@),
        None => None,
    }
}

} // verus!
