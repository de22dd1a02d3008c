//! The executable parser: a struct owning the lookahead queue, the field
//! accumulator and the row under construction, with `next_row` as the
//! driving operation. Every method is specified against the model in
//! `model`.

use crate::model::{flush_pending, lemma_rows_view_push, next_outcome, rows_view, scan, step,
    ScanOutcome, State};
use vstd::prelude::*;

verus! {

/// A parsed row: the fields of one line, in on-the-wire order.
pub type Row = Vec<String>;

/// Names the decoding that `core::str::from_utf8` performs: the characters
/// of a byte chunk when the bytes are valid UTF-8, and nothing when they
/// are not. The result depends on the bytes alone.
pub uninterp spec fn utf8_chars(bytes: Seq<u8>) -> Option<Seq<char>>;

/// Builds the field string from its characters.
/// Relies on `String`'s `FromIterator` impl: collecting `char`s yields the
/// string of exactly those characters, in order.
#[verifier::external_body]
fn chars_to_string(chars: Vec<char>) -> (s: String)
    ensures
        s@ == chars@,
{
    chars.into_iter().collect()
}

/// Relies on `core::str::from_utf8`: a chunk decodes to `utf8_chars` of its
/// bytes exactly when they are valid UTF-8, and fails otherwise.
#[verifier::external_body]
fn decode_chunk(bytes: &[u8]) -> (chars: Option<Vec<char>>)
    ensures
        chars is Some <==> utf8_chars(bytes@) is Some,
        chars matches Some(cs) ==> Some(cs@) == utf8_chars(bytes@),
{
    match core::str::from_utf8(bytes) {
        Ok(s) => Some(s.chars().collect()),
        Err(_) => None,
    }
}

/// What one `next_row` call produced: a finished row, a blank line
/// (consumed, but never surfaced as a row), or a request for more input —
/// the caller should feed another chunk, or accept starvation and call
/// `starve`.
#[derive(Debug)]
pub enum RowOutcome {
    Row(Row),
    BlankLine,
    NeedInput,
}

/// A streaming row parser. It holds the decoded characters not yet
/// classified, the field currently being accumulated and the fields already
/// committed to the row under construction; `next_row` drives the state
/// machine and pauses when the buffered input runs out, resuming on the
/// next call.
pub struct Parser {
    delim: char,
    buffer: Vec<char>,
    acc: Vec<char>,
    row: Vec<String>,
}

/// Creates a parser with the default `,` delimiter and empty buffers.
pub fn init() -> (p: Parser)
    ensures
        p.delim_char() == ',',
        p.lookahead() == Seq::<char>::empty(),
        p.partial_field() == Seq::<char>::empty(),
        p.partial_row() == Seq::<Seq<char>>::empty(),
{
    let p = Parser { delim: ',', buffer: Vec::new(), acc: Vec::new(), row: Vec::new() };
    proof {
        assert(p.partial_row() =~= Seq::<Seq<char>>::empty());
    }
    p
}

impl Parser {
    /// The configured field separator.
    pub closed spec fn delim_char(&self) -> char {
        self.delim
    }

    /// The decoded characters not yet classified.
    pub closed spec fn lookahead(&self) -> Seq<char> {
        self.buffer@
    }

    /// The characters of the field currently being accumulated.
    pub closed spec fn partial_field(&self) -> Seq<char> {
        self.acc@
    }

    /// The fields already committed to the row under construction.
    pub closed spec fn partial_row(&self) -> Seq<Seq<char>> {
        rows_view(self.row@)
    }

    /// Sets the field separator used for all subsequent parsing. Any
    /// character is accepted, a line terminator included — the choice is the
    /// caller's responsibility. Meant to be called before parsing begins.
    pub fn delim(&mut self, delim: char)
        ensures
            final(self).delim_char() == delim,
            final(self).lookahead() == old(self).lookahead(),
            final(self).partial_field() == old(self).partial_field(),
            final(self).partial_row() == old(self).partial_row(),
    {
        self.delim = delim;
    }

    /// Appends decoded characters to the lookahead queue.
    pub fn feed(&mut self, chunk: Vec<char>)
        ensures
            final(self).delim_char() == old(self).delim_char(),
            final(self).lookahead() == old(self).lookahead() + chunk@,
            final(self).partial_field() == old(self).partial_field(),
            final(self).partial_row() == old(self).partial_row(),
    {
        let mut chunk = chunk;
        self.buffer.append(&mut chunk);
    }

    /// Decodes a chunk of raw bytes and appends its characters to the
    /// lookahead queue. A chunk that is not valid UTF-8 is dropped whole
    /// and `false` comes back; the caller treats that as starvation.
    pub fn feed_bytes(&mut self, bytes: Vec<u8>) -> (ok: bool)
        ensures
            final(self).delim_char() == old(self).delim_char(),
            final(self).partial_field() == old(self).partial_field(),
            final(self).partial_row() == old(self).partial_row(),
            ok == (utf8_chars(bytes@) is Some),
            ok ==> final(self).lookahead() == old(self).lookahead() + utf8_chars(
                bytes@,
            ).unwrap(),
            !ok ==> final(self).lookahead() == old(self).lookahead(),
    {
        match decode_chunk(bytes.as_slice()) {
            Some(chars) => {
                self.feed(chars);
                true
            },
            None => false,
        }
    }

    /// Moves the accumulated characters into the row as one finished field
    /// and clears the accumulator.
    fn commit_field(&mut self)
        ensures
            final(self).delim_char() == old(self).delim_char(),
            final(self).lookahead() == old(self).lookahead(),
            final(self).partial_field() == Seq::<char>::empty(),
            final(self).partial_row() == old(self).partial_row().push(
                old(self).partial_field(),
            ),
    {
        let mut chars: Vec<char> = Vec::new();
        core::mem::swap(&mut chars, &mut self.acc);
        let field = chars_to_string(chars);
        self.row.push(field);
        proof {
            lemma_rows_view_push(old(self).row@, field);
            assert(self.partial_field() =~= Seq::<char>::empty());
        }
    }

    /// Folds one character into the row under construction and reports the
    /// resulting state: the delimiter commits the current field (checked
    /// before anything else, so a delimiter of `\r` or `\n` wins over the
    /// rules below); a carriage return is discarded; a line feed ends the
    /// row, committing the current field unless the whole line was blank;
    /// any other character is appended to the current field.
    pub fn parse_char(&mut self, c: char) -> (s: State)
        ensures
            final(self).delim_char() == old(self).delim_char(),
            final(self).lookahead() == old(self).lookahead(),
            ({
                let (st, acc2, row2) = step(
                    old(self).delim_char(),
                    c,
                    old(self).partial_field(),
                    old(self).partial_row(),
                );
                s == st && final(self).partial_field() == acc2 && final(self).partial_row()
                    == row2
            }),
    {
        if c == self.delim {
            self.commit_field();
            return State::Continue;
        }
        if c == '\r' {
            State::Continue
        } else if c == '\n' {
            if self.acc.len() > 0 || self.row.len() > 0 {
                self.commit_field();
            } else {
                proof {
                    assert(self.partial_field() =~= Seq::<char>::empty());
                }
            }
            State::EndOfRow
        } else {
            self.acc.push(c);
            State::Continue
        }
    }

    /// Takes the next buffered character and classifies it. With the queue
    /// empty it reports `Wait` without touching anything: the caller must
    /// feed more input, or accept starvation, before anything further can
    /// happen.
    pub fn parse_next_char(&mut self) -> (s: State)
        ensures
            final(self).delim_char() == old(self).delim_char(),
            old(self).lookahead().len() == 0 ==> s == State::Wait && final(self).lookahead()
                == old(self).lookahead() && final(self).partial_field() == old(
                self,
            ).partial_field() && final(self).partial_row() == old(self).partial_row(),
            old(self).lookahead().len() > 0 ==> final(self).lookahead() == old(
                self,
            ).lookahead().drop_first() && ({
                let (st, acc2, row2) = step(
                    old(self).delim_char(),
                    old(self).lookahead()[0],
                    old(self).partial_field(),
                    old(self).partial_row(),
                );
                s == st && final(self).partial_field() == acc2 && final(self).partial_row()
                    == row2
            }),
    {
        if self.buffer.len() == 0 {
            return State::Wait;
        }
        let c = self.buffer.remove(0);
        proof {
            assert(self.buffer@ =~= old(self).lookahead().drop_first());
        }
        self.parse_char(c)
    }

    /// Hands the finished row to the caller and resets the row buffer.
    pub fn extract_row(&mut self) -> (row: Row)
        ensures
            final(self).delim_char() == old(self).delim_char(),
            final(self).lookahead() == old(self).lookahead(),
            final(self).partial_field() == old(self).partial_field(),
            final(self).partial_row() == Seq::<Seq<char>>::empty(),
            rows_view(row@) == old(self).partial_row(),
    {
        let mut row: Row = Vec::new();
        core::mem::swap(&mut row, &mut self.row);
        proof {
            assert(self.partial_row() =~= Seq::<Seq<char>>::empty());
        }
        row
    }

    /// Called when the byte source is starved: commits a non-empty
    /// accumulator as the trailing field and yields the pending fields as a
    /// partial row, or nothing when none were pending.
    pub fn starve(&mut self) -> (r: Option<Row>)
        ensures
            final(self).delim_char() == old(self).delim_char(),
            final(self).lookahead() == old(self).lookahead(),
            final(self).partial_field() == Seq::<char>::empty(),
            final(self).partial_row() == Seq::<Seq<char>>::empty(),
            ({
                let fields = flush_pending(old(self).partial_field(), old(self).partial_row());
                if fields.len() > 0 {
                    r matches Some(row) && rows_view(row@) == fields
                } else {
                    r is None
                }
            }),
    {
        if self.acc.len() > 0 {
            self.commit_field();
        } else {
            proof {
                assert(self.partial_field() =~= Seq::<char>::empty());
            }
        }
        let row = self.extract_row();
        if row.len() > 0 {
            Some(row)
        } else {
            None
        }
    }

    /// Classifies buffered characters until a row boundary is reached or
    /// the lookahead queue runs out, and reports which: a finished row (at
    /// least one field, the row buffer reset), a blank line (nothing is
    /// yielded and no further input is consumed within this call), or a
    /// request for more input with the pending field and row kept for the
    /// next call.
    pub fn next_row(&mut self) -> (r: RowOutcome)
        ensures
            final(self).delim_char() == old(self).delim_char(),
            ({
                let outcome = scan(
                    old(self).delim_char(),
                    old(self).lookahead(),
                    old(self).partial_field(),
                    old(self).partial_row(),
                );
                match outcome {
                    ScanOutcome::Row { fields, rest } => {
                        &&& (r matches RowOutcome::Row(row) && rows_view(row@) == fields)
                        &&& final(self).lookahead() == rest
                        &&& final(self).partial_field() == Seq::<char>::empty()
                        &&& final(self).partial_row() == Seq::<Seq<char>>::empty()
                    },
                    ScanOutcome::Blank { rest } => {
                        &&& r is BlankLine
                        &&& final(self).lookahead() == rest
                        &&& final(self).partial_field() == Seq::<char>::empty()
                        &&& final(self).partial_row() == Seq::<Seq<char>>::empty()
                    },
                    ScanOutcome::NeedInput { acc, row } => {
                        &&& r is NeedInput
                        &&& final(self).lookahead() == Seq::<char>::empty()
                        &&& final(self).partial_field() == acc
                        &&& final(self).partial_row() == row
                    },
                }
            }),
    {
        loop
            invariant
                self.delim_char() == old(self).delim_char(),
                scan(self.delim_char(), self.lookahead(), self.partial_field(), self.partial_row())
                    == scan(
                    old(self).delim_char(),
                    old(self).lookahead(),
                    old(self).partial_field(),
                    old(self).partial_row(),
                ),
            decreases self.lookahead().len(),
        {
            let ghost prev = *self;
            let s = self.parse_next_char();
            match s {
                State::Wait => {
                    proof {
                        assert(prev.lookahead() =~= Seq::<char>::empty());
                    }
                    return RowOutcome::NeedInput;
                },
                State::EndOfRow => {
                    let row = self.extract_row();
                    if row.len() > 0 {
                        return RowOutcome::Row(row);
                    } else {
                        return RowOutcome::BlankLine;
                    }
                },
                State::Continue => {},
            }
        }
    }

    /// Drives the state machine until a row boundary or starvation, and
    /// yields the row or nothing. An exhausted lookahead queue counts as
    /// starvation here: any accumulated fields come back as a partial row,
    /// and a blank line yields nothing without consuming further input.
    /// Repeated calls resume where the previous call left off.
    pub fn next(&mut self) -> (r: Option<Row>)
        ensures
            final(self).delim_char() == old(self).delim_char(),
            final(self).partial_field() == Seq::<char>::empty(),
            final(self).partial_row() == Seq::<Seq<char>>::empty(),
            ({
                let (fields, rest) = next_outcome(
                    old(self).delim_char(),
                    old(self).lookahead(),
                    old(self).partial_field(),
                    old(self).partial_row(),
                );
                final(self).lookahead() == rest && (match fields {
                    Some(fs) => r matches Some(row) && rows_view(row@) == fs,
                    None => r is None,
                })
            }),
    {
        match self.next_row() {
            RowOutcome::Row(row) => Some(row),
            RowOutcome::BlankLine => None,
            RowOutcome::NeedInput => self.starve(),
        }
    }
}

} // verus!
