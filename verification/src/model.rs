//! The mathematical model of the parser: what one character does to the row
//! under construction, and what a whole drive over the buffered characters
//! yields. The executable code in `parser` is specified against these
//! functions, and the laws in `laws` are proved of them.

use vstd::prelude::*;

verus! {

/// Transient outcome of classifying one character: keep going (`Continue`),
/// the lookahead queue is dry and the source must be polled (`Wait`), or a
/// row boundary was just reached (`EndOfRow`).
#[derive(Clone, Copy, Debug, PartialEq, Eq, Structural)]
pub enum State {
    Continue,
    Wait,
    EndOfRow,
}

/// How a drive over the buffered characters can end: a finished row (with
/// the characters left over after its line feed), a blank line (consumed,
/// never surfaced as a row), or an exhausted lookahead queue with the
/// pending field and row carried over to the next call.
pub enum ScanOutcome {
    Row { fields: Seq<Seq<char>>, rest: Seq<char> },
    Blank { rest: Seq<char> },
    NeedInput { acc: Seq<char>, row: Seq<Seq<char>> },
}

/// The fields a sequence of committed field strings stands for.
pub open spec fn rows_view(rows: Seq<String>) -> Seq<Seq<char>> {
    rows.map_values(|s: String| s@)
}

/// One classification step. Given the delimiter `d`, the character `c`, the
/// field accumulated so far and the fields already committed, it yields the
/// parser state together with the new accumulator and row:
/// - the delimiter commits the accumulator as a field (checked first, so a
///   delimiter of `\r` or `\n` takes precedence over the rules below);
/// - a carriage return is discarded;
/// - a line feed ends the row, committing the accumulator as the final
///   field unless the whole line was blank;
/// - anything else is appended to the accumulator.
pub open spec fn step(d: char, c: char, acc: Seq<char>, row: Seq<Seq<char>>) -> (State, Seq<
    char,
>, Seq<Seq<char>>) {
    if c == d {
        (State::Continue, Seq::<char>::empty(), row.push(acc))
    } else if c == '\r' {
        (State::Continue, acc, row)
    } else if c == '\n' {
        (
            State::EndOfRow,
            Seq::<char>::empty(),
            if acc.len() > 0 || row.len() > 0 {
                row.push(acc)
            } else {
                row
            },
        )
    } else {
        (State::Continue, acc.push(c), row)
    }
}

/// Drives `step` over the buffered characters until a row boundary or until
/// the buffer runs out, exactly as one `next_row` call does.
pub open spec fn scan(d: char, buf: Seq<char>, acc: Seq<char>, row: Seq<Seq<char>>) -> ScanOutcome
    decreases buf.len(),
{
    if buf.len() == 0 {
        ScanOutcome::NeedInput { acc, row }
    } else {
        let (st, acc2, row2) = step(d, buf[0], acc, row);
        let rest = buf.drop_first();
        if st == State::EndOfRow {
            if row2.len() > 0 {
                ScanOutcome::Row { fields: row2, rest }
            } else {
                ScanOutcome::Blank { rest }
            }
        } else {
            scan(d, rest, acc2, row2)
        }
    }
}

/// What starvation makes of the pending state: a non-empty accumulator is
/// committed as the trailing field; an empty one is not turned into a field.
pub open spec fn flush_pending(acc: Seq<char>, row: Seq<Seq<char>>) -> Seq<Seq<char>> {
    if acc.len() > 0 {
        row.push(acc)
    } else {
        row
    }
}

/// The collapsed result of one `next` call on the given pending state: the
/// row it returns (or nothing) and the characters left in the lookahead
/// queue afterwards. An exhausted queue counts as starvation here.
pub open spec fn next_outcome(d: char, buf: Seq<char>, acc: Seq<char>, row: Seq<Seq<char>>) -> (
    Option<Seq<Seq<char>>>,
    Seq<char>,
) {
    match scan(d, buf, acc, row) {
        ScanOutcome::Row { fields, rest } => (Some(fields), rest),
        ScanOutcome::Blank { rest } => (None, rest),
        ScanOutcome::NeedInput { acc: pending, row: ready } => {
            let fields = flush_pending(pending, ready);
            (
                if fields.len() > 0 {
                    Some(fields)
                } else {
                    None
                },
                Seq::<char>::empty(),
            )
        },
    }
}

/// The characters of `fields` joined with the delimiter `d` between them.
pub open spec fn join_fields(fields: Seq<Seq<char>>, d: char) -> Seq<char>
    decreases fields.len(),
{
    if fields.len() == 0 {
        Seq::<char>::empty()
    } else if fields.len() == 1 {
        fields[0]
    } else {
        fields[0] + seq![d] + join_fields(fields.drop_first(), d)
    }
}

/// `buf` with every carriage return removed.
pub open spec fn strip_cr(buf: Seq<char>) -> Seq<char>
    decreases buf.len(),
{
    if buf.len() == 0 {
        buf
    } else if buf[0] == '\r' {
        strip_cr(buf.drop_first())
    } else {
        seq![buf[0]] + strip_cr(buf.drop_first())
    }
}

/// Two scan outcomes that mean the same to the caller: the same fields, the
/// same blank line, or the same pending state — the leftover characters may
/// differ.
pub open spec fn same_result(a: ScanOutcome, b: ScanOutcome) -> bool {
    match (a, b) {
        (
            ScanOutcome::Row { fields: f1, rest: _ },
            ScanOutcome::Row { fields: f2, rest: _ },
        ) => f1 == f2,
        (ScanOutcome::Blank { rest: _ }, ScanOutcome::Blank { rest: _ }) => true,
        (
            ScanOutcome::NeedInput { acc: a1, row: r1 },
            ScanOutcome::NeedInput { acc: a2, row: r2 },
        ) => a1 == a2 && r1 == r2,
        _ => false,
    }
}

/// Committing a field string onto a row commits its characters onto the
/// row's fields.
pub proof fn lemma_rows_view_push(rows: Seq<String>, s: String)
    ensures
        rows_view(rows.push(s)) =~= rows_view(rows).push(s@),
{
}

} // verus!
