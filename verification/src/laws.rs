//! Laws of the parser, proved of the model: the round trip between joining
//! and parsing, the invisibility of carriage returns, and what starvation
//! and blank lines yield.

use crate::model::{join_fields, next_outcome, same_result, scan, strip_cr};
use vstd::prelude::*;

verus! {

/// Characters that carry no meaning for the state machine under delimiter
/// `d`: none of them is the delimiter, a line feed or a carriage return.
pub open spec fn plain_chars(cs: Seq<char>, d: char) -> bool {
    forall|i: int| 0 <= i < cs.len() ==> cs[i] != d && cs[i] != '\n' && cs[i] != '\r'
}

/// Scanning across plain characters only moves them into the accumulator.
proof fn lemma_scan_plain_prefix(
    d: char,
    cs: Seq<char>,
    tail: Seq<char>,
    acc: Seq<char>,
    row: Seq<Seq<char>>,
)
    requires
        plain_chars(cs, d),
    ensures
        scan(d, cs + tail, acc, row) == scan(d, tail, acc + cs, row),
    decreases cs.len(),
{
    if cs.len() == 0 {
        assert(cs + tail =~= tail);
        assert(acc + cs =~= acc);
    } else {
        let c = cs[0];
        assert((cs + tail)[0] == c);
        assert((cs + tail).drop_first() =~= cs.drop_first() + tail);
        assert forall|i: int| 0 <= i < cs.drop_first().len() implies cs.drop_first()[i] != d
            && cs.drop_first()[i] != '\n' && cs.drop_first()[i] != '\r' by {
            assert(cs.drop_first()[i] == cs[i + 1]);
        }
        lemma_scan_plain_prefix(d, cs.drop_first(), tail, acc.push(c), row);
        assert(acc.push(c) + cs.drop_first() =~= acc + cs);
    }
}

/// Scanning across joined fields commits all but the last and leaves the
/// last in the accumulator.
proof fn lemma_scan_joined(d: char, fields: Seq<Seq<char>>, tail: Seq<char>, row: Seq<Seq<char>>)
    requires
        fields.len() >= 1,
        forall|i: int| 0 <= i < fields.len() ==> plain_chars(#[trigger] fields[i], d),
    ensures
        scan(d, join_fields(fields, d) + tail, Seq::<char>::empty(), row) == scan(
            d,
            tail,
            fields.last(),
            row + fields.drop_last(),
        ),
    decreases fields.len(),
{
    if fields.len() == 1 {
        lemma_scan_plain_prefix(d, fields[0], tail, Seq::<char>::empty(), row);
        assert(Seq::<char>::empty() + fields[0] =~= fields[0]);
        assert(row + fields.drop_last() =~= row);
    } else {
        let rest_fields = fields.drop_first();
        let j = join_fields(rest_fields, d);
        lemma_scan_plain_prefix(d, fields[0], seq![d] + j + tail, Seq::<char>::empty(), row);
        assert(join_fields(fields, d) + tail =~= fields[0] + (seq![d] + j + tail));
        assert(Seq::<char>::empty() + fields[0] =~= fields[0]);
        assert((seq![d] + j + tail)[0] == d);
        assert((seq![d] + j + tail).drop_first() =~= j + tail);
        assert forall|i: int| 0 <= i < rest_fields.len() implies plain_chars(
            #[trigger] rest_fields[i],
            d,
        ) by {
            assert(rest_fields[i] == fields[i + 1]);
        }
        lemma_scan_joined(d, rest_fields, tail, row.push(fields[0]));
        assert(rest_fields.last() == fields.last());
        assert(row.push(fields[0]) + rest_fields.drop_last() =~= row + fields.drop_last());
    }
}

/// Round trip: joining at least one field with the delimiter, terminating
/// the line with a line feed and parsing reproduces the fields, in order,
/// as exactly one row, consuming the whole input. A single empty field is
/// left out: its line is a blank line, which yields no row.
pub proof fn lemma_round_trip(d: char, fields: Seq<Seq<char>>)
    requires
        d != '\n',
        fields.len() >= 1,
        !(fields.len() == 1 && fields[0].len() == 0),
        forall|i: int| 0 <= i < fields.len() ==> plain_chars(#[trigger] fields[i], d),
    ensures
        next_outcome(
            d,
            join_fields(fields, d) + seq!['\n'],
            Seq::<char>::empty(),
            Seq::<Seq<char>>::empty(),
        ) == (Some(fields), Seq::<char>::empty()),
{
    lemma_scan_joined(d, fields, seq!['\n'], Seq::<Seq<char>>::empty());
    assert(Seq::<Seq<char>>::empty() + fields.drop_last() =~= fields.drop_last());
    assert((seq!['\n'])[0] == '\n');
    assert((seq!['\n']).drop_first() =~= Seq::<char>::empty());
    if fields.len() == 1 {
        assert(fields.last().len() > 0);
    } else {
        assert(fields.drop_last().len() > 0);
    }
    assert(fields.drop_last().push(fields.last()) =~= fields);
}

/// A row with no trailing line terminator is not lost: when the source
/// starves, the fields accumulated so far come back as one final partial
/// row, and the parser is left with nothing pending, so a further call
/// yields nothing. The last field must be non-empty: a trailing empty field
/// has nothing accumulated for it when starvation strikes.
pub proof fn lemma_unterminated_row(d: char, fields: Seq<Seq<char>>)
    requires
        fields.len() >= 1,
        fields.last().len() > 0,
        forall|i: int| 0 <= i < fields.len() ==> plain_chars(#[trigger] fields[i], d),
    ensures
        next_outcome(
            d,
            join_fields(fields, d),
            Seq::<char>::empty(),
            Seq::<Seq<char>>::empty(),
        ) == (Some(fields), Seq::<char>::empty()),
{
    lemma_scan_joined(d, fields, Seq::<char>::empty(), Seq::<Seq<char>>::empty());
    assert(join_fields(fields, d) + Seq::<char>::empty() =~= join_fields(fields, d));
    assert(Seq::<Seq<char>>::empty() + fields.drop_last() =~= fields.drop_last());
    assert(fields.drop_last().push(fields.last()) =~= fields);
}

/// Three fields of plain characters, comma-separated and ended by a line
/// feed, parse as exactly one row holding those three fields.
pub proof fn lemma_comma_row(a: Seq<char>, b: Seq<char>, c: Seq<char>)
    requires
        plain_chars(a, ','),
        plain_chars(b, ','),
        plain_chars(c, ','),
    ensures
        next_outcome(
            ',',
            a + seq![','] + b + seq![','] + c + seq!['\n'],
            Seq::<char>::empty(),
            Seq::<Seq<char>>::empty(),
        ) == (Some(seq![a, b, c]), Seq::<char>::empty()),
{
    let fields = seq![a, b, c];
    assert(fields[0] == a && fields[1] == b && fields[2] == c);
    assert(fields.drop_first() =~= seq![b, c]);
    assert(fields.drop_first().drop_first() =~= seq![c]);
    assert(join_fields(seq![c], ',') == c);
    assert(join_fields(seq![b, c], ',') == b + seq![','] + c);
    assert(join_fields(fields, ',') == a + seq![','] + (b + seq![','] + c));
    assert(join_fields(fields, ',') + seq!['\n'] =~= a + seq![','] + b + seq![','] + c
        + seq!['\n']);
    lemma_round_trip(',', fields);
}

/// Carriage returns are invisible: scanning a buffer and scanning the same
/// buffer with every carriage return removed reach the same outcome — the
/// same fields, the same blank line, or the same pending state. A carriage
/// return neither lands in a field nor causes a spurious field break, so a
/// bare `\r\n` ends a row just as `\n` alone does.
pub proof fn lemma_cr_discarded(d: char, buf: Seq<char>, acc: Seq<char>, row: Seq<Seq<char>>)
    requires
        d != '\r',
    ensures
        same_result(scan(d, buf, acc, row), scan(d, strip_cr(buf), acc, row)),
    decreases buf.len(),
{
    if buf.len() > 0 {
        let c = buf[0];
        let rest = buf.drop_first();
        if c == '\r' {
            lemma_cr_discarded(d, rest, acc, row);
        } else {
            assert((seq![c] + strip_cr(rest))[0] == c);
            assert((seq![c] + strip_cr(rest)).drop_first() =~= strip_cr(rest));
            if c == d {
                lemma_cr_discarded(d, rest, Seq::<char>::empty(), row.push(acc));
            } else if c != '\n' {
                lemma_cr_discarded(d, rest, acc.push(c), row);
            }
        }
    }
}

/// Carriage returns are invisible to the caller as well: one call yields
/// the same row, or the same absence of one, whether or not the buffered
/// input carries them.
pub proof fn lemma_cr_discarded_outcome(
    d: char,
    buf: Seq<char>,
    acc: Seq<char>,
    row: Seq<Seq<char>>,
)
    requires
        d != '\r',
    ensures
        next_outcome(d, buf, acc, row).0 == next_outcome(d, strip_cr(buf), acc, row).0,
{
    lemma_cr_discarded(d, buf, acc, row);
}

/// An empty input yields nothing: with nothing buffered, nothing
/// accumulated and no fields committed, a call comes back empty-handed and
/// leaves the parser in the same bare state.
pub proof fn lemma_empty_yields_nothing(d: char)
    ensures
        next_outcome(d, Seq::<char>::empty(), Seq::<char>::empty(), Seq::<Seq<char>>::empty())
            == (None::<Seq<Seq<char>>>, Seq::<char>::empty()),
{
}

/// A blank line yields nothing — not an empty-field row — and the call
/// consumes only the line feed: whatever follows stays buffered for the
/// next call.
pub proof fn lemma_blank_line(d: char, tail: Seq<char>)
    requires
        d != '\n',
    ensures
        next_outcome(d, seq!['\n'] + tail, Seq::<char>::empty(), Seq::<Seq<char>>::empty()) == (
            None::<Seq<Seq<char>>>,
            tail,
        ),
{
    assert((seq!['\n'] + tail)[0] == '\n');
    assert((seq!['\n'] + tail).drop_first() =~= tail);
}

} // verus!
