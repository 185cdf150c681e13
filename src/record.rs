//! Output records and their `path:line:column:text` lines.

use crate::syntax::Span;
use vstd::prelude::*;

verus! {

/// One output record: the zero-based line and column where a captured
/// node starts, and the source bytes it covers.
#[derive(Clone, Debug)]
pub struct Record {
    pub line: usize,
    pub column: usize,
    pub text: Vec<u8>,
}

impl View for Record {
    type V = (nat, nat, Seq<u8>);

    open spec fn view(&self) -> (nat, nat, Seq<u8>) {
        (self.line as nat, self.column as nat, self.text@)
    }
}

/// Why a unit could not be turned into output.
#[derive(Clone, Copy, Debug, PartialEq, Eq, Structural)]
pub enum ScanError {
    /// A capture's byte range does not lie within the source.
    TextOutOfRange(Span),
    /// A capture's byte range lies within the source but one of its ends
    /// falls inside a multi-byte character.
    TextSplitsCharacter(Span),
}

/// Whether a span's byte range lies within the source.
pub open spec fn span_in_range(source: Seq<u8>, s: Span) -> bool {
    s.start_byte <= s.end_byte && s.end_byte <= source.len()
}

/// Whether byte offset `i` of a UTF-8 text starts a character or is its
/// end: it is the length, or the byte there is no continuation byte.
pub open spec fn char_boundary(source: Seq<u8>, i: int) -> bool {
    i == source.len() || !(0x80 <= source[i] < 0xC0)
}

/// Whether a span's byte range lies within the source and both of its ends
/// fall on character boundaries.
pub open spec fn span_fits(source: Seq<u8>, s: Span) -> bool {
    &&& span_in_range(source, s)
    &&& char_boundary(source, s.start_byte as int)
    &&& char_boundary(source, s.end_byte as int)
}

/// The error that reports a span that does not fit its source.
pub open spec fn span_error(source: Seq<u8>, s: Span) -> ScanError {
    if span_in_range(source, s) {
        ScanError::TextSplitsCharacter(s)
    } else {
        ScanError::TextOutOfRange(s)
    }
}

/// Whether byte offset `i` of the text falls on a character boundary.
fn is_char_boundary(source: &[u8], i: usize) -> (r: bool)
    requires
        i <= source@.len(),
    ensures
        r == char_boundary(source@, i as int),
{
    i == source.len() || !(0x80 <= source[i] && source[i] < 0xC0)
}

/// Whether every span's byte range lies within the source.
pub open spec fn all_fit(source: Seq<u8>, spans: Seq<Span>) -> bool {
    forall|i: int| 0 <= i < spans.len() ==> span_fits(source, #[trigger] spans[i])
}

/// The record of a span that fits its source.
pub open spec fn record_spec(source: Seq<u8>, s: Span) -> (nat, nat, Seq<u8>) {
    (s.row as nat, s.column as nat, source.subrange(s.start_byte as int, s.end_byte as int))
}

/// The records of a sequence of spans, one for one.
pub open spec fn records_spec(source: Seq<u8>, spans: Seq<Span>) -> Seq<(nat, nat, Seq<u8>)> {
    spans.map_values(|s: Span| record_spec(source, s))
}

/// The ASCII decimal digits of a number, most significant first, without
/// leading zeros.
pub open spec fn decimal(n: nat) -> Seq<u8>
    decreases n,
{
    if n < 10 {
        seq![(48 + n) as u8]
    } else {
        decimal(n / 10).push((48 + n % 10) as u8)
    }
}

/// The line of one record: `path:line:column:text` and a newline.
pub open spec fn line_spec(path: Seq<u8>, r: (nat, nat, Seq<u8>)) -> Seq<u8> {
    path + seq![58u8] + decimal(r.0) + seq![58u8] + decimal(r.1) + seq![58u8] + r.2 + seq![10u8]
}

/// The lines of a sequence of records, in order.
pub open spec fn render_spec(path: Seq<u8>, rs: Seq<(nat, nat, Seq<u8>)>) -> Seq<u8>
    decreases rs.len(),
{
    if rs.len() == 0 {
        Seq::empty()
    } else {
        render_spec(path, rs.drop_last()) + line_spec(path, rs.last())
    }
}

/// Appends the decimal digits of `n`.
pub fn push_decimal(out: &mut Vec<u8>, n: usize)
    ensures
        final(out)@ == old(out)@ + decimal(n as nat),
    decreases n,
{
    if n >= 10 {
        push_decimal(out, n / 10);
    }
    out.push((48 + n % 10) as u8);
    proof {
        if n < 10 {
            assert(n % 10 == n);
        }
    }
    assert(final(out)@ =~= old(out)@ + decimal(n as nat));
}

/// Appends a byte sequence.
fn push_bytes(out: &mut Vec<u8>, bytes: &[u8])
    ensures
        final(out)@ == old(out)@ + bytes@,
{
    let mut i: usize = 0;
    while i < bytes.len()
        invariant
            i <= bytes@.len(),
            out@ == old(out)@ + bytes@.subrange(0, i as int),
        decreases bytes@.len() - i,
    {
        out.push(bytes[i]);
        i = i + 1;
    }
    assert(bytes@.subrange(0, i as int) =~= bytes@);
}

impl Record {
    /// The record of a span: its start row and column and the source bytes
    /// it covers; an error when the span does not lie within the source or
    /// cuts a character.
    pub fn from_span(source: &[u8], s: Span) -> (r: Result<Record, ScanError>)
        ensures
            r.is_ok() == span_fits(source@, s),
            r matches Ok(rec) ==> rec@ == record_spec(source@, s),
            r matches Err(e) ==> e == span_error(source@, s),
    {
        if s.start_byte > s.end_byte || s.end_byte > source.len() {
            return Err(ScanError::TextOutOfRange(s));
        }
        if !is_char_boundary(source, s.start_byte) || !is_char_boundary(source, s.end_byte) {
            return Err(ScanError::TextSplitsCharacter(s));
        }
        let mut text: Vec<u8> = Vec::new();
        let mut i: usize = s.start_byte;
        while i < s.end_byte
            invariant
                s.start_byte <= i <= s.end_byte <= source@.len(),
                text@ == source@.subrange(s.start_byte as int, i as int),
            decreases s.end_byte - i,
        {
            text.push(source[i]);
            i = i + 1;
            assert(text@ =~= source@.subrange(s.start_byte as int, i as int));
        }
        Ok(Record { line: s.row, column: s.column, text })
    }

    /// Appends this record's line for the given display path.
    pub fn write_line(&self, path: &[u8], out: &mut Vec<u8>)
        ensures
            final(out)@ == old(out)@ + line_spec(path@, self@),
    {
        push_bytes(out, path);
        out.push(58u8);
        push_decimal(out, self.line);
        out.push(58u8);
        push_decimal(out, self.column);
        out.push(58u8);
        push_bytes(out, self.text.as_slice());
        out.push(10u8);
        assert(final(out)@ =~= old(out)@ + line_spec(path@, self@));
    }
}

/// The records of the given spans, in order; an error naming the first
/// span that does not fit the source.
pub fn records_of(source: &[u8], spans: &Vec<Span>) -> (r: Result<Vec<Record>, ScanError>)
    ensures
        r.is_ok() == all_fit(source@, spans@),
        r matches Ok(rs) ==> rs@.map_values(|x: Record| x@) == records_spec(source@, spans@),
        r matches Err(e) ==> exists|i: int|
            0 <= i < spans@.len() && !span_fits(source@, #[trigger] spans@[i]) && e == span_error(source@, spans@[i]),
{
    let mut out: Vec<Record> = Vec::new();
    let mut i: usize = 0;
    while i < spans.len()
        invariant
            i <= spans@.len(),
            all_fit(source@, spans@.subrange(0, i as int)),
            out@.map_values(|x: Record| x@) == records_spec(source@, spans@.subrange(0, i as int)),
        decreases spans@.len() - i,
    {
        let s = spans[i];
        match Record::from_span(source, s) {
            Ok(rec) => {
                let ghost before = out@;
                out.push(rec);
                proof {
                    assert(spans@.subrange(0, i + 1) =~= spans@.subrange(0, i as int).push(s));
                    assert(out@ =~= before.push(rec));
                    assert(out@.map_values(|x: Record| x@) =~= before.map_values(|x: Record| x@).push(rec@));
                    assert(records_spec(source@, spans@.subrange(0, i + 1)) =~= records_spec(
                        source@,
                        spans@.subrange(0, i as int),
                    ).push(record_spec(source@, s)));
                    assert(forall|j: int| 0 <= j < i + 1 ==> #[trigger] spans@.subrange(0, i + 1)[j] == spans@[j]);
                    assert(forall|j: int| 0 <= j < i ==> #[trigger] spans@.subrange(0, i as int)[j] == spans@[j]);
                }
            },
            Err(e) => {
                return Err(e);
            },
        }
        i = i + 1;
    }
    assert(spans@.subrange(0, i as int) =~= spans@);
    Ok(out)
}

/// The lines of the given records, in order.
pub fn render(path: &[u8], records: &Vec<Record>) -> (r: Vec<u8>)
    ensures
        r@ == render_spec(path@, records@.map_values(|x: Record| x@)),
{
    let ghost views = records@.map_values(|x: Record| x@);
    let mut out: Vec<u8> = Vec::new();
    let mut i: usize = 0;
    while i < records.len()
        invariant
            i <= records@.len(),
            views == records@.map_values(|x: Record| x@),
            out@ == render_spec(path@, views.subrange(0, i as int)),
        decreases records@.len() - i,
    {
        records[i].write_line(path, &mut out);
        proof {
            assert(views.subrange(0, i + 1).drop_last() =~= views.subrange(0, i as int));
        }
        i = i + 1;
    }
    assert(views.subrange(0, i as int) =~= views);
    out
}

} // verus!
