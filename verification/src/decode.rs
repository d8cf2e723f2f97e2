//! The table walker: a single pass over a flat byte buffer that segments it
//! into records, each a (header, fixed-size payload, trailing string table)
//! triple.  Truncated or malformed input is never an error: the walk stops
//! and returns everything decoded so far.

use vstd::prelude::*;
use crate::bytes::le16;
use crate::table::{Header, Table, TableModel, strings_view};

verus! {

/// The header whose 4 bytes start at `i`: type tag, declared length, and the
/// little-endian 16-bit handle.
pub open spec fn spec_header(data: Seq<u8>, i: int) -> Header {
    Header { kind: data[i], len: data[i + 1], handle: le16(data, i + 2) }
}

/// One null-terminated run starting at `i`: its characters (each byte widened
/// losslessly to a character) and the cursor one past the terminating zero,
/// or at the end of the buffer if no terminator was found.
pub open spec fn spec_run(data: Seq<u8>, i: int) -> (Seq<char>, int)
    decreases data.len() - i,
{
    if i >= data.len() {
        (Seq::empty(), i)
    } else if data[i] == 0 {
        (Seq::empty(), i + 1)
    } else {
        let (rest, j) = spec_run(data, i + 1);
        (seq![data[i] as char] + rest, j)
    }
}

/// The string table starting at `i`: null-terminated runs are consumed until
/// an empty run, which ends the table and is not kept -- except the very
/// first run of a record, which is always kept even if empty.  A record with
/// no strings at all therefore yields exactly one empty entry, not an empty
/// sequence.  The walk also ends when the buffer is exhausted, even if no
/// terminator was found.
pub open spec fn spec_runs(data: Seq<u8>, i: int, first: bool) -> (Seq<Seq<char>>, int)
    decreases data.len() - i,
        when 0 <= i <= data.len()
        via spec_runs_decreases
{
    if i >= data.len() {
        (Seq::empty(), i)
    } else {
        let (run, j) = spec_run(data, i);
        if run.len() == 0 && !first {
            (Seq::empty(), j)
        } else {
            let (rest, k) = spec_runs(data, j, false);
            (seq![run] + rest, k)
        }
    }
}

#[via_fn]
proof fn spec_runs_decreases(data: Seq<u8>, i: int, first: bool) {
    if i < data.len() {
        lemma_run_bounds(data, i);
    }
}

/// A run consumes at least one byte when one is available, and never runs
/// past the end of the buffer.
pub proof fn lemma_run_bounds(data: Seq<u8>, i: int)
    requires
        0 <= i <= data.len(),
    ensures
        i <= spec_run(data, i).1 <= data.len(),
        i < data.len() ==> i < spec_run(data, i).1,
    decreases data.len() - i,
{
    if i < data.len() && data[i] != 0 {
        lemma_run_bounds(data, i + 1);
    }
}

/// The string table's cursor only moves forward, and never past the end of
/// the buffer.
pub proof fn lemma_runs_bounds(data: Seq<u8>, i: int, first: bool)
    requires
        0 <= i <= data.len(),
    ensures
        i <= spec_runs(data, i, first).1 <= data.len(),
    decreases data.len() - i,
{
    if i < data.len() {
        lemma_run_bounds(data, i);
        let (run, j) = spec_run(data, i);
        if !(run.len() == 0 && !first) {
            lemma_runs_bounds(data, j, false);
        }
    }
}

/// Where the payload of the record whose header starts at `i` ends: at the
/// declared record length, or at the end of the buffer if that comes first.
pub open spec fn spec_payload_end(data: Seq<u8>, i: int) -> int {
    if i + spec_header(data, i).len <= data.len() {
        i + spec_header(data, i).len
    } else {
        data.len() as int
    }
}

/// The ordered records decoded from `data` starting at cursor `i`.  The walk
/// stops, without emitting anything further, when fewer than 4 bytes remain,
/// when the type tag is the end marker 127, or when the declared record
/// length is below the 4 header bytes (malformed input).  A payload cut off
/// by the end of the buffer is truncated to what is available.
pub open spec fn spec_decode(data: Seq<u8>, i: int) -> Seq<TableModel>
    decreases data.len() - i,
        when 0 <= i <= data.len()
        via spec_decode_decreases
{
    if i + 4 > data.len() {
        Seq::empty()
    } else {
        let h = spec_header(data, i);
        if h.kind == 127 || h.len < 4 {
            Seq::empty()
        } else {
            let pend = spec_payload_end(data, i);
            let (strs, k) = spec_runs(data, pend, true);
            let t = TableModel { header: h, data: data.subrange(i + 4, pend), strings: strs };
            seq![t] + spec_decode(data, k)
        }
    }
}

#[via_fn]
proof fn spec_decode_decreases(data: Seq<u8>, i: int) {
    if i + 4 <= data.len() {
        let h = spec_header(data, i);
        if !(h.kind == 127 || h.len < 4) {
            lemma_runs_bounds(data, spec_payload_end(data, i), true);
        }
    }
}

/// The models of a sequence of records.
pub open spec fn tables_view(ts: Seq<Table>) -> Seq<TableModel> {
    ts.map_values(|t: Table| t@)
}

/// An end-marker header (type tag 127) stops the walk without emitting a
/// record for it: whatever was decoded before it is the whole result.
pub proof fn lemma_end_marker(data: Seq<u8>, i: int)
    requires
        0 <= i,
        i + 4 <= data.len(),
        spec_header(data, i).kind == 127,
    ensures
        spec_decode(data, i) == Seq::<TableModel>::empty(),
{
}

/// A record whose string section starts directly with the two terminating
/// zero bytes keeps a single empty entry: the first run of a record is
/// always kept, even when empty, so a record with no strings at all yields
/// one empty string, not an empty sequence.  Both zero bytes are consumed.
pub proof fn lemma_empty_string_table(data: Seq<u8>, i: int)
    requires
        0 <= i,
        i + 2 <= data.len(),
        data[i] == 0,
        data[i + 1] == 0,
    ensures
        spec_runs(data, i, true).0 == seq![Seq::<char>::empty()],
        spec_runs(data, i, true).1 == i + 2,
{
    assert(spec_run(data, i) == (Seq::<char>::empty(), i + 1));
    assert(spec_run(data, i + 1) == (Seq::<char>::empty(), i + 2));
    assert(spec_runs(data, i + 1, false) == (Seq::<Seq<char>>::empty(), i + 2));
    assert(spec_runs(data, i, true).0 =~= seq![Seq::<char>::empty()]);
}

/// A buffer that ends in the middle of a record's declared payload yields
/// that record with its payload truncated to the bytes that were available
/// -- strictly shorter than the declared length minus the 4 header bytes --
/// with no strings, and the walk stops: no further record is emitted.
pub proof fn lemma_truncated_payload(data: Seq<u8>, i: int)
    requires
        0 <= i,
        i + 4 <= data.len(),
        spec_header(data, i).kind != 127,
        spec_header(data, i).len >= 4,
        i + spec_header(data, i).len > data.len(),
    ensures
        spec_decode(data, i).len() == 1,
        spec_decode(data, i)[0].header == spec_header(data, i),
        spec_decode(data, i)[0].data == data.subrange(i + 4, data.len() as int),
        spec_decode(data, i)[0].data.len() < spec_header(data, i).len - 4,
        spec_decode(data, i)[0].strings == Seq::<Seq<char>>::empty(),
{
    let len = data.len() as int;
    assert(spec_payload_end(data, i) == len);
    assert(spec_runs(data, len, true) == (Seq::<Seq<char>>::empty(), len));
    assert(spec_decode(data, len) == Seq::<TableModel>::empty());
    assert(spec_decode(data, i) =~= seq![
        TableModel {
            header: spec_header(data, i),
            data: data.subrange(i + 4, len),
            strings: Seq::empty(),
        },
    ]);
}

/// Relies on String::push: appends the single character to the end of the
/// string.
#[verifier::external_body]
fn push_char(s: &mut String, c: char)
    ensures
        final(s)@ == old(s)@.push(c),
{
    s.push(c);
}

/// Reads one null-terminated run starting at `start`, consuming the
/// terminator; a run cut off by the end of the buffer is kept as read.
fn read_run(data: &[u8], start: usize) -> (r: (String, usize))
    requires
        start <= data@.len(),
    ensures
        r.0@ == spec_run(data@, start as int).0,
        r.1 as int == spec_run(data@, start as int).1,
        start <= r.1 <= data@.len(),
{
    let mut s = String::new();
    let mut i: usize = start;
    loop
        invariant_except_break
            start <= i <= data@.len(),
            spec_run(data@, start as int).0 == s@ + spec_run(data@, i as int).0,
            spec_run(data@, start as int).1 == spec_run(data@, i as int).1,
        ensures
            s@ == spec_run(data@, start as int).0,
            i as int == spec_run(data@, start as int).1,
            start <= i <= data@.len(),
        decreases data@.len() - i,
    {
        if i >= data.len() {
            assert(s@ =~= spec_run(data@, start as int).0);
            break;
        }
        let b = data[i];
        i = i + 1;
        if b == 0 {
            assert(s@ =~= spec_run(data@, start as int).0);
            break;
        }
        proof {
            assert(spec_run(data@, i - 1).0 =~= seq![b as char] + spec_run(data@, i as int).0);
        }
        push_char(&mut s, b as char);
        assert(s@ + spec_run(data@, i as int).0 =~= spec_run(data@, start as int).0);
    }
    (s, i)
}

/// Reads the string table starting at `start`: the first run is always kept,
/// a later empty run ends the table.
fn read_strings(data: &[u8], start: usize) -> (r: (Vec<String>, usize))
    requires
        start <= data@.len(),
    ensures
        strings_view(r.0@) == spec_runs(data@, start as int, true).0,
        r.1 as int == spec_runs(data@, start as int, true).1,
        start <= r.1 <= data@.len(),
{
    let mut strings: Vec<String> = Vec::new();
    let mut i: usize = start;
    loop
        invariant_except_break
            start <= i <= data@.len(),
            spec_runs(data@, start as int, true).0 == strings_view(strings@) + spec_runs(
                data@,
                i as int,
                strings@.len() == 0,
            ).0,
            spec_runs(data@, start as int, true).1 == spec_runs(
                data@,
                i as int,
                strings@.len() == 0,
            ).1,
        ensures
            strings_view(strings@) == spec_runs(data@, start as int, true).0,
            i as int == spec_runs(data@, start as int, true).1,
            start <= i <= data@.len(),
        decreases data@.len() - i,
    {
        if i >= data.len() {
            assert(strings_view(strings@) =~= spec_runs(data@, start as int, true).0);
            break;
        }
        let ghost first = strings@.len() == 0;
        let (s, j) = read_run(data, i);
        if s.as_str().is_empty() && strings.len() > 0 {
            proof {
                assert(spec_runs(data@, i as int, first).0 =~= Seq::<Seq<char>>::empty());
                assert(strings_view(strings@) =~= spec_runs(data@, start as int, true).0);
            }
            i = j;
            break;
        }
        proof {
            let (rest, k) = spec_runs(data@, j as int, false);
            assert(spec_runs(data@, i as int, first).0 =~= seq![s@] + rest);
            assert(strings_view(strings@.push(s)) =~= strings_view(strings@).push(s@));
            assert(strings_view(strings@) + (seq![s@] + rest) =~= strings_view(strings@.push(s))
                + rest);
        }
        strings.push(s);
        i = j;
    }
    (strings, i)
}

/// Decodes the whole buffer into its ordered sequence of records, in a
/// single pass.  Truncated input, an end-marker tag and a malformed declared
/// length all stop the walk cleanly with everything decoded so far.
pub fn tables(data: &[u8]) -> (r: Vec<Table>)
    ensures
        tables_view(r@) == spec_decode(data@, 0),
{
    let mut out: Vec<Table> = Vec::new();
    let mut i: usize = 0;
    loop
        invariant_except_break
            i <= data@.len(),
            spec_decode(data@, 0) == tables_view(out@) + spec_decode(data@, i as int),
        ensures
            tables_view(out@) == spec_decode(data@, 0),
        decreases data@.len() - i,
    {
        if data.len() - i < 4 {
            assert(tables_view(out@) =~= spec_decode(data@, 0));
            break;
        }
        let kind = data[i];
        let len = data[i + 1];
        let handle = crate::bytes::read_u16_le(data, i + 2);
        let header = Header { kind, len, handle };
        assert(header == spec_header(data@, i as int));
        if kind == 127 {
            assert(tables_view(out@) =~= spec_decode(data@, 0));
            break;
        }
        if len < 4 {
            assert(tables_view(out@) =~= spec_decode(data@, 0));
            break;
        }
        let psize = (len - 4) as usize;
        let avail = data.len() - (i + 4);
        let copy = if psize <= avail {
            psize
        } else {
            avail
        };
        let pend = i + 4 + copy;
        assert(pend == spec_payload_end(data@, i as int));
        let payload = vstd::slice::slice_to_vec(vstd::slice::slice_subrange(data, i + 4, pend));
        let (strs, k) = read_strings(data, pend);
        let t = Table { header, data: payload, strings: strs };
        proof {
            let m = TableModel {
                header: spec_header(data@, i as int),
                data: data@.subrange(i + 4, pend as int),
                strings: spec_runs(data@, pend as int, true).0,
            };
            assert(t@ =~= m);
            assert(spec_decode(data@, i as int) =~= seq![m] + spec_decode(data@, k as int));
            assert(tables_view(out@.push(t)) =~= tables_view(out@).push(t@));
            assert(tables_view(out@) + (seq![m] + spec_decode(data@, k as int)) =~= tables_view(
                out@.push(t),
            ) + spec_decode(data@, k as int));
        }
        out.push(t);
        i = k;
    }
    out
}

} // verus!
