//! From a scanned head to a request.
//!
//! [`assemble`] takes what a scan gave and the buffer it was made on, and
//! builds the request or says why there is none. [`decoded`] is its
//! specification.

use vstd::prelude::*;
use vstd::slice::{slice_subrange, slice_to_vec};
use vstd::utf8::{decode_utf8, valid_utf8};
use crate::request::{pairs_view, ParseError, Request, RequestView, MAX_HEADERS};
use crate::scan::{has_blank_line, table_view, HeadScan, HeaderSlot, ScanView, SlotView};
use crate::text::{decode_lossy, lossy_text, replacement_marker};

verus! {

/// Whether the first `count` slots of `table` are its filled front: each of
/// them has a name, and the slot behind them, if there is one, has none.
pub open spec fn is_filled_front(table: Seq<SlotView>, count: nat) -> bool {
    &&& count <= table.len()
    &&& forall|i: int| 0 <= i < count ==> (#[trigger] table[i]).name.len() > 0
    &&& count < table.len() ==> table[count as int].name.len() == 0
}

/// The index of the first slot at or behind `start` that has no name, or the
/// table's length where every such slot has one.
pub open spec fn filled_from(table: Seq<SlotView>, start: nat) -> nat
    decreases table.len() - start,
{
    if start >= table.len() || table[start as int].name.len() == 0 {
        start
    } else {
        filled_from(table, start + 1)
    }
}

/// How many slots at the front of `table` hold a header.
pub open spec fn filled_len(table: Seq<SlotView>) -> nat {
    filled_from(table, 0)
}

/// A table has one filled front, and [`filled_len`] is its length.
pub proof fn lemma_filled_front(table: Seq<SlotView>, start: nat, count: nat)
    requires
        is_filled_front(table, count),
        start <= count,
    ensures
        filled_from(table, start) == count,
    decreases count - start,
{
    if start < count {
        lemma_filled_front(table, start + 1, count);
    }
}

/// The headers that a table holds: name and lossily decoded value of each slot
/// of its filled front, in order.
pub open spec fn decoded_headers(table: Seq<SlotView>) -> Seq<(Seq<char>, Seq<char>)> {
    Seq::new(filled_len(table), |i: int| (table[i].name, lossy_text(table[i].value)))
}

impl ScanView {
    /// Whether a complete scan's offset lies within a buffer of `len` bytes
    /// and its table has no more than [`MAX_HEADERS`] slots.
    pub open spec fn bounded(self, len: nat) -> bool {
        self matches ScanView::Complete { offset, table, .. } ==> offset <= len && table.len()
            <= MAX_HEADERS
    }
}

/// Whether a field of the start line is absent or empty.
pub open spec fn is_missing(field: Option<Seq<char>>) -> bool {
    match field {
        Some(text) => text.len() == 0,
        None => true,
    }
}

/// What a scan of `buffer` decodes to.
///
/// An invalid head is malformed and a partial one incomplete. A complete head
/// gives a request, unless it lacks a method or a path: the headers are those
/// of the table's filled front and the body is all of the buffer from the
/// scan's offset on.
pub open spec fn decoded(scan: ScanView, buffer: Seq<u8>) -> Result<RequestView, ParseError> {
    match scan {
        ScanView::Invalid => Err(ParseError::Malformed),
        ScanView::Partial => Err(ParseError::Incomplete),
        ScanView::Complete { offset, method, path, table } => {
            if is_missing(method) || is_missing(path) {
                Err(ParseError::MissingField)
            } else {
                Ok(
                    RequestView {
                        method: method->0,
                        path: path->0,
                        headers: decoded_headers(table),
                        body: buffer.subrange(offset as int, buffer.len() as int),
                    },
                )
            }
        },
    }
}

/// The mathematical value of a decoding outcome.
pub open spec fn outcome_view(outcome: Result<Request, ParseError>) -> Result<
    RequestView,
    ParseError,
> {
    match outcome {
        Ok(request) => Ok(request@),
        Err(error) => Err(error),
    }
}

/// Whether `text` is an acceptable reading of `bytes`: their decoding where
/// they are valid UTF-8, and text that holds the replacement marker where
/// they are not.
pub open spec fn reads_as(bytes: Seq<u8>, text: Seq<char>) -> bool {
    if valid_utf8(bytes) {
        text == decode_utf8(bytes)
    } else {
        text.contains(replacement_marker())
    }
}

/// Whether each of `headers` is a reading of the slot of `table` at its index.
pub open spec fn values_read(table: Seq<SlotView>, headers: Seq<(Seq<char>, Seq<char>)>) -> bool {
    forall|i: int|
        0 <= i < headers.len() && i < table.len() ==> reads_as(
            table[i].value,
            (#[trigger] headers[i]).1,
        )
}

/// Copies the filled front of a header table, decoding each value as text.
fn decode_headers(table: &Vec<HeaderSlot>) -> (headers: Vec<(String, String)>)
    ensures
        pairs_view(headers@) == decoded_headers(table_view(table@)),
        headers@.len() <= table@.len(),
        values_read(table_view(table@), pairs_view(headers@)),
{
    let ghost slots = table_view(table@);
    let mut headers: Vec<(String, String)> = Vec::new();
    let mut i: usize = 0;
    while i < table.len() && !table[i].name.as_str().is_empty()
        invariant
            slots == table_view(table@),
            i <= table@.len(),
            headers@.len() == i,
            forall|j: int| 0 <= j < i ==> (#[trigger] slots[j]).name.len() > 0,
            forall|j: int|
                0 <= j < i ==> (#[trigger] headers@[j]).0@ == slots[j].name && headers@[j].1@
                    == lossy_text(slots[j].value) && reads_as(slots[j].value, headers@[j].1@),
        decreases table@.len() - i,
    {
        let slot = &table[i];
        let name = slot.name.clone();
        let value = decode_lossy(slot.value.as_slice());
        assert(slots[i as int] == slot@);
        headers.push((name, value));
        i += 1;
    }
    proof {
        assert(i < table@.len() ==> slots[i as int] == table@[i as int]@);
        assert(is_filled_front(slots, i as nat));
        lemma_filled_front(slots, 0, i as nat);
        assert(pairs_view(headers@) =~= decoded_headers(slots));
    }
    headers
}

/// Builds the request that a scan of `buffer` describes.
///
/// The scan is taken as it comes: whatever it holds, the outcome is
/// [`decoded`] of it.
pub fn assemble(scan: HeadScan, buffer: &[u8]) -> (outcome: Result<Request, ParseError>)
    requires
        scan@.bounded(buffer@.len()),
    ensures
        outcome_view(outcome) == decoded(scan@, buffer@),
        outcome matches Ok(request) ==> request@.valid() && values_read(
            scan@->table,
            request@.headers,
        ),
{
    match scan {
        HeadScan::Invalid => Err(ParseError::Malformed),
        HeadScan::Partial => Err(ParseError::Incomplete),
        HeadScan::Complete { offset, method, path, table } => {
            let method = match method {
                Some(method) => method,
                None => {
                    return Err(ParseError::MissingField);
                },
            };
            if method.as_str().is_empty() {
                return Err(ParseError::MissingField);
            }
            let path = match path {
                Some(path) => path,
                None => {
                    return Err(ParseError::MissingField);
                },
            };
            if path.as_str().is_empty() {
                return Err(ParseError::MissingField);
            }
            let headers = decode_headers(&table);
            let body = slice_to_vec(slice_subrange(buffer, offset, buffer.len()));
            Ok(Request::new(method, path, headers, body))
        },
    }
}

/// Counting from any slot of the filled front on, [`filled_from`] stops at
/// the end of that front.
pub proof fn lemma_filled_from_is_front(table: Seq<SlotView>, start: nat)
    requires
        start <= table.len(),
        forall|i: int| 0 <= i < start ==> (#[trigger] table[i]).name.len() > 0,
    ensures
        is_filled_front(table, filled_from(table, start)),
    decreases table.len() - start,
{
    if start < table.len() && table[start as int].name.len() > 0 {
        lemma_filled_from_is_front(table, start + 1);
    }
}

/// Every request that decoding gives is valid, and its headers are the whole
/// filled front of the table: none is dropped and none is added.
pub proof fn lemma_decoded_is_valid(scan: ScanView, buffer: Seq<u8>)
    requires
        scan.bounded(buffer.len()),
    ensures
        decoded(scan, buffer) matches Ok(request) ==> {
            &&& request.valid()
            &&& is_filled_front(scan->table, request.headers.len())
            &&& request.body.len() == buffer.len() - scan->offset
        },
{
    if scan is Complete {
        lemma_filled_from_is_front(scan->table, 0);
    }
}

/// Each failure comes for one reason: an invalid head is malformed, a partial
/// head is incomplete, and a complete head fails only for want of a method or
/// a path.
pub proof fn lemma_failure_kinds(scan: ScanView, buffer: Seq<u8>)
    ensures
        decoded(scan, buffer) matches Err(ParseError::Malformed) <==> scan is Invalid,
        decoded(scan, buffer) matches Err(ParseError::Incomplete) <==> scan is Partial,
        decoded(scan, buffer) matches Err(ParseError::MissingField) <==> scan is Complete && (
        is_missing(scan->method) || is_missing(scan->path)),
        decoded(scan, buffer) is Ok <==> scan is Complete && !is_missing(scan->method)
            && !is_missing(scan->path),
{
}

/// A buffer without a blank line decodes to no request, whatever its scan
/// gave.
pub proof fn lemma_blank_line_needed(scan: ScanView, buffer: Seq<u8>, slots: nat)
    requires
        scan.fits(buffer, slots),
        !has_blank_line(buffer),
    ensures
        decoded(scan, buffer) is Err,
{
}

/// Whether two tables agree in length and in the name of every slot. Their
/// values are free to differ.
pub open spec fn same_names(table: Seq<SlotView>, other: Seq<SlotView>) -> bool {
    &&& table.len() == other.len()
    &&& forall|i: int| 0 <= i < table.len() ==> (#[trigger] table[i]).name == other[i].name
}

/// Tables with the same names have filled fronts of the same length.
pub proof fn lemma_same_names_same_front(table: Seq<SlotView>, other: Seq<SlotView>, start: nat)
    requires
        same_names(table, other),
    ensures
        filled_from(table, start) == filled_from(other, start),
    decreases table.len() - start,
{
    if start < table.len() {
        assert(table[start as int].name == other[start as int].name);
        if table[start as int].name.len() > 0 {
            lemma_same_names_same_front(table, other, start + 1);
        }
    }
}

/// Header values never decide whether decoding succeeds. Two complete scans
/// that differ in nothing but the values of their headers decode alike: both
/// fail in the same way, or both give a request, with the same method, path
/// and body and the same header names in the same order.
pub proof fn lemma_values_never_fail(scan: ScanView, other: ScanView, buffer: Seq<u8>)
    requires
        scan is Complete,
        other is Complete,
        scan->offset == other->offset,
        scan->method == other->method,
        scan->path == other->path,
        same_names(scan->table, other->table),
    ensures
        decoded(scan, buffer) matches Err(error) ==> decoded(other, buffer) == Err::<
            RequestView,
            ParseError,
        >(error),
        decoded(scan, buffer) matches Ok(request) ==> {
            &&& decoded(other, buffer) matches Ok(twin)
            &&& twin.method == request.method
            &&& twin.path == request.path
            &&& twin.body == request.body
            &&& twin.headers.len() == request.headers.len()
            &&& forall|i: int|
                0 <= i < request.headers.len() ==> (#[trigger] twin.headers[i]).0
                    == request.headers[i].0
        },
{
    lemma_same_names_same_front(scan->table, other->table, 0);
    lemma_filled_from_is_front(scan->table, 0);
}

} // verus!
