//! The scan of a request head: start line and header block.
//!
//! The grammar of the head is that of the `httparse` crate, which does the
//! scanning. This module holds what a scan gives back, as plain values, and
//! the single call into that crate.

use vstd::prelude::*;
use crate::request::MAX_HEADERS;

verus! {

/// One slot of the header table: a header's name and the raw bytes of its
/// value. A slot that no header was written to has an empty name.
#[derive(Debug, PartialEq, Eq)]
pub struct HeaderSlot {
    pub name: String,
    pub value: Vec<u8>,
}

/// The mathematical value of a [`HeaderSlot`].
pub struct SlotView {
    pub name: Seq<char>,
    pub value: Seq<u8>,
}

impl View for HeaderSlot {
    type V = SlotView;

    open spec fn view(&self) -> SlotView {
        SlotView { name: self.name@, value: self.value@ }
    }
}

/// What scanning the front of a buffer for a request head gave.
#[derive(Debug, PartialEq, Eq)]
pub enum HeadScan {
    /// The head is whole. `offset` is the index of the first byte after the
    /// blank line that ends it; `table` is the whole header table, filled from
    /// the front.
    Complete { offset: usize, method: Option<String>, path: Option<String>, table: Vec<HeaderSlot> },
    /// The buffer ended before the head did, and nothing in it was invalid.
    Partial,
    /// The head breaks the grammar, or has more headers than the table has
    /// slots.
    Invalid,
}

/// The mathematical value of a [`HeadScan`].
pub enum ScanView {
    Complete { offset: nat, method: Option<Seq<char>>, path: Option<Seq<char>>, table: Seq<SlotView> },
    Partial,
    Invalid,
}

/// The text of an optional string.
pub open spec fn text_of(field: Option<String>) -> Option<Seq<char>> {
    match field {
        Some(s) => Some(s@),
        None => None,
    }
}

/// The values of a table's slots, in order.
pub open spec fn table_view(table: Seq<HeaderSlot>) -> Seq<SlotView> {
    Seq::new(table.len(), |i: int| table[i]@)
}

impl View for HeadScan {
    type V = ScanView;

    open spec fn view(&self) -> ScanView {
        match *self {
            HeadScan::Complete { offset, method, path, table } => ScanView::Complete {
                offset: offset as nat,
                method: text_of(method),
                path: text_of(path),
                table: table_view(table@),
            },
            HeadScan::Partial => ScanView::Partial,
            HeadScan::Invalid => ScanView::Invalid,
        }
    }
}

/// Line feed.
pub open spec fn lf() -> u8 {
    10
}

/// Carriage return.
pub open spec fn cr() -> u8 {
    13
}

/// Whether an empty line ends at index `end` of `bytes`: a line feed, or a
/// carriage return and a line feed, that directly follows the line feed of the
/// line before.
pub open spec fn blank_line_ends_at(bytes: Seq<u8>, end: int) -> bool {
    &&& 2 <= end <= bytes.len()
    &&& bytes[end - 1] == lf()
    &&& {
        ||| bytes[end - 2] == lf()
        ||| (3 <= end && bytes[end - 2] == cr() && bytes[end - 3] == lf())
    }
}

/// Whether `bytes` holds a blank line: an empty line that follows another
/// line.
pub open spec fn has_blank_line(bytes: Seq<u8>) -> bool {
    exists|end: int| blank_line_ends_at(bytes, end)
}

/// Whether `body` is all of `buffer` behind one of its blank lines.
pub open spec fn follows_blank_line(buffer: Seq<u8>, body: Seq<u8>) -> bool {
    exists|end: int| #[trigger]
        blank_line_ends_at(buffer, end) && body == buffer.subrange(end, buffer.len() as int)
}

impl ScanView {
    /// What every scan of `buffer` with a table of `slots` slots satisfies:
    /// a complete scan hands back the whole table, and its offset lies in the
    /// buffer, directly behind a blank line.
    pub open spec fn fits(self, buffer: Seq<u8>, slots: nat) -> bool {
        self matches ScanView::Complete { offset, table, .. } ==> {
            &&& offset <= buffer.len()
            &&& table.len() == slots
            &&& blank_line_ends_at(buffer, offset as int)
        }
    }
}

/// The scan of `bytes` with a header table of `slots` slots.
///
/// The scan is a function of the bytes and of the table's size alone. Its
/// grammar is not written out here: [`scan_head`] says that the scanner
/// computes it, and [`ScanView::fits`] holds the little that is stated of it.
pub uninterp spec fn head_scan(bytes: Seq<u8>, slots: nat) -> ScanView;

/// Scans the front of `buffer` for a request head, with room for `slots`
/// headers.
///
/// Trusted: calls `httparse::Request::parse` on a fresh table of `slots` empty
/// headers and copies what it reports into plain values, one for one. The
/// contract names the outcome and claims three things of a complete scan, each
/// read off the scanner's source: the table comes back whole, the offset it
/// reports lies within the buffer, and the scanner reports completion only
/// directly behind an empty line that follows a line feed. The table is kept
/// small, so that making it cannot fail.
#[verifier::external_body]
pub(crate) fn scan_head(buffer: &[u8], slots: usize) -> (scan: HeadScan)
    requires
        slots <= MAX_HEADERS,
    ensures
        scan@ == head_scan(buffer@, slots as nat),
        scan@.fits(buffer@, slots as nat),
{
    let mut table = vec![httparse::EMPTY_HEADER; slots];
    let mut head = httparse::Request::new(&mut table);
    match head.parse(buffer) {
        Ok(httparse::Status::Complete(offset)) => HeadScan::Complete {
            offset,
            method: head.method.map(String::from),
            path: head.path.map(String::from),
            table: table.iter().map(|h| HeaderSlot { name: String::from(h.name), value: h.value.to_vec() }).collect(),
        },
        Ok(httparse::Status::Partial) => HeadScan::Partial,
        Err(_) => HeadScan::Invalid,
    }
}

} // verus!
