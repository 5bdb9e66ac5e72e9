//! Framing of a record for output: one record, one line.

use vstd::prelude::*;
use vstd::string::*;

verus! {

/// The byte that ends a line.
pub const LINE_END: u8 = 0x0a;

/// The bytes of the line that carries `record`: the record's bytes, then
/// the line end.
pub open spec fn line_of(record: Seq<char>) -> Seq<u8> {
    vstd::utf8::encode_utf8(record).push(LINE_END)
}

/// Frames a serialised record as one line, to be written in a single piece.
pub fn frame_line(record: &str) -> (r: Vec<u8>)
    ensures
        r@ == line_of(record@),
{
    let mut line = record.as_bytes_vec();
    line.push(LINE_END);
    line
}

} // verus!
