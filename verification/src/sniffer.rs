//! Format sniffer: classifies the framing characteristics of a raw body for
//! diagnostic reporting. It never gates decoding: classification always
//! succeeds, even on an empty body, and decoding always goes through the
//! streaming decoder regardless of the outcome here.

use vstd::prelude::*;

verus! {

/// The fixed 6-byte file-format marker expected at both ends of a
/// file-framed payload (the bytes of `ARROW1`).
pub open spec fn file_marker() -> Seq<u8> {
    seq![65u8, 82u8, 82u8, 79u8, 87u8, 49u8]
}

/// A body is file-framed when it is at least 12 bytes long and both its
/// first 6 and last 6 bytes equal the marker.
pub open spec fn spec_is_file_format(body: Seq<u8>) -> bool {
    body.len() >= 12 && body.take(6) == file_marker() && body.skip(body.len() - 6)
        == file_marker()
}

/// The little-endian unsigned value of the first 4 bytes.
pub open spec fn spec_le_u32(body: Seq<u8>) -> int {
    body[0] + 0x100 * body[1] + 0x10000 * body[2] + 0x1000000 * body[3]
}

/// Diagnostic record produced by classification.
pub struct FormatInfo {
    /// Total body size in bytes.
    pub size: usize,
    /// Whether the body carries the whole-payload file framing.
    pub is_file_format: bool,
    /// Whether the body is long enough to carry a length-prefix header.
    pub has_length_prefix: bool,
    /// The 4-byte little-endian length value, 0 when no prefix is present.
    pub message_length: u32,
    /// The first up-to-16 bytes, for human inspection.
    pub leading_bytes: Vec<u8>,
    /// The last 16 bytes when the body is longer than 16 bytes, else empty.
    pub trailing_bytes: Vec<u8>,
}

/// Mathematical value of a `FormatInfo`.
#[verifier::ext_equal]
pub struct FormatInfoView {
    pub size: int,
    pub is_file_format: bool,
    pub has_length_prefix: bool,
    pub message_length: int,
    pub leading_bytes: Seq<u8>,
    pub trailing_bytes: Seq<u8>,
}

impl View for FormatInfo {
    type V = FormatInfoView;

    open spec fn view(&self) -> FormatInfoView {
        FormatInfoView {
            size: self.size as int,
            is_file_format: self.is_file_format,
            has_length_prefix: self.has_length_prefix,
            message_length: self.message_length as int,
            leading_bytes: self.leading_bytes@,
            trailing_bytes: self.trailing_bytes@,
        }
    }
}

/// What classification returns, as a function of the body bytes alone.
pub open spec fn spec_classify(body: Seq<u8>) -> FormatInfoView {
    FormatInfoView {
        size: body.len() as int,
        is_file_format: spec_is_file_format(body),
        has_length_prefix: body.len() >= 8,
        message_length: if body.len() >= 8 {
            spec_le_u32(body)
        } else {
            0
        },
        leading_bytes: body.take(if body.len() >= 16 {
            16int
        } else {
            body.len() as int
        }),
        trailing_bytes: if body.len() > 16 {
            body.skip(body.len() - 16)
        } else {
            Seq::empty()
        },
    }
}

/// Compares 6 bytes of `body` starting at `start` against the marker.
fn matches_marker_at(body: &Vec<u8>, start: usize) -> (r: bool)
    requires
        start + 6 <= body@.len(),
    ensures
        r == (body@.subrange(start as int, start + 6) == file_marker()),
{
    // Establishes that the body length, and so every index below, fits in a
    // machine word.
    let _len = body.len();
    let r = body[start] == 65 && body[start + 1] == 82 && body[start + 2] == 82 && body[start
        + 3] == 79 && body[start + 4] == 87 && body[start + 5] == 49;
    proof {
        if r {
            assert(body@.subrange(start as int, start + 6) =~= file_marker());
        } else {
            assert(body@.subrange(start as int, start + 6) != file_marker()) by {
                let sub = body@.subrange(start as int, start + 6);
                if sub == file_marker() {
                    assert(sub[0] == 65 && sub[1] == 82 && sub[2] == 82 && sub[3] == 79
                        && sub[4] == 87 && sub[5] == 49);
                }
            }
        }
    }
    r
}

/// Copies `body[from..to]` into a fresh vector.
fn copy_range(body: &Vec<u8>, from: usize, to: usize) -> (r: Vec<u8>)
    requires
        from <= to <= body@.len(),
    ensures
        r@ == body@.subrange(from as int, to as int),
{
    let mut out: Vec<u8> = Vec::new();
    let mut i: usize = from;
    while i < to
        invariant
            from <= i <= to <= body@.len(),
            out@ == body@.subrange(from as int, i as int),
        decreases to - i,
    {
        out.push(body[i]);
        proof {
            assert(out@ =~= body@.subrange(from as int, i + 1));
        }
        i += 1;
    }
    out
}

/// Classifies a body's framing. Always succeeds; on an empty body every
/// field reverts to its default. Running it twice on the same bytes yields
/// the same record, since the result is a function of the bytes alone.
pub fn classify(body: &Vec<u8>) -> (r: FormatInfo)
    ensures
        r@ == spec_classify(body@),
{
    let len = body.len();
    let is_file_format = if len >= 12 {
        let head = matches_marker_at(body, 0);
        let tail = matches_marker_at(body, len - 6);
        proof {
            assert(body@.subrange(0, 6) == body@.take(6));
            assert(body@.subrange(len - 6, len as int) =~= body@.skip(len - 6));
        }
        head && tail
    } else {
        false
    };
    let has_length_prefix = len >= 8;
    let message_length: u32 = if has_length_prefix {
        (body[0] as u32) + 0x100 * (body[1] as u32) + 0x10000 * (body[2] as u32) + 0x1000000
            * (body[3] as u32)
    } else {
        0
    };
    let leading_end = if len >= 16 {
        16
    } else {
        len
    };
    let leading_bytes = copy_range(body, 0, leading_end);
    let trailing_bytes = if len > 16 {
        copy_range(body, len - 16, len)
    } else {
        Vec::new()
    };
    let r = FormatInfo {
        size: len,
        is_file_format,
        has_length_prefix,
        message_length,
        leading_bytes,
        trailing_bytes,
    };
    proof {
        assert(r@ =~= spec_classify(body@));
    }
    r
}

} // verus!
