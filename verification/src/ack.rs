//! Acknowledgment building: the aggregate result of one ingestion call,
//! serialized as a flat, human-readable key-value document and carried as
//! opaque application metadata on the response. Keys appear in sorted order
//! and the status is always the literal `success`, since this stage is only
//! reached after the whole ingestion call succeeded.

use vstd::prelude::*;
use vstd::string::StringExecFns;

verus! {

/// Aggregate statistics of one ingestion call, finalized once at the end.
#[derive(PartialEq, Eq, Structural, Clone, Copy, Debug)]
pub struct ProcessingResult {
    pub message_count: usize,
    pub total_bytes: usize,
    pub total_batches: usize,
    pub total_rows: usize,
}

/// The acknowledgment payload: the serialized document, attached as opaque
/// application metadata on the response.
pub struct AckPayload {
    pub app_metadata: String,
}

/// The character of one decimal digit.
pub open spec fn digit_char(d: nat) -> char {
    if d == 0 {
        '0'
    } else if d == 1 {
        '1'
    } else if d == 2 {
        '2'
    } else if d == 3 {
        '3'
    } else if d == 4 {
        '4'
    } else if d == 5 {
        '5'
    } else if d == 6 {
        '6'
    } else if d == 7 {
        '7'
    } else if d == 8 {
        '8'
    } else {
        '9'
    }
}

/// The decimal digits of `n`, most significant first, without leading
/// zeros (`0` is rendered as the single digit `0`).
pub open spec fn dec_digits(n: nat) -> Seq<char>
    decreases n,
{
    if n < 10 {
        seq![digit_char(n)]
    } else {
        dec_digits(n / 10).push(digit_char(n % 10))
    }
}

/// The whole serialized acknowledgment document for a result and an elapsed
/// processing time in milliseconds.
pub open spec fn ack_chars(res: ProcessingResult, ms: nat) -> Seq<char> {
    "{\"messages_received\":"@ + dec_digits(res.message_count as nat)
        + ",\"processing_time_ms\":"@ + dec_digits(ms) + ",\"status\":\"success\","@
        + "\"total_batches\":"@ + dec_digits(res.total_batches as nat) + ",\"total_bytes\":"@
        + dec_digits(res.total_bytes as nat) + ",\"total_rows\":"@ + dec_digits(
        res.total_rows as nat,
    ) + "}"@
}

/// Appends the decimal rendering of `n` to `s`.
fn append_decimal(s: &mut String, n: u128)
    ensures
        final(s)@ == old(s)@ + dec_digits(n as nat),
    decreases n,
{
    if n >= 10 {
        proof {
            assert(n / 10 < n) by (nonlinear_arith)
                requires
                    n >= 10,
            ;
        }
        append_decimal(s, n / 10);
    }
    let d = n % 10;
    let piece = if d == 0 {
        "0"
    } else if d == 1 {
        "1"
    } else if d == 2 {
        "2"
    } else if d == 3 {
        "3"
    } else if d == 4 {
        "4"
    } else if d == 5 {
        "5"
    } else if d == 6 {
        "6"
    } else if d == 7 {
        "7"
    } else if d == 8 {
        "8"
    } else {
        "9"
    };
    proof {
        reveal_strlit("0");
        reveal_strlit("1");
        reveal_strlit("2");
        reveal_strlit("3");
        reveal_strlit("4");
        reveal_strlit("5");
        reveal_strlit("6");
        reveal_strlit("7");
        reveal_strlit("8");
        reveal_strlit("9");
        assert(piece@ =~= seq![digit_char((n % 10) as nat)]);
        if n < 10 {
            assert(dec_digits(n as nat) == seq![digit_char(n as nat)]);
        }
    }
    s.append(piece);
    proof {
        if n >= 10 {
            assert(old(s)@ + dec_digits((n / 10) as nat) + piece@ =~= old(s)@ + dec_digits(
                n as nat,
            ));
        } else {
            assert(old(s)@ + piece@ =~= old(s)@ + dec_digits(n as nat));
        }
    }
}

impl ProcessingResult {
    /// Serializes this result plus the elapsed processing time into the
    /// acknowledgment payload.
    pub fn to_put_result(&self, processing_time_ms: u128) -> (r: AckPayload)
        ensures
            r.app_metadata@ == ack_chars(*self, processing_time_ms as nat),
    {
        let mut s = String::new();
        s.append("{\"messages_received\":");
        append_decimal(&mut s, self.message_count as u128);
        s.append(",\"processing_time_ms\":");
        append_decimal(&mut s, processing_time_ms);
        s.append(",\"status\":\"success\",");
        s.append("\"total_batches\":");
        append_decimal(&mut s, self.total_batches as u128);
        s.append(",\"total_bytes\":");
        append_decimal(&mut s, self.total_bytes as u128);
        s.append(",\"total_rows\":");
        append_decimal(&mut s, self.total_rows as u128);
        s.append("}");
        proof {
            assert(s@ =~= ack_chars(*self, processing_time_ms as nat));
        }
        AckPayload { app_metadata: s }
    }
}

} // verus!
