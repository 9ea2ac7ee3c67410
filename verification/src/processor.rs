//! Ingestion aggregator: folds a sequence of framed messages into aggregate
//! message, byte, batch and row counts, in the exact order the messages were
//! received. Every message counts toward the message and byte totals; every
//! message with a non-empty body is classified for diagnostics, decoded, and
//! its schema checked against the expected contract. The first decode or
//! validation failure aborts the whole call: no partial aggregate is ever
//! returned.

use vstd::prelude::*;
use crate::ack::ProcessingResult;
use crate::decoder::{BatchSummary, DecodeError, decode_stream, stream_decode};
use crate::schema::FieldView;
use crate::sniffer::classify;
use crate::validator::{SchemaValidator, ValidationError, spec_validate, expected_contract};

verus! {

/// One discrete unit of transport-level data: header and body byte
/// sequences plus optional opaque metadata. Immutable once received.
pub struct FramedMessage {
    pub data_header: Vec<u8>,
    pub data_body: Vec<u8>,
    pub app_metadata: Vec<u8>,
    pub flight_descriptor: Option<Vec<u8>>,
}

/// Mathematical value of a `FramedMessage`.
#[verifier::ext_equal]
pub struct MessageView {
    pub header: Seq<u8>,
    pub body: Seq<u8>,
    pub app_metadata: Seq<u8>,
    pub descriptor: Option<Seq<u8>>,
}

impl View for FramedMessage {
    type V = MessageView;

    open spec fn view(&self) -> MessageView {
        MessageView {
            header: self.data_header@,
            body: self.data_body@,
            app_metadata: self.app_metadata@,
            descriptor: match self.flight_descriptor {
                Option::None => Option::None,
                Option::Some(ref d) => Option::Some(d@),
            },
        }
    }
}

/// A fatal ingestion failure: either a malformed stream or a schema
/// mismatch. Both abort the whole call.
#[derive(Debug)]
pub enum IngestError {
    Decode(DecodeError),
    Validation(ValidationError),
}

/// The views of a message sequence.
pub open spec fn views_of(msgs: Seq<FramedMessage>) -> Seq<MessageView> {
    msgs.map_values(|m: FramedMessage| m@)
}

/// Addition clamped at the machine word's maximum.
pub open spec fn sat_add(a: int, b: int) -> int {
    if a + b > usize::MAX as int {
        usize::MAX as int
    } else {
        a + b
    }
}

/// The byte contribution of one message: header length plus body length.
pub open spec fn msg_bytes(m: MessageView) -> int {
    m.header.len() + m.body.len() as int
}

/// Total bytes of a message sequence.
pub open spec fn total_bytes_of(s: Seq<MessageView>) -> int
    decreases s.len(),
{
    if s.len() == 0 {
        0
    } else {
        total_bytes_of(s.drop_last()) + msg_bytes(s.last())
    }
}

/// Row total of a batch sequence, clamped at the machine word's maximum.
pub open spec fn rows_in_batches(bs: Seq<BatchSummary>) -> int
    decreases bs.len(),
{
    if bs.len() == 0 {
        0
    } else {
        sat_add(rows_in_batches(bs.drop_last()), bs.last().rows as int)
    }
}

/// How many batches one body contributes: none for an empty or malformed
/// body, else the number of successfully decoded batches.
pub open spec fn batches_in_body(body: Seq<u8>) -> int {
    if body.len() == 0 {
        0
    } else {
        match stream_decode(body) {
            Option::Some(sv) => sv.batches.len() as int,
            Option::None => 0,
        }
    }
}

/// How many rows one body contributes.
pub open spec fn rows_in_body(body: Seq<u8>) -> int {
    if body.len() == 0 {
        0
    } else {
        match stream_decode(body) {
            Option::Some(sv) => rows_in_batches(sv.batches),
            Option::None => 0,
        }
    }
}

/// Total batches of a message sequence, clamped at the machine word's
/// maximum.
pub open spec fn total_batches_of(s: Seq<MessageView>) -> int
    decreases s.len(),
{
    if s.len() == 0 {
        0
    } else {
        sat_add(total_batches_of(s.drop_last()), batches_in_body(s.last().body))
    }
}

/// Total rows of a message sequence, clamped at the machine word's maximum.
pub open spec fn total_rows_of(s: Seq<MessageView>) -> int
    decreases s.len(),
{
    if s.len() == 0 {
        0
    } else {
        sat_add(total_rows_of(s.drop_last()), rows_in_body(s.last().body))
    }
}

/// A message passes ingestion when its body is empty, or decodes to a
/// stream whose schema satisfies the contract.
pub open spec fn msg_accepted(m: MessageView, contract: Option<Seq<FieldView>>) -> bool {
    m.body.len() == 0 || (stream_decode(m.body) is Some && spec_validate(
        contract,
        stream_decode(m.body)->Some_0.fields,
    ))
}

/// Every message of the sequence passes ingestion.
pub open spec fn all_accepted(s: Seq<MessageView>, contract: Option<Seq<FieldView>>) -> bool {
    forall|i: int| 0 <= i < s.len() ==> #[trigger] msg_accepted(s[i], contract)
}

/// `i` is the first position whose message fails ingestion.
pub open spec fn first_failure(
    s: Seq<MessageView>,
    contract: Option<Seq<FieldView>>,
    i: int,
) -> bool {
    0 <= i < s.len() && !msg_accepted(s[i], contract) && (forall|j: int|
        0 <= j < i ==> #[trigger] msg_accepted(s[j], contract))
}

/// The returned error fits the message it aborted on: a decode error comes
/// with a malformed non-empty body, a validation error carries the
/// configured contract as `expected` and the decoded schema as `actual`,
/// and the two differ.
pub open spec fn error_explains(
    e: IngestError,
    m: MessageView,
    contract: Option<Seq<FieldView>>,
) -> bool {
    match e {
        IngestError::Decode(d) => m.body.len() > 0 && stream_decode(m.body) is None && d
            is MalformedStream,
        IngestError::Validation(v) => match v {
            ValidationError::SchemaMismatch { expected, actual } => m.body.len() > 0
                && stream_decode(m.body) is Some && contract == Some(expected@) && actual@
                == stream_decode(m.body)->Some_0.fields && expected@ != actual@,
        },
    }
}

/// Addition on machine words, clamped at the maximum instead of wrapping.
pub fn add_saturating(a: usize, b: usize) -> (r: usize)
    ensures
        r as int == sat_add(a as int, b as int),
{
    if a <= usize::MAX - b {
        a + b
    } else {
        usize::MAX
    }
}

/// Unfolds one step of `total_bytes_of` over a prefix.
pub proof fn lemma_total_bytes_take_succ(s: Seq<MessageView>, i: int)
    requires
        0 <= i < s.len(),
    ensures
        total_bytes_of(s.take(i + 1)) == total_bytes_of(s.take(i)) + msg_bytes(s[i]),
{
    assert(s.take(i + 1).drop_last() =~= s.take(i));
    assert(s.take(i + 1).last() == s[i]);
}

/// Every byte total is non-negative.
pub proof fn lemma_total_bytes_nonneg(s: Seq<MessageView>)
    ensures
        total_bytes_of(s) >= 0,
    decreases s.len(),
{
    if s.len() > 0 {
        lemma_total_bytes_nonneg(s.drop_last());
    }
}

/// A prefix never contributes more bytes than the whole sequence.
pub proof fn lemma_total_bytes_take_le(s: Seq<MessageView>, k: int)
    requires
        0 <= k <= s.len(),
    ensures
        total_bytes_of(s.take(k)) <= total_bytes_of(s),
    decreases s.len() - k,
{
    if k == s.len() {
        assert(s.take(k) =~= s);
    } else {
        lemma_total_bytes_take_succ(s, k);
        lemma_total_bytes_take_le(s, k + 1);
    }
}

/// Unfolds one step of `total_batches_of` over a prefix.
pub proof fn lemma_total_batches_take_succ(s: Seq<MessageView>, i: int)
    requires
        0 <= i < s.len(),
    ensures
        total_batches_of(s.take(i + 1)) == sat_add(
            total_batches_of(s.take(i)),
            batches_in_body(s[i].body),
        ),
{
    assert(s.take(i + 1).drop_last() =~= s.take(i));
    assert(s.take(i + 1).last() == s[i]);
}

/// Unfolds one step of `total_rows_of` over a prefix.
pub proof fn lemma_total_rows_take_succ(s: Seq<MessageView>, i: int)
    requires
        0 <= i < s.len(),
    ensures
        total_rows_of(s.take(i + 1)) == sat_add(
            total_rows_of(s.take(i)),
            rows_in_body(s[i].body),
        ),
{
    assert(s.take(i + 1).drop_last() =~= s.take(i));
    assert(s.take(i + 1).last() == s[i]);
}

/// Unfolds one step of `rows_in_batches` over a prefix.
pub proof fn lemma_rows_in_batches_take_succ(bs: Seq<BatchSummary>, k: int)
    requires
        0 <= k < bs.len(),
    ensures
        rows_in_batches(bs.take(k + 1)) == sat_add(
            rows_in_batches(bs.take(k)),
            bs[k].rows as int,
        ),
{
    assert(bs.take(k + 1).drop_last() =~= bs.take(k));
    assert(bs.take(k + 1).last() == bs[k]);
}

/// Runs the ingestion-decode-validate pipeline with the fixed expected
/// schema contract.
pub struct DataProcessor {
    schema_validator: SchemaValidator,
}

impl View for DataProcessor {
    type V = Option<Seq<FieldView>>;

    closed spec fn view(&self) -> Option<Seq<FieldView>> {
        self.schema_validator@
    }
}

impl DataProcessor {
    /// Builds a processor that validates against the fixed expected
    /// contract.
    pub fn new() -> (r: DataProcessor)
        ensures
            r@ == Some(expected_contract()),
    {
        DataProcessor { schema_validator: SchemaValidator::new_with_default_schema() }
    }

    /// Processes the full message sequence in order. Returns the finalized
    /// aggregate exactly when every message with a non-empty body decodes
    /// and validates; otherwise fails fast with the error of the first
    /// offending message and no partial result.
    pub fn process_flight_data(&self, flight_data_messages: Vec<FramedMessage>) -> (r: Result<
        ProcessingResult,
        IngestError,
    >)
        requires
            total_bytes_of(views_of(flight_data_messages@)) <= usize::MAX,
        ensures
            ({
                let ms = views_of(flight_data_messages@);
                &&& (r is Ok <==> all_accepted(ms, self@))
                &&& (r matches Ok(res) ==> res.message_count == ms.len() && res.total_bytes
                    == total_bytes_of(ms) && res.total_batches == total_batches_of(ms)
                    && res.total_rows == total_rows_of(ms))
                &&& (r matches Err(e) ==> exists|i: int|
                    #[trigger] first_failure(ms, self@, i) && error_explains(e, ms[i], self@))
            }),
    {
        let ghost ms = views_of(flight_data_messages@);
        let n = flight_data_messages.len();
        let mut message_count: usize = 0;
        let mut total_bytes: usize = 0;
        let mut total_batches: usize = 0;
        let mut total_rows: usize = 0;
        let mut idx: usize = 0;
        while idx < n
            invariant
                ms == views_of(flight_data_messages@),
                n == flight_data_messages@.len(),
                ms.len() == n,
                total_bytes_of(ms) <= usize::MAX,
                idx <= n,
                forall|j: int| 0 <= j < idx ==> #[trigger] msg_accepted(ms[j], self@),
                message_count == idx,
                total_bytes as int == total_bytes_of(ms.take(idx as int)),
                total_batches as int == total_batches_of(ms.take(idx as int)),
                total_rows as int == total_rows_of(ms.take(idx as int)),
            decreases n - idx,
        {
            let m = &flight_data_messages[idx];
            proof {
                assert(ms[idx as int] == m@);
                lemma_total_bytes_take_succ(ms, idx as int);
                lemma_total_bytes_take_le(ms, idx as int + 1);
                lemma_total_bytes_nonneg(ms.take(idx as int));
            }
            message_count += 1;
            total_bytes = total_bytes + m.data_header.len() + m.data_body.len();
            let mut msg_batches: usize = 0;
            let mut msg_rows: usize = 0;
            if m.data_body.len() > 0 {
                // Diagnostic classification only; it must not gate decoding.
                let _format_info = classify(&m.data_body);
                match decode_stream(&m.data_body) {
                    Err(e) => {
                        let err = IngestError::Decode(e);
                        proof {
                            assert(!msg_accepted(ms[idx as int], self@));
                            assert(first_failure(ms, self@, idx as int));
                            assert(error_explains(err, ms[idx as int], self@));
                        }
                        return Err(err);
                    },
                    Ok(d) => {
                        if !self.schema_validator.validate(&d.schema) {
                            let expected = match &self.schema_validator.data_schema {
                                Some(s) => s.duplicate(),
                                None => unreached(),
                            };
                            let err = IngestError::Validation(
                                ValidationError::SchemaMismatch { expected, actual: d.schema },
                            );
                            proof {
                                assert(!msg_accepted(ms[idx as int], self@));
                                assert(first_failure(ms, self@, idx as int));
                                assert(error_explains(err, ms[idx as int], self@));
                            }
                            return Err(err);
                        }
                        msg_batches = d.batches.len();
                        let mut k: usize = 0;
                        while k < d.batches.len()
                            invariant
                                k <= d.batches@.len(),
                                msg_rows as int == rows_in_batches(d.batches@.take(k as int)),
                            decreases d.batches@.len() - k,
                        {
                            proof {
                                lemma_rows_in_batches_take_succ(d.batches@, k as int);
                            }
                            msg_rows = add_saturating(msg_rows, d.batches[k].rows);
                            k += 1;
                        }
                        proof {
                            assert(d.batches@.take(d.batches@.len() as int) =~= d.batches@);
                            assert(msg_batches as int == batches_in_body(ms[idx as int].body));
                            assert(msg_rows as int == rows_in_body(ms[idx as int].body));
                            assert(msg_accepted(ms[idx as int], self@));
                        }
                    },
                }
            }
            proof {
                lemma_total_batches_take_succ(ms, idx as int);
                lemma_total_rows_take_succ(ms, idx as int);
            }
            total_batches = add_saturating(total_batches, msg_batches);
            total_rows = add_saturating(total_rows, msg_rows);
            idx += 1;
        }
        proof {
            assert(ms.take(n as int) =~= ms);
        }
        Ok(ProcessingResult { message_count, total_bytes, total_batches, total_rows })
    }
}

} // verus!
