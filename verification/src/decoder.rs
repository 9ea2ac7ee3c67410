//! Columnar stream decoder: interprets a message body as a self-describing
//! columnar stream — one schema-definition message followed by zero or more
//! length-delimited row-batches — and reports the schema together with a
//! summary (row count, column count) of every batch that parses.
//!
//! The parsing itself is done by the stream reader of the `arrow-ipc` crate,
//! behind trusted declarations; the iteration policy is verified here: if the
//! leading schema message is malformed the whole decode fails, while a
//! batch-level failure only stops iteration, keeping the batches already
//! read.

use vstd::prelude::*;
use crate::schema::{DataTypeTag, Field, FieldView, Schema};

verus! {

/// Summary of one decoded row-batch: its row count and column count.
#[derive(PartialEq, Eq, Structural, Clone, Copy, Debug)]
pub struct BatchSummary {
    pub rows: usize,
    pub cols: usize,
}

/// Decoder errors.
#[derive(Debug)]
pub enum DecodeError {
    /// The body cannot be parsed as a valid columnar stream header; fatal to
    /// the whole decode, no batches are produced.
    MalformedStream(String),
    /// An individual batch inside an otherwise valid stream failed to parse;
    /// recovered locally by stopping iteration for that body only.
    BatchReadFailure(String),
}

/// A decoded message body: the stream's schema and summaries of its batches.
pub struct DecodedStream {
    pub schema: Schema,
    pub batches: Vec<BatchSummary>,
}

/// Mathematical value of a `DecodedStream`.
#[verifier::ext_equal]
pub struct StreamView {
    pub fields: Seq<FieldView>,
    pub batches: Seq<BatchSummary>,
}

impl View for DecodedStream {
    type V = StreamView;

    open spec fn view(&self) -> StreamView {
        StreamView { fields: self.schema@, batches: self.batches@ }
    }
}

/// What decoding a byte sequence yields: `None` when the bytes do not begin
/// with a valid schema message, otherwise the schema and the summaries of
/// the batches that parse, up to the first batch-level failure. The decode
/// is a function of the bytes alone.
pub uninterp spec fn stream_decode(bytes: Seq<u8>) -> Option<StreamView>;

#[verifier::external_type_specification]
#[verifier::external_body]
#[verifier::reject_recursive_types(R)]
pub struct ExStreamReader<R>(arrow_ipc::reader::StreamReader<R>);

#[verifier::external_type_specification]
#[verifier::external_body]
#[verifier::reject_recursive_types(T)]
pub struct ExCursor<T>(std::io::Cursor<T>);

#[verifier::external_type_specification]
#[verifier::external_body]
pub struct ExArrowError(arrow_schema::ArrowError);

/// The stream reader type used for one in-memory body.
pub type BodyReader = arrow_ipc::reader::StreamReader<std::io::Cursor<Vec<u8>>>;

/// The schema a reader read from its stream's first message.
pub uninterp spec fn reader_fields(r: BodyReader) -> Seq<FieldView>;

/// The summaries of the batches a reader will still successfully yield,
/// up to the first batch-level failure or the end of its stream.
pub uninterp spec fn reader_pending(r: BodyReader) -> Seq<BatchSummary>;

/// Relies on `arrow_ipc::reader::StreamReader::try_new`: it parses the
/// stream's leading schema message and returns `Err` exactly when the body
/// does not begin with a well-formed one; the schema read and the batches
/// that will follow are a function of the body bytes alone.
#[verifier::external_body]
fn reader_new(body: &Vec<u8>) -> (r: Result<BodyReader, arrow_schema::ArrowError>)
    ensures
        r is Ok <==> stream_decode(body@) is Some,
        (r matches Ok(rd) ==> reader_fields(rd) == stream_decode(body@)->Some_0.fields
            && reader_pending(rd) == stream_decode(body@)->Some_0.batches),
{
    arrow_ipc::reader::StreamReader::try_new(std::io::Cursor::new(body.clone()), None)
}

/// Relies on `StreamReader::schema` and the accessors of
/// `arrow_schema::Field` (`name`, `data_type`, `is_nullable`): together they
/// expose exactly the fields of the schema the reader read.
#[verifier::external_body]
fn reader_schema(r: &BodyReader) -> (s: Schema)
    ensures
        s@ == reader_fields(*r),
{
    let fields = r.schema().fields().iter().map(
        |f| Field {
            name: f.name().clone(),
            data_type: match f.data_type() {
                arrow_schema::DataType::Int32 => DataTypeTag::Int32,
                arrow_schema::DataType::Utf8 => DataTypeTag::Utf8,
                arrow_schema::DataType::Float64 => DataTypeTag::Float64,
                other => DataTypeTag::Other(format!("{other:?}")),
            },
            nullable: f.is_nullable(),
        },
    ).collect();
    Schema { fields }
}

/// One step of batch iteration.
pub enum BatchStep {
    /// A batch parsed; its summary.
    Batch(BatchSummary),
    /// A batch failed to parse; iteration for this body is over.
    ReadError(String),
    /// The stream ended.
    End,
}

/// Relies on the `Iterator` impl of `StreamReader` (`next`) and on
/// `RecordBatch::num_rows` / `num_columns`: a successfully yielded batch is
/// the next pending one with exactly its own row and column counts, and
/// `None` or a batch-level error comes only once no pending batch is left.
#[verifier::external_body]
fn reader_next(r: &mut BodyReader) -> (step: BatchStep)
    ensures
        reader_fields(*final(r)) == reader_fields(*old(r)),
        (step matches BatchStep::Batch(b) ==> reader_pending(*old(r)).len() > 0 && b
            == reader_pending(*old(r))[0] && reader_pending(*final(r)) == reader_pending(
            *old(r),
        ).drop_first()),
        !(step is Batch) ==> reader_pending(*old(r)).len() == 0,
{
    match r.next() {
        Some(Ok(b)) => BatchStep::Batch(
            BatchSummary { rows: b.num_rows(), cols: b.num_columns() },
        ),
        Some(Err(e)) => BatchStep::ReadError(format!("{e}")),
        None => BatchStep::End,
    }
}

/// Relies on the `Display` impl of `arrow_schema::ArrowError` for a
/// human-readable failure reason.
#[verifier::external_body]
fn describe_arrow_error(e: &arrow_schema::ArrowError) -> String {
    format!("{e}")
}

/// Decodes one message body. Fails with `MalformedStream` exactly when the
/// body does not begin with a valid schema message; otherwise returns the
/// decoded schema and the summaries of all batches up to the first
/// batch-level failure, which only ends iteration early.
pub fn decode_stream(body: &Vec<u8>) -> (r: Result<DecodedStream, DecodeError>)
    ensures
        r is Ok <==> stream_decode(body@) is Some,
        (r matches Ok(d) ==> d@ == stream_decode(body@)->Some_0),
        (r matches Err(e) ==> e is MalformedStream),
{
    let mut reader = match reader_new(body) {
        Ok(rd) => rd,
        Err(e) => {
            return Err(DecodeError::MalformedStream(describe_arrow_error(&e)));
        },
    };
    let ghost model = stream_decode(body@)->Some_0;
    let schema = reader_schema(&reader);
    let mut batches: Vec<BatchSummary> = Vec::new();
    let mut done = false;
    while !done
        invariant
            !done ==> batches@ + reader_pending(reader) == model.batches,
            done ==> batches@ == model.batches,
        decreases (if done {
            0int
        } else {
            reader_pending(reader).len() + 1int
        }),
    {
        match reader_next(&mut reader) {
            BatchStep::Batch(b) => {
                proof {
                    assert(batches@.push(b) + reader_pending(reader) =~= model.batches);
                }
                batches.push(b);
            },
            _ => {
                proof {
                    assert(batches@ =~= model.batches);
                }
                done = true;
            },
        }
    }
    let d = DecodedStream { schema, batches };
    proof {
        assert(d@ =~= model);
    }
    Ok(d)
}

} // verus!
