//! Laws of the ingestion pipeline, stated over the same spec functions that
//! the executable functions' contracts use.

use vstd::prelude::*;
use crate::processor::{
    MessageView, all_accepted, batches_in_body, msg_accepted, msg_bytes, rows_in_batches,
    rows_in_body, sat_add, total_batches_of, total_bytes_of, total_rows_of,
};
use crate::schema::FieldView;
use crate::sniffer::{FormatInfoView, spec_classify};

verus! {

/// For a single-message sequence the byte total is exactly the message's
/// header length plus its body length; together with the aggregator's
/// contract this pins `process_flight_data` on one message.
pub proof fn lemma_single_message_bytes(m: MessageView)
    ensures
        total_bytes_of(seq![m]) == m.header.len() + m.body.len(),
{
    assert(seq![m].drop_last() =~= Seq::<MessageView>::empty());
    assert(seq![m].last() == m);
    assert(total_bytes_of(Seq::<MessageView>::empty()) == 0);
    assert(total_bytes_of(seq![m]) == total_bytes_of(seq![m].drop_last()) + msg_bytes(
        seq![m].last(),
    ));
}

/// Running the sniffer twice on the same bytes yields identical diagnostic
/// output: `classify` pins its result to `spec_classify`, a function of the
/// body bytes alone, so any two classification results of the same body are
/// equal.
pub proof fn lemma_sniffer_idempotent(
    body: Seq<u8>,
    first: FormatInfoView,
    second: FormatInfoView,
)
    requires
        first == spec_classify(body),
        second == spec_classify(body),
    ensures
        first == second,
{
}

/// Row totals of batch sequences stay within the machine word's range.
pub proof fn lemma_rows_in_batches_range(bs: Seq<crate::decoder::BatchSummary>)
    ensures
        0 <= rows_in_batches(bs) <= usize::MAX,
    decreases bs.len(),
{
    if bs.len() > 0 {
        lemma_rows_in_batches_range(bs.drop_last());
    }
}

/// Batch totals of message sequences stay within the machine word's range.
pub proof fn lemma_total_batches_range(s: Seq<MessageView>)
    ensures
        0 <= total_batches_of(s) <= usize::MAX,
    decreases s.len(),
{
    if s.len() > 0 {
        lemma_total_batches_range(s.drop_last());
    }
}

/// Row totals of message sequences stay within the machine word's range.
pub proof fn lemma_total_rows_range(s: Seq<MessageView>)
    ensures
        0 <= total_rows_of(s) <= usize::MAX,
    decreases s.len(),
{
    if s.len() > 0 {
        lemma_total_rows_range(s.drop_last());
        if s.last().body.len() > 0 {
            match crate::decoder::stream_decode(s.last().body) {
                Option::Some(sv) => lemma_rows_in_batches_range(sv.batches),
                Option::None => (),
            }
        }
    }
}

/// A message with an empty body is skipped by decode and validation
/// entirely: it still counts toward the message count and contributes its
/// header length to the byte total, but adds nothing to the batch or row
/// totals, and the rest of the aggregate is as if the message were absent.
pub proof fn lemma_empty_body_contribution(
    s: Seq<MessageView>,
    i: int,
    contract: Option<Seq<FieldView>>,
)
    requires
        0 <= i < s.len(),
        s[i].body.len() == 0,
    ensures
        total_bytes_of(s) == total_bytes_of(s.remove(i)) + s[i].header.len(),
        total_batches_of(s) == total_batches_of(s.remove(i)),
        total_rows_of(s) == total_rows_of(s.remove(i)),
        all_accepted(s, contract) <==> all_accepted(s.remove(i), contract),
    decreases s.len(),
{
    let t = s.remove(i);
    lemma_total_batches_range(t);
    lemma_total_rows_range(t);
    if i == s.len() - 1 {
        assert(t =~= s.drop_last());
        assert(msg_bytes(s.last()) == s[i].header.len());
        assert(batches_in_body(s.last().body) == 0);
        assert(rows_in_body(s.last().body) == 0);
        assert(sat_add(total_batches_of(t), 0) == total_batches_of(t));
        assert(sat_add(total_rows_of(t), 0) == total_rows_of(t));
    } else {
        lemma_empty_body_contribution(s.drop_last(), i, contract);
        assert(t.drop_last() =~= s.drop_last().remove(i));
        assert(t.last() == s.last());
    }
    assert(msg_accepted(s[i], contract));
    if all_accepted(s, contract) {
        assert forall|j: int| 0 <= j < t.len() implies #[trigger] msg_accepted(
            t[j],
            contract,
        ) by {
            if j < i {
                assert(t[j] == s[j]);
            } else {
                assert(t[j] == s[j + 1]);
            }
        }
    }
    if all_accepted(t, contract) {
        assert forall|j: int| 0 <= j < s.len() implies #[trigger] msg_accepted(
            s[j],
            contract,
        ) by {
            if j < i {
                assert(s[j] == t[j]);
            } else if j > i {
                assert(s[j] == t[j - 1]);
            }
        }
    }
}

} // verus!
