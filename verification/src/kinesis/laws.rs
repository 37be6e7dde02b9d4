//! What holds of a shard consumer as a whole.

use crate::kinesis::shard_consumer;
use crate::kinesis::shard_consumer::{
    ActorExitStatus, ChildShard, Completion, DeliveryView, GetRecordsOutput, Record,
    ShardConsumerActionView, ShardConsumerMessageView, ShardConsumerStateView, LOOP_INTERVAL_MILLIS,
};
use vstd::prelude::*;

verus! {

/// The messages that a delivery sends if no send fails.
pub open spec fn sent<E>(delivery: DeliveryView) -> Seq<ShardConsumerMessageView>
    decreases delivery.messages.len(),
{
    match shard_consumer::next_action::<E>(delivery) {
        ShardConsumerActionView::Send { message, rest } if rest.messages.len()
            < delivery.messages.len() => seq![message] + sent::<E>(rest),
        _ => Seq::empty(),
    }
}

/// The action that a delivery ends in if no send fails.
pub open spec fn ending<E>(delivery: DeliveryView) -> ShardConsumerActionView<E>
    decreases delivery.messages.len(),
{
    match shard_consumer::next_action::<E>(delivery) {
        ShardConsumerActionView::Send { message, rest } if rest.messages.len()
            < delivery.messages.len() => ending::<E>(rest),
        action => action,
    }
}

/// The state of a consumer that started in `state` and took over the answers one by one.
pub open spec fn consumed(
    state: ShardConsumerStateView,
    outputs: Seq<GetRecordsOutput>,
) -> ShardConsumerStateView
    decreases outputs.len(),
{
    if outputs.len() == 0 {
        state
    } else {
        consumed(state, outputs.drop_last()).advanced(outputs.last())
    }
}

/// The records of all the answers, in the order in which they came.
pub open spec fn all_records(outputs: Seq<GetRecordsOutput>) -> Seq<Record>
    decreases outputs.len(),
{
    if outputs.len() == 0 {
        Seq::empty()
    } else {
        all_records(outputs.drop_last()) + outputs.last().records@
    }
}

/// Whether the message says that the consumer is through with its shard.
pub open spec fn is_farewell(message: ShardConsumerMessageView) -> bool {
    message is ShardClosed || message is ShardEOF
}

/// A delivery sends its messages, each once and in order, and then loops or stops as it is
/// meant to.
pub proof fn law_messages_are_sent_in_order<E>(delivery: DeliveryView)
    ensures
        sent::<E>(delivery) == delivery.messages,
        ending::<E>(delivery) == match delivery.completion {
            Completion::Loop => ShardConsumerActionView::ScheduleLoop {
                delay_millis: LOOP_INTERVAL_MILLIS as nat,
            },
            Completion::Stop => ShardConsumerActionView::<E>::Exit(ActorExitStatus::Success),
        },
    decreases delivery.messages.len(),
{
    if delivery.messages.len() > 0 {
        let rest = DeliveryView { messages: delivery.messages.skip(1), ..delivery };
        law_messages_are_sent_in_order::<E>(rest);
        assert(seq![delivery.messages[0]] + rest.messages =~= delivery.messages);
    } else {
        assert(delivery.messages =~= Seq::empty());
    }
}

/// The consumer stops by itself exactly after it said that the shard is closed or read to its
/// latest record: that is then its last message, and it is never sent otherwise.
pub proof fn law_consumer_stops_after_farewell(
    shard_id: Seq<char>,
    eof_enabled: bool,
    output: GetRecordsOutput,
)
    ensures
        ({
            let delivery = shard_consumer::delivery_of(shard_id, eof_enabled, output);
            let messages = delivery.messages;
            &&& delivery.completion == Completion::Stop ==> messages.len() > 0 && messages.last()
                == ShardConsumerMessageView::ShardEOF(shard_id)
            &&& delivery.completion == Completion::Loop ==> forall|i: int|
                0 <= i < messages.len() ==> !is_farewell(#[trigger] messages[i])
            &&& forall|i: int| 0 <= i < messages.len() - 1 ==> !is_farewell(#[trigger] messages[i])
        }),
        ({
            let delivery = shard_consumer::closing_delivery(shard_id);
            &&& delivery.completion == Completion::Stop
            &&& delivery.messages.last() == ShardConsumerMessageView::ShardClosed(shard_id)
        }),
{
}

/// The consumer stops at the latest record of the shard only if it is meant to, and then as soon
/// as an answer reaches that record.
pub proof fn law_consumer_stops_at_eof(
    shard_id: Seq<char>,
    eof_enabled: bool,
    output: GetRecordsOutput,
)
    ensures
        shard_consumer::delivery_of(shard_id, eof_enabled, output).completion == Completion::Stop
            <==> eof_enabled && output.millis_behind_latest == Some(0i64),
{
}

/// After an answer without a position to go on from, the next request to process the shard
/// reports it as closed and ends the consumer successfully.
pub proof fn law_consumer_of_closed_shard_stops<E>(
    state: ShardConsumerStateView,
    shard_id: Seq<char>,
    output: GetRecordsOutput,
)
    requires
        output.next_shard_iterator is None,
    ensures
        shard_consumer::loop_action::<E>(shard_id, state.advanced(output).next_shard_iterator) matches
            ShardConsumerActionView::Send { message, rest } && message
            == ShardConsumerMessageView::ShardClosed(shard_id) && shard_consumer::next_action::<E>(rest)
            == ShardConsumerActionView::<E>::Exit(ActorExitStatus::Success),
{
}

/// The records of an answer come before the news of the children of the shard.
pub proof fn law_records_come_before_children(
    shard_id: Seq<char>,
    eof_enabled: bool,
    output: GetRecordsOutput,
    i: int,
    j: int,
)
    requires
        0 <= i < shard_consumer::delivery_of(shard_id, eof_enabled, output).messages.len(),
        0 <= j < shard_consumer::delivery_of(shard_id, eof_enabled, output).messages.len(),
        shard_consumer::delivery_of(shard_id, eof_enabled, output).messages[i] is Records,
        shard_consumer::delivery_of(shard_id, eof_enabled, output).messages[j] is ChildShards,
    ensures
        i < j,
{
}

/// An answer without records and without children to announce is passed over in silence, unless
/// the consumer stops there.
pub proof fn law_empty_answer_is_silent(
    shard_id: Seq<char>,
    eof_enabled: bool,
    output: GetRecordsOutput,
)
    requires
        output.records@.len() == 0,
        output.child_shards is None,
        !shard_consumer::reaches_eof(eof_enabled, output),
    ensures
        shard_consumer::delivery_of(shard_id, eof_enabled, output).messages.len() == 0,
{
}

/// A child shard is announced once: no two shards announce it, and the first of its parents does.
pub proof fn law_child_is_announced_by_one_parent(child: ChildShard, first: Seq<char>, second: Seq<char>)
    ensures
        shard_consumer::announces(first, child) && shard_consumer::announces(second, child) ==> first
            == second,
        child.parent_shards@.len() > 0 ==> shard_consumer::announces(child.parent_shards@[0]@, child),
{
}

/// A consumer announces only children of its own shard, and every child whose first parent it is.
pub proof fn law_announced_children_are_own(
    shard_id: Seq<char>,
    children: Seq<ChildShard>,
    child_id: Seq<char>,
)
    ensures
        shard_consumer::announced_children(shard_id, children).contains(child_id) <==> exists|i: int|
            0 <= i < children.len() && #[trigger] children[i].shard_id@ == child_id
                && shard_consumer::announces(shard_id, children[i]),
{
    let announced = |child: ChildShard| shard_consumer::announces(shard_id, child);
    let kept = children.filter(announced);
    let ids = shard_consumer::announced_children(shard_id, children);
    if ids.contains(child_id) {
        let i = choose|i: int| 0 <= i < ids.len() && ids[i] == child_id;
        assert(kept.contains(kept[i]));
        children.lemma_filter_contains_rev(announced, kept[i]);
        let j = choose|j: int| 0 <= j < children.len() && children[j] == kept[i];
        assert(children[j].shard_id@ == child_id);
        children.lemma_filter_pred(announced, i);
    }
    if exists|i: int|
        0 <= i < children.len() && #[trigger] children[i].shard_id@ == child_id
            && shard_consumer::announces(shard_id, children[i]) {
        let i = choose|i: int|
            0 <= i < children.len() && #[trigger] children[i].shard_id@ == child_id
                && shard_consumer::announces(shard_id, children[i]);
        assert(announced(children[i]));
        children.lemma_filter_contains(announced, i);
        let j = choose|j: int| 0 <= j < kept.len() && kept[j] == children[i];
        assert(ids[j] == child_id);
    }
}

/// The counters of a consumer are those of all records that it took over since it was made, and
/// its sequence number is that of the last of them.
pub proof fn law_counters_cover_all_records(outputs: Seq<GetRecordsOutput>)
    ensures
        ({
            let state = consumed(ShardConsumerStateView::initial(), outputs);
            let records = all_records(outputs);
            &&& state.num_records_transferred == records.len()
            &&& state.num_bytes_transferred == shard_consumer::total_data_len(records)
            &&& state.current_sequence_number == if records.len() == 0 {
                None
            } else {
                Some(records.last().sequence_number@)
            }
        }),
    decreases outputs.len(),
{
    if outputs.len() > 0 {
        law_counters_cover_all_records(outputs.drop_last());
        let before = all_records(outputs.drop_last());
        let new = outputs.last().records@;
        lemma_total_data_len_concat(before, new);
        if new.len() == 0 {
            assert(before + new =~= before);
        } else {
            assert((before + new).last() == new.last());
        }
    }
}

proof fn lemma_total_data_len_concat(first: Seq<Record>, second: Seq<Record>)
    ensures
        shard_consumer::total_data_len(first + second) == shard_consumer::total_data_len(first)
            + shard_consumer::total_data_len(second),
    decreases second.len(),
{
    if second.len() == 0 {
        assert(first + second =~= first);
    } else {
        lemma_total_data_len_concat(first, second.drop_last());
        assert((first + second).drop_last() =~= first + second.drop_last());
        assert((first + second).last() == second.last());
    }
}

} // verus!
