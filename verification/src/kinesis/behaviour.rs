//! What a caller of the shard consumer can rely on, call by call: each law is about what a call
//! returns, and how it leaves the consumer, for what it was given.

use crate::json;
use crate::json::JsonScalarView;
use crate::kinesis::shard_consumer;
use crate::kinesis::shard_consumer::{
    ActorExitStatus, ChildShard, Completion, Delivery, GetRecordsOutput, Record, ShardConsumer,
    ShardConsumerAction, ShardConsumerActionView, ShardConsumerMessage, ShardConsumerMessageView,
    ShardConsumerView, ShardIteratorRequest,
};
use vstd::prelude::*;

verus! {

/// All messages that an action leads to, if no send fails.
pub open spec fn messages_of<E>(action: ShardConsumerActionView<E>) -> Seq<ShardConsumerMessageView> {
    match action {
        ShardConsumerActionView::Send { message, rest } => seq![message] + rest.messages,
        _ => Seq::empty(),
    }
}

/// Whether an action ends the consumer successfully, once the messages are sent if there are any.
pub open spec fn stops<E>(action: ShardConsumerActionView<E>) -> bool {
    match action {
        ShardConsumerActionView::Send { rest, .. } => rest.completion == Completion::Stop,
        ShardConsumerActionView::Exit(status) => status is Success,
        _ => false,
    }
}

/// Whether an action leads to another turn, after 210 milliseconds, once the messages are sent if
/// there are any.
pub open spec fn loops<E>(action: ShardConsumerActionView<E>) -> bool {
    match action {
        ShardConsumerActionView::Send { rest, .. } => rest.completion == Completion::Loop,
        ShardConsumerActionView::ScheduleLoop { delay_millis } => delay_millis == 210,
        _ => false,
    }
}

/// Whether the first of the parents of the child is the shard.
pub open spec fn is_first_parent(shard_id: Seq<char>, child: ChildShard) -> bool {
    child.parent_shards@.len() > 0 && child.parent_shards@[0]@ == shard_id
}

/// Whether the answer names a child of which the shard is the first parent.
pub open spec fn has_child(shard_id: Seq<char>, output: GetRecordsOutput) -> bool {
    output.child_shards matches Some(children) && exists|i: int|
        0 <= i < children@.len() && is_first_parent(shard_id, #[trigger] children@[i])
}

/// Whether `positions` are the places, in order, of the children of which the shard is the first
/// parent.
pub open spec fn are_children_positions(
    positions: Seq<int>,
    shard_id: Seq<char>,
    children: Seq<ChildShard>,
) -> bool {
    &&& forall|k: int, l: int| 0 <= k < l < positions.len() ==> positions[k] < positions[l]
    &&& forall|k: int|
        0 <= k < positions.len() ==> 0 <= #[trigger] positions[k] < children.len() && is_first_parent(
            shard_id,
            children[positions[k]],
        )
    &&& forall|i: int|
        0 <= i < children.len() && is_first_parent(shard_id, #[trigger] children[i])
            ==> positions.contains(i)
}

/// Whether `ids` are the ids of exactly the children of which the shard is the first parent, in
/// order.
pub open spec fn are_children_ids(
    ids: Seq<Seq<char>>,
    shard_id: Seq<char>,
    children: Seq<ChildShard>,
) -> bool {
    exists|positions: Seq<int>|
        {
            &&& #[trigger] are_children_positions(positions, shard_id, children)
            &&& ids.len() == positions.len()
            &&& forall|k: int|
                0 <= k < ids.len() ==> #[trigger] ids[k] == children[positions[k]].shard_id@
        }
}

/// Whether the two are the same consumer, but for how far it has come.
pub open spec fn same_consumer(a: ShardConsumerView, b: ShardConsumerView) -> bool {
    &&& a.stream_name == b.stream_name
    &&& a.shard_id == b.shard_id
    &&& a.from_sequence_number_exclusive == b.from_sequence_number_exclusive
    &&& a.eof_enabled == b.eof_enabled
}

/// Whether the action closes the shard: it reports the shard as closed, sends nothing else, and
/// the consumer then ends successfully.
pub open spec fn closes<E>(action: ShardConsumerAction<E>, shard_id: Seq<char>) -> bool {
    &&& action matches ShardConsumerAction::Send { message, rest }
    &&& message matches ShardConsumerMessage::ShardClosed(closed)
    &&& closed@ == shard_id
    &&& rest@.messages.len() == 0
    &&& rest@.completion == Completion::Stop
}

/// A consumer that has the position to go on from reads on from exactly there; only one that has
/// none reports the shard as closed. The position is used once, and nothing else changes.
pub proof fn law_process_message<E>(consumer: &mut ShardConsumer, action: ShardConsumerAction<E>)
    requires
        call_ensures(ShardConsumer::process_message::<E>, (consumer,), action),
    ensures
        old(consumer)@.state.next_shard_iterator matches Some(position) ==> (action matches
            ShardConsumerAction::GetRecords { shard_iterator } && shard_iterator@ == position),
        old(consumer)@.state.next_shard_iterator is None ==> closes(action, old(consumer)@.shard_id),
        final(consumer)@.state.next_shard_iterator is None,
        same_consumer(final(consumer)@, old(consumer)@),
        final(consumer)@.state.current_sequence_number == old(consumer)@.state.current_sequence_number,
        final(consumer)@.state.num_bytes_transferred == old(consumer)@.state.num_bytes_transferred,
        final(consumer)@.state.num_records_transferred
            == old(consumer)@.state.num_records_transferred,
{
}

/// The position that the shard starts at is the first to be read from. A shard without one is
/// reported as closed, and a failure to find it ends the consumer.
pub proof fn law_shard_iterator_received<E>(
    consumer: &mut ShardConsumer,
    shard_iterator: Result<Option<String>, E>,
    action: ShardConsumerAction<E>,
)
    requires
        call_ensures(
            ShardConsumer::shard_iterator_received::<E>,
            (consumer, shard_iterator),
            action,
        ),
    ensures
        shard_iterator matches Ok(Some(start)) ==> (action matches ShardConsumerAction::GetRecords {
            shard_iterator: position,
        } && position@ == start@),
        shard_iterator matches Ok(None) ==> closes(action, old(consumer)@.shard_id),
        shard_iterator matches Err(error) ==> action == ShardConsumerAction::<E>::Exit(
            ActorExitStatus::Failure(error),
        ),
        shard_iterator is Err ==> final(consumer)@ == old(consumer)@,
        shard_iterator is Ok ==> final(consumer)@.state.next_shard_iterator is None,
        same_consumer(final(consumer)@, old(consumer)@),
        final(consumer)@.state.current_sequence_number == old(consumer)@.state.current_sequence_number,
        final(consumer)@.state.num_bytes_transferred == old(consumer)@.state.num_bytes_transferred,
        final(consumer)@.state.num_records_transferred
            == old(consumer)@.state.num_records_transferred,
{
}

/// After any answer that gives a position to go on from, with or without records, the next turn
/// reads from exactly that position; the shard is reported as closed only after an answer that
/// gives none.
pub proof fn law_shard_is_read_on_from_answer<E>(
    consumer: &mut ShardConsumer,
    output: GetRecordsOutput,
    action: ShardConsumerAction<E>,
    later: &mut ShardConsumer,
    next: ShardConsumerAction<E>,
)
    requires
        call_ensures(ShardConsumer::records_received::<E>, (consumer, Ok(output)), action),
        call_ensures(ShardConsumer::process_message::<E>, (later,), next),
    ensures
        final(consumer)@ == old(later)@ ==> match output.next_shard_iterator {
            Some(position) => next matches ShardConsumerAction::GetRecords { shard_iterator }
                && shard_iterator@ == position@,
            None => closes(next, old(consumer)@.shard_id),
        },
{
}

/// The messages of an answer are: its records, if it has any, with the lag; the children of which
/// the shard is the first parent, if it names any, whatever else it holds; and that the tip of the
/// shard is reached, if the consumer is to stop there. Then it stops, else it goes on.
pub proof fn law_answer_is_passed_on<E>(
    consumer: &mut ShardConsumer,
    output: GetRecordsOutput,
    action: ShardConsumerAction<E>,
)
    requires
        call_ensures(ShardConsumer::records_received::<E>, (consumer, Ok(output)), action),
    ensures
        ({
            let shard_id = old(consumer)@.shard_id;
            let messages = messages_of(action@);
            let about_records: int = if output.records@.len() > 0 {
                1
            } else {
                0
            };
            let about_children: int = if has_child(shard_id, output) {
                1
            } else {
                0
            };
            let at_tip = old(consumer)@.eof_enabled && output.millis_behind_latest == Some(0i64);
            &&& messages.len() == about_records + about_children + if at_tip {
                1int
            } else {
                0
            }
            &&& output.records@.len() > 0 ==> messages[0] == (ShardConsumerMessageView::Records {
                shard_id,
                records: output.records@,
                lag_millis: output.millis_behind_latest,
            })
            &&& has_child(shard_id, output) ==> (messages[about_records] matches
                ShardConsumerMessageView::ChildShards(ids) && are_children_ids(
                ids,
                shard_id,
                output.child_shards->0@,
            ))
            &&& at_tip ==> messages.last() == ShardConsumerMessageView::ShardEOF(shard_id)
            &&& at_tip ==> stops(action@)
            &&& !at_tip ==> loops(action@)
        }),
{
    let shard_id = old(consumer)@.shard_id;
    if let Some(children) = output.child_shards {
        let ids = shard_consumer::announced_children(shard_id, children@);
        lemma_announced_children(shard_id, children@);
        let positions = choose|positions: Seq<int>|
            {
                &&& #[trigger] are_children_positions(positions, shard_id, children@)
                &&& ids.len() == positions.len()
                &&& forall|k: int|
                    0 <= k < ids.len() ==> #[trigger] ids[k] == children@[positions[k]].shard_id@
            };
        if ids.len() > 0 {
            assert(is_first_parent(shard_id, children@[positions[0]]));
        }
        if has_child(shard_id, output) {
            let i = choose|i: int|
                0 <= i < children@.len() && is_first_parent(shard_id, #[trigger] children@[i]);
            assert(positions.contains(i));
        }
    }
    let delivery = shard_consumer::delivery_of(shard_id, old(consumer)@.eof_enabled, output);
    if delivery.messages.len() > 0 {
        assert(messages_of(action@) =~= delivery.messages);
    }
}

/// An answer counts its records and their bytes and notes the sequence number of the last of them,
/// keeps the position that it gives, and changes nothing else about the consumer.
pub proof fn law_answer_is_counted<E>(
    consumer: &mut ShardConsumer,
    output: GetRecordsOutput,
    action: ShardConsumerAction<E>,
)
    requires
        call_ensures(ShardConsumer::records_received::<E>, (consumer, Ok(output)), action),
    ensures
        ({
            let before = old(consumer)@.state;
            let after = final(consumer)@.state;
            &&& after.num_records_transferred == before.num_records_transferred
                + output.records@.len()
            &&& after.num_bytes_transferred == before.num_bytes_transferred
                + shard_consumer::total_data_len(output.records@)
            &&& output.records@.len() > 0 ==> after.current_sequence_number == Some(
                output.records@[output.records@.len() - 1].sequence_number@,
            )
            &&& output.records@.len() == 0 ==> after.current_sequence_number
                == before.current_sequence_number
            &&& after.next_shard_iterator is Some <==> output.next_shard_iterator is Some
            &&& output.next_shard_iterator matches Some(position) ==> after.next_shard_iterator
                == Some(position@)
            &&& same_consumer(final(consumer)@, old(consumer)@)
        }),
{
}

/// The number of bytes of records is the sum of the lengths of their data.
pub proof fn law_bytes_add_up(first: Seq<Record>, second: Seq<Record>, record: Record)
    ensures
        shard_consumer::total_data_len(Seq::<Record>::empty()) == 0,
        shard_consumer::total_data_len(seq![record]) == record.data@.len(),
        shard_consumer::total_data_len(first + second) == shard_consumer::total_data_len(first)
            + shard_consumer::total_data_len(second),
    decreases second.len(),
{
    reveal_with_fuel(shard_consumer::total_data_len, 2);
    assert(seq![record].drop_last() =~= Seq::<Record>::empty());
    if second.len() == 0 {
        assert(first + second =~= first);
    } else {
        law_bytes_add_up(first, second.drop_last(), record);
        assert((first + second).drop_last() =~= first + second.drop_last());
        assert((first + second).last() == second.last());
    }
}

/// A request for records that failed ends the consumer with its error, and changes nothing.
pub proof fn law_failed_request_ends_consumer<E>(
    consumer: &mut ShardConsumer,
    error: E,
    action: ShardConsumerAction<E>,
)
    requires
        call_ensures(
            ShardConsumer::records_received::<E>,
            (consumer, Err::<GetRecordsOutput, E>(error)),
            action,
        ),
    ensures
        action == ShardConsumerAction::<E>::Exit(ActorExitStatus::Failure(error)),
        final(consumer)@ == old(consumer)@,
{
}

/// Once a message is sent the next one is, with the others left in order; once all are sent the
/// consumer loops after 210 milliseconds, or stops successfully. A message that could not be sent
/// ends the consumer with the error.
pub proof fn law_message_sent<E>(
    delivery: Delivery,
    sent: Result<(), E>,
    action: ShardConsumerAction<E>,
)
    requires
        call_ensures(Delivery::message_sent::<E>, (delivery, sent), action),
    ensures
        sent matches Err(error) ==> action == ShardConsumerAction::<E>::Exit(
            ActorExitStatus::Failure(error),
        ),
        sent is Ok ==> messages_of(action@) == delivery@.messages,
        sent is Ok && delivery@.messages.len() > 0 ==> action is Send,
        sent is Ok ==> match delivery@.completion {
            Completion::Loop => loops(action@),
            Completion::Stop => stops(action@),
        },
{
    if sent is Ok {
        assert(messages_of(action@) =~= delivery@.messages);
    }
}

/// What the messages are stated about is what they hold.
pub proof fn law_messages_hold_what_they_say(message: ShardConsumerMessage)
    ensures
        message is ChildShards <==> message@ is ChildShards,
        message is Records <==> message@ is Records,
        message is ShardClosed <==> message@ is ShardClosed,
        message is ShardEOF <==> message@ is ShardEOF,
        message matches ShardConsumerMessage::ChildShards(ids) ==> {
            &&& message@->ChildShards_0.len() == ids@.len()
            &&& forall|i: int|
                0 <= i < ids@.len() ==> #[trigger] message@->ChildShards_0[i] == ids@[i]@
        },
        message matches ShardConsumerMessage::Records { shard_id, records, lag_millis } ==> {
            &&& message@->shard_id == shard_id@
            &&& message@->records == records@
            &&& message@->lag_millis == lag_millis
        },
        message matches ShardConsumerMessage::ShardClosed(shard_id) ==> message@->ShardClosed_0
            == shard_id@,
        message matches ShardConsumerMessage::ShardEOF(shard_id) ==> message@->ShardEOF_0 == shard_id@,
{
}

/// What the actions are stated about is what the caller is told to do.
pub proof fn law_actions_tell_what_to_do<E>(action: ShardConsumerAction<E>)
    ensures
        match action {
            ShardConsumerAction::GetRecords { shard_iterator } => action@ is GetRecords
                && action@->shard_iterator == shard_iterator@,
            ShardConsumerAction::Send { message, rest } => action@ is Send && action@->message
                == message@ && action@->rest == rest@,
            ShardConsumerAction::ScheduleLoop { delay_millis } => action@ is ScheduleLoop
                && action@->delay_millis == delay_millis,
            ShardConsumerAction::Exit(status) => action@ is Exit && action@->Exit_0 == status,
        },
{
}

/// A new consumer asks for the position after the sequence number that it was given, in the shard
/// and the stream that it was given, and has transferred nothing.
pub proof fn law_new_consumer_starts_where_told(
    stream_name: String,
    shard_id: String,
    from_sequence_number_exclusive: Option<String>,
    eof_enabled: bool,
    consumer: ShardConsumer,
    request: ShardIteratorRequest,
)
    requires
        call_ensures(
            ShardConsumer::new,
            (stream_name, shard_id, from_sequence_number_exclusive, eof_enabled),
            consumer,
        ),
        call_ensures(ShardConsumer::initialize, (&consumer,), request),
    ensures
        request.stream_name@ == stream_name@,
        request.shard_id@ == shard_id@,
        request.from_sequence_number_exclusive is Some <==> from_sequence_number_exclusive is Some,
        from_sequence_number_exclusive matches Some(number) ==>
            request.from_sequence_number_exclusive->0@ == number@,
        consumer@.shard_id == shard_id@,
        consumer@.stream_name == stream_name@,
        consumer@.eof_enabled == eof_enabled,
        consumer@.state.current_sequence_number is None,
        consumer@.state.num_bytes_transferred == 0,
        consumer@.state.num_records_transferred == 0,
        consumer@.state.next_shard_iterator is None,
{
}

/// A consumer has room for an answer exactly if neither counter would exceed 64 bits.
pub proof fn law_has_room_for(consumer: ShardConsumer, output: GetRecordsOutput, room: bool)
    requires
        call_ensures(ShardConsumer::has_room_for, (&consumer, &output), room),
    ensures
        room <==> {
            &&& consumer@.state.num_records_transferred + output.records@.len() <= u64::MAX
            &&& consumer@.state.num_bytes_transferred + shard_consumer::total_data_len(
                output.records@,
            ) <= u64::MAX
        },
{
}

/// Every answer can be handed to a consumer whose counters do not exceed 64 bits with it, and so can
/// every failure.
pub proof fn law_every_answer_is_accepted<E>(
    consumer: &mut ShardConsumer,
    output: Result<GetRecordsOutput, E>,
)
    requires
        output matches Ok(output) ==> {
            &&& old(consumer)@.state.num_records_transferred + output.records@.len() <= u64::MAX
            &&& old(consumer)@.state.num_bytes_transferred + shard_consumer::total_data_len(
                output.records@,
            ) <= u64::MAX
        },
    ensures
        call_requires(ShardConsumer::records_received::<E>, (consumer, output)),
{
}

/// An observer sees the stream, the shard, the sequence number of the last record or null, and the
/// two counters, and nothing else.
pub proof fn law_observable_state(
    consumer: ShardConsumer,
    state: serde_json::Value,
    key: Seq<char>,
)
    requires
        call_ensures(ShardConsumer::observable_state, (&consumer,), state),
    ensures
        ({
            let members = json::json_members(state)->0;
            &&& json::json_members(state) is Some
            &&& members.contains_key(key) <==> key == "stream_name"@ || key == "shard_id"@ || key
                == "current_sequence_number"@ || key == "num_bytes_transferred"@ || key
                == "num_records_transferred"@
            &&& members["stream_name"@] == JsonScalarView::Text(consumer@.stream_name)
            &&& members["shard_id"@] == JsonScalarView::Text(consumer@.shard_id)
            &&& consumer@.state.current_sequence_number is None
                ==> members["current_sequence_number"@] == JsonScalarView::Null
            &&& consumer@.state.current_sequence_number matches Some(number)
                ==> members["current_sequence_number"@] == JsonScalarView::Text(number)
            &&& members["num_bytes_transferred"@] == JsonScalarView::Number(
                consumer@.state.num_bytes_transferred,
            )
            &&& members["num_records_transferred"@] == JsonScalarView::Number(
                consumer@.state.num_records_transferred,
            )
        }),
{
    reveal_strlit("stream_name");
    reveal_strlit("shard_id");
    reveal_strlit("current_sequence_number");
    reveal_strlit("num_bytes_transferred");
    reveal_strlit("num_records_transferred");
    assert("stream_name"@.len() == 11);
    assert("shard_id"@.len() == 8);
    assert("current_sequence_number"@[0] == 'c');
    assert("num_bytes_transferred"@.len() == 21);
    assert("num_records_transferred"@[0] == 'n');
}

/// The consumer goes by its name.
pub proof fn law_name(consumer: ShardConsumer, name: String)
    requires
        call_ensures(ShardConsumer::name, (&consumer,), name),
    ensures
        name@ == "KinesisShardConsumer"@,
{
}

proof fn lemma_announced_children(shard_id: Seq<char>, children: Seq<ChildShard>)
    ensures
        are_children_ids(
            shard_consumer::announced_children(shard_id, children),
            shard_id,
            children,
        ),
    decreases children.len(),
{
    reveal(Seq::filter);
    let ids = shard_consumer::announced_children(shard_id, children);
    if children.len() == 0 {
        let positions = Seq::<int>::empty();
        assert(are_children_positions(positions, shard_id, children));
        assert(ids.len() == positions.len());
    } else {
        let earlier = children.drop_last();
        let earlier_ids = shard_consumer::announced_children(shard_id, earlier);
        lemma_announced_children(shard_id, earlier);
        let known = choose|positions: Seq<int>|
            {
                &&& #[trigger] are_children_positions(positions, shard_id, earlier)
                &&& earlier_ids.len() == positions.len()
                &&& forall|k: int|
                    0 <= k < earlier_ids.len() ==> #[trigger] earlier_ids[k]
                        == earlier[positions[k]].shard_id@
            };
        let place = children.len() - 1;
        let positions = if is_first_parent(shard_id, children[place]) {
            known.push(place)
        } else {
            known
        };
        if is_first_parent(shard_id, children[place]) {
            assert(ids =~= earlier_ids.push(children[place].shard_id@));
        } else {
            assert(ids =~= earlier_ids);
        }
        assert forall|i: int|
            0 <= i < children.len() && is_first_parent(
                shard_id,
                #[trigger] children[i],
            ) implies positions.contains(i) by {
            if i < place {
                assert(earlier[i] == children[i]);
                assert(known.contains(i));
                let k = choose|k: int| 0 <= k < known.len() && known[k] == i;
                assert(positions[k] == i);
            } else {
                assert(positions[known.len() as int] == i);
            }
        }
        assert(are_children_positions(positions, shard_id, children));
        assert forall|k: int| 0 <= k < ids.len() implies #[trigger] ids[k]
            == children[positions[k]].shard_id@ by {
            if k < earlier_ids.len() {
                assert(ids[k] == earlier_ids[k]);
                assert(earlier[known[k]] == children[known[k]]);
            }
        }
    }
}

} // verus!
