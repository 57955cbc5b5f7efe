//! Edits of parameters on their way from the GUI to the host.

use std::collections::VecDeque;
use vstd::prelude::*;

use crate::wrac_clap_adapter::events::{OutputEvent, ParameterGestureEvent, ParameterValueEvent};

verus! {

/// An edit of a parameter. `value` holds the bits of a double.
#[derive(Debug, Clone, Copy, PartialEq, Eq, Structural)]
pub enum ParameterEditEvent {
    Begin { parameter_id: u32 },
    Update { parameter_id: u32, value: u64 },
    End { parameter_id: u32 },
}

/// The event by which the host learns of an edit: at the start of the block, and for every note,
/// port, channel and key.
pub open spec fn edit_event(edit: ParameterEditEvent) -> OutputEvent {
    match edit {
        ParameterEditEvent::Begin { parameter_id } => OutputEvent::ParamGestureBegin(
            ParameterGestureEvent { time: 0, parameter_id },
        ),
        ParameterEditEvent::Update { parameter_id, value } => OutputEvent::ParamValue(
            ParameterValueEvent {
                time: 0,
                parameter_id,
                value,
                note_id: -1i32,
                port_index: -1i16,
                channel: -1i16,
                key: -1i16,
            },
        ),
        ParameterEditEvent::End { parameter_id } => OutputEvent::ParamGestureEnd(
            ParameterGestureEvent { time: 0, parameter_id },
        ),
    }
}

/// The event by which the host learns of an edit.
pub fn output_event(edit: ParameterEditEvent) -> (event: OutputEvent)
    ensures
        event == edit_event(edit),
{
    match edit {
        ParameterEditEvent::Begin { parameter_id } => OutputEvent::ParamGestureBegin(
            ParameterGestureEvent { time: 0, parameter_id },
        ),
        ParameterEditEvent::Update { parameter_id, value } => OutputEvent::ParamValue(
            ParameterValueEvent {
                time: 0,
                parameter_id,
                value,
                note_id: -1,
                port_index: -1,
                channel: -1,
                key: -1,
            },
        ),
        ParameterEditEvent::End { parameter_id } => OutputEvent::ParamGestureEnd(
            ParameterGestureEvent { time: 0, parameter_id },
        ),
    }
}

/// What is left of a queue after the host has answered the offer of its oldest edit.
pub open spec fn after_offer(queue: Seq<ParameterEditEvent>, accepted: bool) -> Seq<
    ParameterEditEvent,
> {
    if accepted {
        queue.skip(1)
    } else {
        queue
    }
}

/// The edits that the host has not yet taken, oldest first, and whether the host can be asked
/// to take them.
#[derive(Debug)]
pub struct ParameterEditQueue {
    pending: VecDeque<ParameterEditEvent>,
    can_request_flush: bool,
}

impl View for ParameterEditQueue {
    type V = Seq<ParameterEditEvent>;

    closed spec fn view(&self) -> Seq<ParameterEditEvent> {
        self.pending@
    }
}

impl ParameterEditQueue {
    /// Whether the host can be asked to take edits.
    pub closed spec fn host_listens(self) -> bool {
        self.can_request_flush
    }

    /// No edit.
    pub fn new(can_request_flush: bool) -> (queue: Self)
        ensures
            queue@ == Seq::<ParameterEditEvent>::empty(),
            queue.host_listens() == can_request_flush,
    {
        ParameterEditQueue { pending: VecDeque::new(), can_request_flush }
    }

    /// Adds an edit behind the others, and says whether the host is now to be asked to take it.
    pub fn push(&mut self, edit: ParameterEditEvent) -> (request_flush: bool)
        ensures
            final(self)@ == old(self)@.push(edit),
            final(self).host_listens() == old(self).host_listens(),
            request_flush == old(self).host_listens(),
    {
        self.pending.push_back(edit);
        self.can_request_flush
    }

    /// Adds the begin of a gesture.
    pub fn begin_edit(&mut self, parameter_id: u32) -> (request_flush: bool)
        ensures
            final(self)@ == old(self)@.push(ParameterEditEvent::Begin { parameter_id }),
            final(self).host_listens() == old(self).host_listens(),
            request_flush == old(self).host_listens(),
    {
        self.push(ParameterEditEvent::Begin { parameter_id })
    }

    /// Adds a new value, given by its bits.
    pub fn update_edit(&mut self, parameter_id: u32, value: u64) -> (request_flush: bool)
        ensures
            final(self)@ == old(self)@.push(ParameterEditEvent::Update { parameter_id, value }),
            final(self).host_listens() == old(self).host_listens(),
            request_flush == old(self).host_listens(),
    {
        self.push(ParameterEditEvent::Update { parameter_id, value })
    }

    /// Adds the end of a gesture.
    pub fn end_edit(&mut self, parameter_id: u32) -> (request_flush: bool)
        ensures
            final(self)@ == old(self)@.push(ParameterEditEvent::End { parameter_id }),
            final(self).host_listens() == old(self).host_listens(),
            request_flush == old(self).host_listens(),
    {
        self.push(ParameterEditEvent::End { parameter_id })
    }

    /// The event to offer to the host next: that of the oldest edit.
    pub fn next_output_event(&self) -> (event: Option<OutputEvent>)
        ensures
            event == if self@.len() > 0 {
                Some(edit_event(self@[0]))
            } else {
                None
            },
    {
        if self.pending.len() == 0 {
            None
        } else {
            Some(output_event(self.pending[0]))
        }
    }

    /// Takes note of the host's answer to the event that was offered. An edit that the host
    /// took leaves the queue; one that it refused stays at the front, to be offered again in a
    /// later block. The result says whether to go on with the next edit.
    pub fn offered(&mut self, accepted: bool) -> (go_on: bool)
        requires
            old(self)@.len() > 0,
        ensures
            final(self)@ == after_offer(old(self)@, accepted),
            final(self).host_listens() == old(self).host_listens(),
            go_on == accepted,
    {
        if accepted {
            let _ = self.pending.pop_front();
            assert(self.pending@ =~= old(self)@.skip(1));
        }
        accepted
    }
}

/// What is left of a queue after the host has answered the offers of a block, as long as it
/// takes them.
pub open spec fn after_offers(queue: Seq<ParameterEditEvent>, answers: Seq<bool>) -> Seq<
    ParameterEditEvent,
>
    decreases queue.len(),
{
    if queue.len() == 0 || answers.len() == 0 || !answers[0] {
        queue
    } else {
        after_offers(after_offer(queue, answers[0]), answers.skip(1))
    }
}

/// How many events the host takes in a block.
pub open spec fn taken(queue: Seq<ParameterEditEvent>, answers: Seq<bool>) -> nat
    decreases queue.len(),
{
    if queue.len() == 0 || answers.len() == 0 || !answers[0] {
        0
    } else {
        1 + taken(queue.skip(1), answers.skip(1))
    }
}

/// No edit is lost and none changes its place: what is left after a block is the queue without
/// the edits that the host has taken, which are its oldest.
pub proof fn edits_keep_their_order(queue: Seq<ParameterEditEvent>, answers: Seq<bool>)
    ensures
        taken(queue, answers) <= queue.len(),
        after_offers(queue, answers) == queue.skip(taken(queue, answers) as int),
    decreases queue.len(),
{
    if queue.len() == 0 || answers.len() == 0 || !answers[0] {
        assert(queue.skip(0) =~= queue);
    } else {
        edits_keep_their_order(queue.skip(1), answers.skip(1));
        let n = taken(queue.skip(1), answers.skip(1));
        assert(queue.skip(1).skip(n as int) =~= queue.skip(1 + n as int));
    }
}

/// The host learns of every edit at the start of a block: of which parameter it is, whether it
/// begins or ends, and of a new value as it was set. A value is for every note, port, channel
/// and key, so none of them is named.
pub proof fn edits_are_told_as_they_were_made(edit: ParameterEditEvent)
    ensures
        edit matches ParameterEditEvent::Begin { parameter_id } ==> (edit_event(edit)
            matches OutputEvent::ParamGestureBegin(event) && event.parameter_id == parameter_id
            && event.time == 0),
        edit matches ParameterEditEvent::End { parameter_id } ==> (edit_event(edit)
            matches OutputEvent::ParamGestureEnd(event) && event.parameter_id == parameter_id
            && event.time == 0),
        edit matches ParameterEditEvent::Update { parameter_id, value } ==> (edit_event(edit)
            matches OutputEvent::ParamValue(event) && event.parameter_id == parameter_id
            && event.value == value && event.time == 0 && event.note_id == -1 && event.port_index
            == -1 && event.channel == -1 && event.key == -1),
{
}

/// An edit that the host refuses is offered again, and the same; one that it takes makes room for
/// the next.
pub proof fn refused_edits_are_offered_again(queue: Seq<ParameterEditEvent>)
    requires
        queue.len() > 0,
    ensures
        after_offer(queue, false) == queue,
        after_offer(queue, true).len() == queue.len() - 1,
        forall|i: int| 1 <= i < queue.len() ==> after_offer(queue, true)[i - 1] == #[trigger] queue[i],
{
}

/// A block ends with the first edit that the host refuses, or with the last edit.
pub proof fn offers_end_with_the_first_refusal(queue: Seq<ParameterEditEvent>, answers: Seq<bool>)
    ensures
        forall|i: int| 0 <= i < taken(queue, answers) ==> answers[i],
        taken(queue, answers) < queue.len() && taken(queue, answers) < answers.len()
            ==> !answers[taken(queue, answers) as int],
        taken(queue, answers) <= answers.len(),
        taken(queue, answers) <= queue.len(),
    decreases queue.len(),
{
    if queue.len() == 0 || answers.len() == 0 || !answers[0] {
    } else {
        offers_end_with_the_first_refusal(queue.skip(1), answers.skip(1));
        let n = taken(queue.skip(1), answers.skip(1));
        assert forall|i: int| 0 <= i < 1 + n implies answers[i] by {
            if i > 0 {
                assert(answers.skip(1)[i - 1]);
            }
        }
    }
}

/// Edits are kept in the order in which they were made and offered oldest first; one that is taken
/// leaves, one that is refused is offered again. The host is asked to take them where it listens.
pub proof fn edits_are_offered_oldest_first(
    listens: bool,
    fresh: ParameterEditQueue,
    begun: &mut ParameterEditQueue,
    updated: &mut ParameterEditQueue,
    ended: &mut ParameterEditQueue,
    id: u32,
    value: u64,
    asked: (bool, bool, bool),
    first: Option<OutputEvent>,
    kept: &mut ParameterEditQueue,
    goes_on: (bool, bool),
    again: Option<OutputEvent>,
    taken: &mut ParameterEditQueue,
    next: Option<OutputEvent>,
)
    requires
        call_ensures(ParameterEditQueue::new, (listens,), fresh),
        *begun == fresh,
        call_ensures(ParameterEditQueue::begin_edit, (begun, id), asked.0),
        *updated == *final(begun),
        call_ensures(ParameterEditQueue::update_edit, (updated, id, value), asked.1),
        *ended == *final(updated),
        call_ensures(ParameterEditQueue::end_edit, (ended, id), asked.2),
        call_ensures(ParameterEditQueue::next_output_event, (final(ended),), first),
        *kept == *final(ended),
        call_ensures(ParameterEditQueue::offered, (kept, false), goes_on.0),
        call_ensures(ParameterEditQueue::next_output_event, (final(kept),), again),
        *taken == *final(kept),
        call_ensures(ParameterEditQueue::offered, (taken, true), goes_on.1),
        call_ensures(ParameterEditQueue::next_output_event, (final(taken),), next),
    ensures
        asked == (listens, listens, listens),
        first matches Some(OutputEvent::ParamGestureBegin(event)) && event.parameter_id == id,
        again == first,
        goes_on == (false, true),
        next matches Some(OutputEvent::ParamValue(event)) && event.parameter_id == id && event.value
            == value,
        final(taken)@.len() == 2,
        final(taken)@[1] == (ParameterEditEvent::End { parameter_id: id }),
{
}

} // verus!
