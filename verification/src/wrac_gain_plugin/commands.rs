//! What the commands of the GUI do.

use vstd::prelude::*;

verus! {

/// A command of the GUI that concerns a parameter.
#[derive(Debug, Clone, Copy, PartialEq, Eq, Structural)]
pub enum ParameterCommand {
    /// Set the parameter to what a text stands for.
    SetText,
    /// Set the parameter to its default.
    ResetToDefault,
    /// A control was touched.
    BeginGesture,
    /// A control was moved.
    SetValue,
    /// A control was released.
    EndGesture,
}

/// A step of a command.
#[derive(Debug, Clone, Copy, PartialEq, Eq, Structural)]
pub enum EditStep {
    /// Tell the host that an edit begins.
    BeginEdit,
    /// Store the value.
    Store,
    /// Tell the GUI of the value.
    NotifyGui,
    /// Tell the host of the value.
    UpdateEdit,
    /// Tell the host that the edit is over.
    EndEdit,
}

/// The steps of a command. A command that stands for itself is a whole edit; the commands of a
/// gesture are an edit together.
pub open spec fn steps_of(command: ParameterCommand) -> Seq<EditStep> {
    match command {
        ParameterCommand::SetText | ParameterCommand::ResetToDefault => seq![
            EditStep::BeginEdit,
            EditStep::Store,
            EditStep::NotifyGui,
            EditStep::UpdateEdit,
            EditStep::EndEdit,
        ],
        ParameterCommand::BeginGesture => seq![EditStep::BeginEdit],
        ParameterCommand::SetValue => seq![
            EditStep::Store,
            EditStep::NotifyGui,
            EditStep::UpdateEdit,
        ],
        ParameterCommand::EndGesture => seq![EditStep::EndEdit],
    }
}

/// The step of a command at a position.
pub fn edit_step(command: ParameterCommand, position: usize) -> (step: Option<EditStep>)
    ensures
        step == if position < steps_of(command).len() {
            Some(steps_of(command)[position as int])
        } else {
            None
        },
{
    match command {
        ParameterCommand::SetText | ParameterCommand::ResetToDefault => match position {
            0 => Some(EditStep::BeginEdit),
            1 => Some(EditStep::Store),
            2 => Some(EditStep::NotifyGui),
            3 => Some(EditStep::UpdateEdit),
            4 => Some(EditStep::EndEdit),
            _ => None,
        },
        ParameterCommand::BeginGesture => match position {
            0 => Some(EditStep::BeginEdit),
            _ => None,
        },
        ParameterCommand::SetValue => match position {
            0 => Some(EditStep::Store),
            1 => Some(EditStep::NotifyGui),
            2 => Some(EditStep::UpdateEdit),
            _ => None,
        },
        ParameterCommand::EndGesture => match position {
            0 => Some(EditStep::EndEdit),
            _ => None,
        },
    }
}

/// Whether a series of steps opens and closes edits in turn, where an edit is open before it or
/// not, and leaves no edit open.
pub open spec fn edits_are_closed(steps: Seq<EditStep>, open: bool) -> bool
    decreases steps.len(),
{
    if steps.len() == 0 {
        !open
    } else {
        match steps.last() {
            EditStep::BeginEdit => false,
            EditStep::EndEdit => ends_in_edit(steps.drop_last(), open),
            _ => edits_are_closed(steps.drop_last(), open),
        }
    }
}

/// Whether a series of steps leaves an edit open.
pub open spec fn ends_in_edit(steps: Seq<EditStep>, open: bool) -> bool
    decreases steps.len(),
{
    if steps.len() == 0 {
        open
    } else {
        match steps.last() {
            EditStep::BeginEdit => edits_are_closed(steps.drop_last(), open),
            EditStep::EndEdit => false,
            _ => ends_in_edit(steps.drop_last(), open),
        }
    }
}

/// The steps of moves of a control, one after the other.
pub open spec fn moves(count: nat) -> Seq<EditStep>
    decreases count,
{
    if count == 0 {
        Seq::empty()
    } else {
        moves((count - 1) as nat) + steps_of(ParameterCommand::SetValue)
    }
}

/// A command that stands for itself is a whole edit, and so is a gesture with any number of
/// moves: the host sees every edit begin and end.
pub proof fn edits_begin_and_end(count: nat)
    ensures
        edits_are_closed(steps_of(ParameterCommand::SetText), false),
        edits_are_closed(steps_of(ParameterCommand::ResetToDefault), false),
        edits_are_closed(
            steps_of(ParameterCommand::BeginGesture) + moves(count) + steps_of(
                ParameterCommand::EndGesture,
            ),
            false,
        ),
{
    reveal_with_fuel(edits_are_closed, 6);
    reveal_with_fuel(ends_in_edit, 6);
    let begin = steps_of(ParameterCommand::BeginGesture);
    lemma_moves_stay_in_edit(begin, count);
    let gesture = begin + moves(count) + steps_of(ParameterCommand::EndGesture);
    assert(gesture.drop_last() =~= begin + moves(count));
}

proof fn lemma_moves_stay_in_edit(begin: Seq<EditStep>, count: nat)
    requires
        begin == steps_of(ParameterCommand::BeginGesture),
    ensures
        ends_in_edit(begin + moves(count), false),
    decreases count,
{
    reveal_with_fuel(edits_are_closed, 2);
    reveal_with_fuel(ends_in_edit, 5);
    if count == 0 {
        assert(begin + moves(0) =~= begin);
        assert(begin.drop_last() =~= Seq::<EditStep>::empty());
    } else {
        lemma_moves_stay_in_edit(begin, (count - 1) as nat);
        let before = begin + moves((count - 1) as nat);
        let after = begin + moves(count);
        assert(after =~= before + steps_of(ParameterCommand::SetValue));
        assert(after.drop_last() =~= before.push(EditStep::Store).push(EditStep::NotifyGui));
        assert(after.drop_last().drop_last() =~= before.push(EditStep::Store));
        assert(after.drop_last().drop_last().drop_last() =~= before);
    }
}

// Dragging the corner of the window

/// A drag of the corner of the window, with what was known when it began.
#[derive(Debug)]
pub struct ResizeDrag<T> {
    pub drag_id: u64,
    pub start: T,
}

/// The drag that is under way, where there is one.
#[derive(Debug)]
pub struct ResizeDragState<T> {
    pub drag: Option<ResizeDrag<T>>,
}

impl<T: Copy> ResizeDragState<T> {
    /// No drag.
    pub fn new() -> (state: Self)
        ensures
            state.drag is None,
    {
        ResizeDragState { drag: None }
    }

    /// A drag begins, in place of any other. Where the position of the pointer is not known the
    /// drag is not followed, and another goes on. The result says whether it is.
    pub fn begin(&mut self, drag_id: u64, start: Option<T>) -> (followed: bool)
        ensures
            followed == start is Some,
            final(self).drag == match start {
                Some(start) => Some(ResizeDrag { drag_id, start }),
                None => old(self).drag,
            },
    {
        match start {
            Some(start) => {
                self.drag = Some(ResizeDrag { drag_id, start });
                true
            },
            None => false,
        }
    }

    /// A drag ends. Another one goes on.
    pub fn end(&mut self, drag_id: u64)
        ensures
            final(self).drag == match old(self).drag {
                Some(drag) => if drag.drag_id == drag_id {
                    None
                } else {
                    Some(drag)
                },
                None => None,
            },
    {
        let ended = match &self.drag {
            Some(drag) => drag.drag_id == drag_id,
            None => false,
        };
        if ended {
            self.drag = None;
        }
    }

    /// What was known when the drag began that a request belongs to.
    pub fn start_of(&self, drag_id: Option<u64>) -> (start: Option<T>)
        ensures
            start == match (drag_id, self.drag) {
                (Some(id), Some(drag)) => if drag.drag_id == id {
                    Some(drag.start)
                } else {
                    None
                },
                _ => None,
            },
    {
        match (drag_id, &self.drag) {
            (Some(id), Some(drag)) => if drag.drag_id == id {
                Some(drag.start)
            } else {
                None
            },
            _ => None,
        }
    }
}

/// A value is stored before anyone is told of it, the GUI is told before the host, and each
/// happens once. An edit begins before and ends after all of it. A gesture is told to the host
/// alone: it changes nothing by itself.
pub proof fn values_are_stored_before_they_are_told(
    command: ParameterCommand,
    i: usize,
    j: usize,
    earlier: Option<EditStep>,
    later: Option<EditStep>,
)
    requires
        i < j,
        call_ensures(edit_step, (command, i), earlier),
        call_ensures(edit_step, (command, j), later),
    ensures
        later is Some ==> earlier is Some,
        later is Some ==> later != earlier,
        later != Some(EditStep::BeginEdit),
        later == Some(EditStep::Store) ==> earlier == Some(EditStep::BeginEdit),
        later == Some(EditStep::NotifyGui) ==> earlier == Some(EditStep::Store) || earlier == Some(
            EditStep::BeginEdit,
        ),
        later == Some(EditStep::UpdateEdit) ==> earlier != Some(EditStep::EndEdit),
        earlier == Some(EditStep::EndEdit) ==> later is None,
{
}

/// A command that stands for itself does everything, a move stores and tells, and the two ends of
/// a gesture only open and close an edit.
pub proof fn commands_take_their_steps(command: ParameterCommand)
    ensures
        ({
            let steps = steps_of(command);
            let whole = command is SetText || command is ResetToDefault;
            let changes = whole || command is SetValue;
            &&& steps.contains(EditStep::BeginEdit) <==> whole || command is BeginGesture
            &&& steps.contains(EditStep::EndEdit) <==> whole || command is EndGesture
            &&& steps.contains(EditStep::Store) <==> changes
            &&& steps.contains(EditStep::NotifyGui) <==> changes
            &&& steps.contains(EditStep::UpdateEdit) <==> changes
        }),
        steps_of(ParameterCommand::SetText) == steps_of(ParameterCommand::BeginGesture) + steps_of(
            ParameterCommand::SetValue,
        ) + steps_of(ParameterCommand::EndGesture),
        steps_of(ParameterCommand::ResetToDefault) == steps_of(ParameterCommand::SetText),
{
    let steps = steps_of(command);
    if command is SetText || command is ResetToDefault {
        assert(steps[0] == EditStep::BeginEdit);
        assert(steps[1] == EditStep::Store);
        assert(steps[2] == EditStep::NotifyGui);
        assert(steps[3] == EditStep::UpdateEdit);
        assert(steps[4] == EditStep::EndEdit);
    } else if command is SetValue {
        assert(steps[0] == EditStep::Store);
        assert(steps[1] == EditStep::NotifyGui);
        assert(steps[2] == EditStep::UpdateEdit);
    } else {
        assert(command is BeginGesture ==> steps[0] == EditStep::BeginEdit);
        assert(command is EndGesture ==> steps[0] == EditStep::EndEdit);
    }
    assert(steps_of(ParameterCommand::SetText) =~= steps_of(ParameterCommand::BeginGesture)
        + steps_of(ParameterCommand::SetValue) + steps_of(ParameterCommand::EndGesture));
}

/// A drag that began is found by its own id until it ends; a drag that ends under another id, or
/// begins without a position, leaves it as it is.
pub proof fn drags_are_found_until_they_end<T: Copy>(
    begun: &mut ResizeDragState<T>,
    drag_id: u64,
    start: T,
    followed: bool,
    lost: &mut ResizeDragState<T>,
    unseen: bool,
    other: u64,
    ended: &mut ResizeDragState<T>,
    asked: Option<u64>,
    found: Option<T>,
)
    requires
        call_ensures(ResizeDragState::<T>::begin, (begun, drag_id, Some(start)), followed),
        *lost == *final(begun),
        call_ensures(ResizeDragState::<T>::begin, (lost, other, None), unseen),
        *ended == *final(lost),
        call_ensures(ResizeDragState::<T>::end, (ended, other), ()),
        call_ensures(ResizeDragState::<T>::start_of, (final(ended), asked), found),
    ensures
        followed,
        !unseen,
        other != drag_id && asked == Some(drag_id) ==> found == Some(start),
        asked != Some(drag_id) ==> found is None,
        other == drag_id ==> found is None,
{
}

} // verus!
