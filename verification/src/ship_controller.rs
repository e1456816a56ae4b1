//! Commands sent when the player orders ships around.
use crate::entity::Entity;
use crate::ship_tasks::MoveToPosition;
use crate::task_queue::TaskInsertionMode;
use vstd::prelude::*;

verus! {

/// A command to insert a task into the queue of a ship.
#[derive(PartialEq, Eq, Structural, Copy, Clone, Debug)]
pub struct InsertTaskIntoQueueCommand<T> {
    pub entity: Entity,
    pub task_data: T,
    pub insertion_mode: TaskInsertionMode,
}

/// The insertion mode of a move order: holding the control key puts it first.
pub open spec fn move_insertion_mode(control_pressed: bool) -> TaskInsertionMode {
    if control_pressed {
        TaskInsertionMode::Prepend
    } else {
        TaskInsertionMode::Append
    }
}

/// Holding the control key puts a move order before the queued tasks; otherwise it goes after
/// them.
pub proof fn law_move_insertion_mode()
    ensures
        move_insertion_mode(true) == TaskInsertionMode::Prepend,
        move_insertion_mode(false) == TaskInsertionMode::Append,
{
}

/// The move commands sent for a right click: when the right button was just released over a
/// sector position (`target`), every selected ship with a task queue gets a command to move
/// there; otherwise no command is sent.
pub fn send_move_command(
    right_button_just_released: bool,
    control_pressed: bool,
    target: Option<MoveToPosition>,
    selected_ships: &Vec<Entity>,
) -> (commands: Vec<InsertTaskIntoQueueCommand<MoveToPosition>>)
    ensures
        !right_button_just_released || target is None ==> commands@.len() == 0,
        right_button_just_released && target is Some ==> {
            &&& commands@.len() == selected_ships@.len()
            &&& forall|i: int|
                0 <= i < commands@.len() ==> (#[trigger] commands@[i]) == (
                InsertTaskIntoQueueCommand {
                    entity: selected_ships@[i],
                    task_data: target.unwrap(),
                    insertion_mode: move_insertion_mode(control_pressed),
                })
        },
{
    let mut commands: Vec<InsertTaskIntoQueueCommand<MoveToPosition>> = Vec::new();
    if !right_button_just_released {
        return commands;
    }
    let task_data = match target {
        None => {
            return commands;
        },
        Some(t) => t,
    };
    let insertion_mode = if control_pressed {
        TaskInsertionMode::Prepend
    } else {
        TaskInsertionMode::Append
    };
    let n: usize = selected_ships.len();
    let mut i: usize = 0;
    while i < n
        invariant
            i <= n,
            n == selected_ships@.len(),
            commands@.len() == i,
            insertion_mode == move_insertion_mode(control_pressed),
            forall|k: int|
                0 <= k < i ==> (#[trigger] commands@[k]) == (InsertTaskIntoQueueCommand {
                    entity: selected_ships@[k],
                    task_data,
                    insertion_mode,
                }),
        decreases n - i,
    {
        commands.push(
            InsertTaskIntoQueueCommand { entity: selected_ships[i], task_data, insertion_mode },
        );
        i = i + 1;
    }
    commands
}

} // verus!
