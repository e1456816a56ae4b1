//! Turning a command for a task into the full list of tasks a ship has to carry out.
use crate::entity::{Entity, TypedEntity};
use crate::path_element::PathElement;
use crate::ship_tasks::{
    Construct, ExchangeWares, FloatBits, HarvestGas, MineAsteroid, MoveToPosition, MoveToSector,
    RequestAccess, RequestAccessGoal, TaskKind,
};
use crate::task_preconditions::{
    SectorAndDockingStatus, create_preconditions_and_dock_at_entity,
    create_preconditions_and_move_to_entity, create_preconditions_and_move_to_sector,
    preconditions_and_dock_at_entity, preconditions_and_move_to_entity,
    preconditions_and_move_to_sector,
};
use crate::entity::SectorEntity;
use crate::tasks::exchange_wares::{TradeOrder, trade_orders, trade_orders_of};
use std::collections::VecDeque;
use vstd::prelude::*;

verus! {

/// Why creating tasks for a command failed.
#[derive(PartialEq, Eq, Structural, Copy, Clone, Debug)]
pub enum TaskCreationErrorReason {
    OwnEntityNotFound,
    TargetNotFound,
    BothNotFound,
    UnspecifiedError,
    CreationOfThisTaskIsNotSupported,
}

/// Error returned when tasks could not be created for a command.
#[derive(PartialEq, Eq, Structural, Copy, Clone, Debug)]
pub struct TaskCreationError {
    pub entity: Entity,
    pub reason: TaskCreationErrorReason,
}

/// The reason reported when the inventories of the two trading partners could not both be
/// accessed.
pub open spec fn inventory_error_reason_of(own_found: bool, target_found: bool) -> TaskCreationErrorReason {
    if !own_found {
        if !target_found {
            TaskCreationErrorReason::BothNotFound
        } else {
            TaskCreationErrorReason::OwnEntityNotFound
        }
    } else if !target_found {
        TaskCreationErrorReason::TargetNotFound
    } else {
        TaskCreationErrorReason::UnspecifiedError
    }
}

/// A trade is refused for the missing inventory: both, the ship's or the partner's; the
/// unspecified reason is left for when both were found.
pub proof fn law_inventory_error_reasons(own_found: bool, target_found: bool)
    ensures
        !own_found && !target_found ==> inventory_error_reason_of(own_found, target_found)
            == TaskCreationErrorReason::BothNotFound,
        !own_found && target_found ==> inventory_error_reason_of(own_found, target_found)
            == TaskCreationErrorReason::OwnEntityNotFound,
        own_found && !target_found ==> inventory_error_reason_of(own_found, target_found)
            == TaskCreationErrorReason::TargetNotFound,
        own_found && target_found ==> inventory_error_reason_of(own_found, target_found)
            == TaskCreationErrorReason::UnspecifiedError,
{
}

/// Explains why the inventories of the ship and its trading partner could not both be
/// accessed, given which of them were found.
pub fn inventory_error_reason(own_found: bool, target_found: bool) -> (r: TaskCreationErrorReason)
    ensures
        r == inventory_error_reason_of(own_found, target_found),
{
    if !own_found {
        if !target_found {
            TaskCreationErrorReason::BothNotFound
        } else {
            TaskCreationErrorReason::OwnEntityNotFound
        }
    } else if !target_found {
        TaskCreationErrorReason::TargetNotFound
    } else {
        TaskCreationErrorReason::UnspecifiedError
    }
}

/// Tasks for a construction command: move next to the construction site, then construct.
/// `status` is where the ship's plan ends, `target_sector` the site's sector and `path` the
/// route between the two.
pub fn create_construct_tasks(
    status: SectorAndDockingStatus,
    target_sector: SectorEntity,
    path: Vec<PathElement>,
    docking_distance: FloatBits,
    data: Construct,
) -> (tasks: VecDeque<TaskKind>)
    ensures
        tasks@ == preconditions_and_move_to_entity(
            status,
            target_sector,
            path@,
            TypedEntity::ConstructionSite(data.target),
            docking_distance,
        ).push(TaskKind::Construct { data }),
{
    let mut new_tasks = create_preconditions_and_move_to_entity(
        status,
        target_sector,
        path,
        TypedEntity::ConstructionSite(data.target),
        docking_distance,
    );
    new_tasks.push_back(TaskKind::Construct { data });
    new_tasks
}

/// Tasks for a gas harvesting command: move next to the gas giant, request an orbit slot,
/// then harvest.
pub fn create_harvest_gas_tasks(
    status: SectorAndDockingStatus,
    target_sector: SectorEntity,
    path: Vec<PathElement>,
    docking_distance: FloatBits,
    data: HarvestGas,
) -> (tasks: VecDeque<TaskKind>)
    ensures
        tasks@ == preconditions_and_move_to_entity(
            status,
            target_sector,
            path@,
            TypedEntity::Celestial(data.target),
            docking_distance,
        ).push(
            TaskKind::RequestAccess {
                data: RequestAccess {
                    target: TypedEntity::Celestial(data.target),
                    goal: RequestAccessGoal::PlanetOrbit,
                },
            },
        ).push(TaskKind::HarvestGas { data }),
{
    let mut new_tasks = create_preconditions_and_move_to_entity(
        status,
        target_sector,
        path,
        TypedEntity::Celestial(data.target),
        docking_distance,
    );
    new_tasks.push_back(
        TaskKind::RequestAccess {
            data: RequestAccess {
                target: TypedEntity::Celestial(data.target),
                goal: RequestAccessGoal::PlanetOrbit,
            },
        },
    );
    new_tasks.push_back(TaskKind::HarvestGas { data });
    new_tasks
}

/// Tasks for a mining command: move next to the asteroid, then mine it.
pub fn create_mine_asteroid_tasks(
    status: SectorAndDockingStatus,
    target_sector: SectorEntity,
    path: Vec<PathElement>,
    docking_distance: FloatBits,
    data: MineAsteroid,
) -> (tasks: VecDeque<TaskKind>)
    ensures
        tasks@ == preconditions_and_move_to_entity(
            status,
            target_sector,
            path@,
            TypedEntity::Asteroid(data.target),
            docking_distance,
        ).push(TaskKind::MineAsteroid { data }),
{
    let mut new_tasks = create_preconditions_and_move_to_entity(
        status,
        target_sector,
        path,
        TypedEntity::Asteroid(data.target),
        docking_distance,
    );
    new_tasks.push_back(TaskKind::MineAsteroid { data });
    new_tasks
}

/// Tasks for a command to move to a position: get into its sector, then fly there.
pub fn create_move_to_position_tasks(
    status: SectorAndDockingStatus,
    path: Vec<PathElement>,
    data: MoveToPosition,
) -> (tasks: VecDeque<TaskKind>)
    ensures
        tasks@ == preconditions_and_move_to_sector(
            status,
            data.sector_position.sector,
            path@,
        ).push(TaskKind::MoveToPosition { data }),
{
    let mut new_tasks = create_preconditions_and_move_to_sector(
        status,
        data.sector_position.sector,
        path,
    );
    new_tasks.push_back(TaskKind::MoveToPosition { data });
    new_tasks
}

/// Tasks for a command to move to a sector: undock if needed and follow the path there.
pub fn create_move_to_sector_command_tasks(
    status: SectorAndDockingStatus,
    path: Vec<PathElement>,
    data: MoveToSector,
) -> (tasks: VecDeque<TaskKind>)
    ensures
        tasks@ == preconditions_and_move_to_sector(status, data.sector, path@),
{
    create_preconditions_and_move_to_sector(status, data.sector, path)
}

/// What a trade command creates: the tasks that take the ship there and trade, and the orders
/// that the trade places in the ship's inventory and in the partner's.
pub struct ExchangeWaresPlan {
    pub tasks: VecDeque<TaskKind>,
    pub ship_order: TradeOrder,
    pub partner_order: TradeOrder,
}

/// Tasks for a trade command: dock at the trading partner, then exchange wares; plus the
/// orders the trade places. `own_inventory_found` and `target_inventory_found` say whether the
/// ship's and the partner's inventories exist; unless both do, the command is refused with the
/// reason [inventory_error_reason_of] gives. `currently_docked_at` is what the ship is docked
/// at right now.
pub fn create_exchange_wares_tasks(
    entity: Entity,
    own_inventory_found: bool,
    target_inventory_found: bool,
    currently_docked_at: Option<TypedEntity>,
    status: SectorAndDockingStatus,
    target_sector: SectorEntity,
    path: Vec<PathElement>,
    docking_distance: FloatBits,
    data: ExchangeWares,
) -> (result: Result<ExchangeWaresPlan, TaskCreationError>)
    ensures
        own_inventory_found && target_inventory_found <==> result is Ok,
        result matches Ok(plan) ==> {
            &&& plan.tasks@ == preconditions_and_dock_at_entity(
                currently_docked_at,
                status,
                target_sector,
                path@,
                data.target,
                docking_distance,
            ).push(TaskKind::ExchangeWares { data })
            &&& (plan.ship_order, plan.partner_order) == trade_orders_of(data.exchange_data)
        },
        result matches Err(e) ==> e == (TaskCreationError {
            entity,
            reason: inventory_error_reason_of(own_inventory_found, target_inventory_found),
        }),
{
    let mut new_tasks = create_preconditions_and_dock_at_entity(
        currently_docked_at,
        status,
        target_sector,
        path,
        data.target,
        docking_distance,
    );
    if !(own_inventory_found && target_inventory_found) {
        return Err(
            TaskCreationError {
                entity,
                reason: inventory_error_reason(own_inventory_found, target_inventory_found),
            },
        );
    }
    let (ship_order, partner_order) = trade_orders(data.exchange_data);
    new_tasks.push_back(TaskKind::ExchangeWares { data });
    Ok(ExchangeWaresPlan { tasks: new_tasks, ship_order, partner_order })
}

/// Access requests are only ever created as preconditions of other tasks; a command for one
/// is refused.
pub fn create_request_access_tasks(entity: Entity, data: RequestAccess) -> (result: Result<
    VecDeque<TaskKind>,
    TaskCreationError,
>)
    ensures
        result == Err::<VecDeque<TaskKind>, TaskCreationError>(
            TaskCreationError {
                entity,
                reason: TaskCreationErrorReason::CreationOfThisTaskIsNotSupported,
            },
        ),
{
    Err(
        TaskCreationError {
            entity,
            reason: TaskCreationErrorReason::CreationOfThisTaskIsNotSupported,
        },
    )
}

} // verus!
