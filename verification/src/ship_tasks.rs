//! The data of every task a ship can carry out, and the lifecycle properties of each kind.
use crate::entity::{
    AsteroidEntity, CelestialEntity, ConstructionSiteEntity, GateEntity, SectorEntity, TypedEntity,
};
use vstd::prelude::*;

verus! {

/// An `f32` held by its IEEE-754 bit pattern; the arithmetic on it happens outside this library.
#[derive(PartialEq, Eq, Structural, Copy, Clone, Debug)]
pub struct FloatBits {
    pub bits: u32,
}

impl FloatBits {
    /// Positive zero.
    pub fn zero() -> (z: FloatBits)
        ensures
            z.bits == 0,
    {
        FloatBits { bits: 0 }
    }
}

/// A two-dimensional float vector held by the bit patterns of its components.
#[derive(PartialEq, Eq, Structural, Copy, Clone, Debug)]
pub struct Vec2Bits {
    pub x: FloatBits,
    pub y: FloatBits,
}

/// Identifies an item kind in the item manifest.
#[derive(PartialEq, Eq, Structural, Copy, Clone, Debug, Hash)]
pub struct ItemId {
    pub id: u64,
}

/// A point in simulation time, in milliseconds since the simulation started.
#[derive(PartialEq, Eq, Structural, Copy, Clone, Debug)]
pub struct SimulationTimestamp {
    pub milliseconds: u64,
}

impl SimulationTimestamp {
    /// The latest representable point in time.
    pub fn max() -> (t: SimulationTimestamp)
        ensures
            t.milliseconds == u64::MAX,
    {
        SimulationTimestamp { milliseconds: u64::MAX }
    }

    /// Whether `other` lies in the future as seen from `self`.
    pub fn has_not_passed(&self, other: SimulationTimestamp) -> (b: bool)
        ensures
            b == (self.milliseconds < other.milliseconds),
    {
        self.milliseconds < other.milliseconds
    }

    /// Whether `other` has been reached as seen from `self`.
    pub fn has_passed(&self, other: SimulationTimestamp) -> (b: bool)
        ensures
            b == (other.milliseconds <= self.milliseconds),
    {
        other.milliseconds <= self.milliseconds
    }

    /// The point in time `milliseconds` after `self`.
    pub fn add_milliseconds(&self, milliseconds: u64) -> (t: SimulationTimestamp)
        requires
            self.milliseconds + milliseconds <= u64::MAX,
        ensures
            t.milliseconds == self.milliseconds + milliseconds,
    {
        SimulationTimestamp { milliseconds: self.milliseconds + milliseconds }
    }
}

/// Which wares change hands in an [ExchangeWares] task, seen from the ship.
#[derive(PartialEq, Eq, Structural, Copy, Clone, Debug)]
pub enum ExchangeWareData {
    Buy(ItemId, u32),
    Sell(ItemId, u32),
}

/// Why a ship asks for access to an interaction queue.
#[derive(PartialEq, Eq, Structural, Copy, Clone, Debug)]
pub enum RequestAccessGoal {
    Docking,
    Undocking,
    PlanetOrbit,
}

/// Gate traversal is split up into different states, from "getting sucked into it" to
/// "traversing along the connection at full speed".
#[derive(PartialEq, Eq, Structural, Copy, Clone, Debug)]
pub enum GateTraversalState {
    /// The task has just been created, used to set up starting values.
    JustCreated,
    /// The ship is still speeding up.
    BlendingIntoMotion { origin: Vec2Bits },
    /// The ship is zooming along the line at full speed.
    TraversingLine,
}

/// A position inside a sector.
#[derive(PartialEq, Eq, Structural, Copy, Clone, Debug)]
pub struct SectorPosition {
    pub sector: SectorEntity,
    pub local_position: Vec2Bits,
}

/// Marker trait to define that a struct may be used as a ship task during simulation.
pub trait ShipTaskData {}

/// A ship waiting for a signal stays idle until the signal arrives.
#[derive(PartialEq, Eq, Structural, Copy, Clone, Debug)]
pub struct AwaitingSignal {
    pub from: TypedEntity,
}

/// A ship working on a construction site.
#[derive(PartialEq, Eq, Structural, Copy, Clone, Debug)]
pub struct Construct {
    pub target: ConstructionSiteEntity,
}

/// A ship docking at its target entity.
#[derive(PartialEq, Eq, Structural, Copy, Clone, Debug)]
pub struct DockAtEntity {
    pub target: TypedEntity,
}

/// A ship trading wares with its target entity.
#[derive(PartialEq, Eq, Structural, Copy, Clone, Debug)]
pub struct ExchangeWares {
    /// When this transaction is supposed to finish.
    pub finishes_at: SimulationTimestamp,
    /// Our trading partner.
    pub target: TypedEntity,
    /// Which wares are going to be exchanged.
    pub exchange_data: ExchangeWareData,
}

/// A ship harvesting gas from a gas giant.
#[derive(PartialEq, Eq, Structural, Copy, Clone, Debug)]
pub struct HarvestGas {
    /// The gas giant we are harvesting from.
    pub target: CelestialEntity,
    /// The gas we are collecting.
    pub gas: ItemId,
    /// When the next inventory update occurs; set once the task has started.
    pub next_update: Option<SimulationTimestamp>,
}

/// A ship mining ore from an asteroid.
#[derive(PartialEq, Eq, Structural, Copy, Clone, Debug)]
pub struct MineAsteroid {
    /// The asteroid we are mining.
    pub target: AsteroidEntity,
    /// How much ore we have reserved from the target asteroid.
    pub reserved_ore_amount: u32,
    /// When our next item transfer with the asteroid happens; set once the task has started.
    pub next_update: Option<SimulationTimestamp>,
}

/// A ship moving towards another entity.
#[derive(PartialEq, Eq, Structural, Copy, Clone, Debug)]
pub struct MoveToEntity {
    /// The entity to which we are moving.
    pub target: TypedEntity,
    /// Whether the ship should slow down as it reaches the target.
    pub stop_at_target: bool,
    /// The distance to the target at which to stop.
    pub desired_distance_to_target: FloatBits,
}

/// A ship moving towards a position.
#[derive(PartialEq, Eq, Structural, Copy, Clone, Debug)]
pub struct MoveToPosition {
    pub sector_position: SectorPosition,
    pub global_position: Vec2Bits,
}

/// A ship moving towards a sector.
#[derive(PartialEq, Eq, Structural, Copy, Clone, Debug)]
pub struct MoveToSector {
    pub sector: SectorEntity,
}

/// Reserves a spot inside the interaction queue of the target.
#[derive(PartialEq, Eq, Structural, Copy, Clone, Debug)]
pub struct RequestAccess {
    pub target: TypedEntity,
    pub goal: RequestAccessGoal,
}

/// A ship undocking from another entity.
#[derive(PartialEq, Eq, Structural, Copy, Clone, Debug)]
pub struct Undock {
    /// The position from which we are undocking; set once the task has started.
    pub start_position: Option<Vec2Bits>,
    /// The entity we are undocking from.
    pub from: TypedEntity,
}

/// A ship travelling between two connected sectors.
#[derive(PartialEq, Eq, Structural, Copy, Clone, Debug)]
pub struct UseGate {
    /// How far along the line connecting the two gates we are.
    pub progress: FloatBits,
    /// The current state of the journey.
    pub traversal_state: GateTraversalState,
    /// The entry point we passed.
    pub enter_gate: GateEntity,
    /// The sector we arrive in at the end of the journey.
    pub exit_sector: SectorEntity,
}

impl ShipTaskData for AwaitingSignal {}
impl ShipTaskData for Construct {}
impl ShipTaskData for DockAtEntity {}
impl ShipTaskData for ExchangeWares {}
impl ShipTaskData for HarvestGas {}
impl ShipTaskData for MineAsteroid {}
impl ShipTaskData for MoveToEntity {}
impl ShipTaskData for MoveToPosition {}
impl ShipTaskData for MoveToSector {}
impl ShipTaskData for RequestAccess {}
impl ShipTaskData for Undock {}
impl ShipTaskData for UseGate {}

impl ExchangeWares {
    /// A trade with `target` that has not been scheduled yet.
    pub fn new(target: TypedEntity, exchange_data: ExchangeWareData) -> (t: Self)
        ensures
            t.finishes_at.milliseconds == u64::MAX,
            t.target == target,
            t.exchange_data == exchange_data,
    {
        ExchangeWares { finishes_at: SimulationTimestamp::max(), target, exchange_data }
    }
}

impl HarvestGas {
    /// Harvesting `gas` from `target`; the first update is scheduled when the task starts.
    pub fn new(target: CelestialEntity, gas: ItemId) -> (t: Self)
        ensures
            t.target == target,
            t.gas == gas,
            t.next_update is None,
    {
        HarvestGas { target, gas, next_update: None }
    }
}

impl MineAsteroid {
    /// Mining `reserved_ore_amount` ore from `target`; the first update is scheduled when the
    /// task starts.
    pub fn new(target: AsteroidEntity, reserved_ore_amount: u32) -> (t: Self)
        ensures
            t.target == target,
            t.reserved_ore_amount == reserved_ore_amount,
            t.next_update is None,
    {
        MineAsteroid { target, reserved_ore_amount, next_update: None }
    }
}

impl UseGate {
    /// Entering `enter_gate` towards `exit_sector`, with no progress made yet.
    pub fn new(enter_gate: GateEntity, exit_sector: SectorEntity) -> (t: Self)
        ensures
            t.enter_gate == enter_gate,
            t.exit_sector == exit_sector,
            t.progress.bits == 0,
            t.traversal_state == GateTraversalState::JustCreated,
    {
        UseGate {
            enter_gate,
            exit_sector,
            progress: FloatBits::zero(),
            traversal_state: GateTraversalState::JustCreated,
        }
    }
}

/// Any ship task, with its data.
#[allow(inconsistent_fields)]
#[derive(PartialEq, Eq, Structural, Copy, Clone, Debug)]
pub enum TaskKind {
    AwaitingSignal { data: AwaitingSignal },
    Construct { data: Construct },
    DockAtEntity { data: DockAtEntity },
    ExchangeWares { data: ExchangeWares },
    HarvestGas { data: HarvestGas },
    MineAsteroid { data: MineAsteroid },
    MoveToEntity { data: MoveToEntity },
    MoveToPosition { data: MoveToPosition },
    MoveToSector { data: MoveToSector },
    RequestAccess { data: RequestAccess },
    Undock { data: Undock },
    UseGate { data: UseGate },
}

/// The kinds of ship tasks, without their data.
#[derive(PartialEq, Eq, Structural, Copy, Clone, Debug)]
pub enum TaskKindTag {
    AwaitingSignal,
    Construct,
    DockAtEntity,
    ExchangeWares,
    HarvestGas,
    MineAsteroid,
    MoveToEntity,
    MoveToPosition,
    MoveToSector,
    RequestAccess,
    Undock,
    UseGate,
}

/// The kind of a task.
pub open spec fn tag_of(task: TaskKind) -> TaskKindTag {
    match task {
        TaskKind::AwaitingSignal { .. } => TaskKindTag::AwaitingSignal,
        TaskKind::Construct { .. } => TaskKindTag::Construct,
        TaskKind::DockAtEntity { .. } => TaskKindTag::DockAtEntity,
        TaskKind::ExchangeWares { .. } => TaskKindTag::ExchangeWares,
        TaskKind::HarvestGas { .. } => TaskKindTag::HarvestGas,
        TaskKind::MineAsteroid { .. } => TaskKindTag::MineAsteroid,
        TaskKind::MoveToEntity { .. } => TaskKindTag::MoveToEntity,
        TaskKind::MoveToPosition { .. } => TaskKindTag::MoveToPosition,
        TaskKind::MoveToSector { .. } => TaskKindTag::MoveToSector,
        TaskKind::RequestAccess { .. } => TaskKindTag::RequestAccess,
        TaskKind::Undock { .. } => TaskKindTag::Undock,
        TaskKind::UseGate { .. } => TaskKindTag::UseGate,
    }
}

/// Whether tasks of this kind may be cancelled while they are being executed.
pub open spec fn cancellable_while_active(tag: TaskKindTag) -> bool {
    match tag {
        TaskKindTag::Construct | TaskKindTag::HarvestGas | TaskKindTag::MineAsteroid
        | TaskKindTag::MoveToEntity | TaskKindTag::MoveToPosition
        | TaskKindTag::MoveToSector => true,
        _ => false,
    }
}

/// Constructing, harvesting, mining and the three kinds of movement may be cancelled while a
/// ship carries them out; waiting for a signal, docking, trading, access requests, undocking
/// and gate passages may not.
pub proof fn law_cancellable_kinds()
    ensures
        cancellable_while_active(TaskKindTag::Construct),
        cancellable_while_active(TaskKindTag::HarvestGas),
        cancellable_while_active(TaskKindTag::MineAsteroid),
        cancellable_while_active(TaskKindTag::MoveToEntity),
        cancellable_while_active(TaskKindTag::MoveToPosition),
        cancellable_while_active(TaskKindTag::MoveToSector),
        !cancellable_while_active(TaskKindTag::AwaitingSignal),
        !cancellable_while_active(TaskKindTag::DockAtEntity),
        !cancellable_while_active(TaskKindTag::ExchangeWares),
        !cancellable_while_active(TaskKindTag::RequestAccess),
        !cancellable_while_active(TaskKindTag::Undock),
        !cancellable_while_active(TaskKindTag::UseGate),
{
}

/// Which lifecycle listeners a task kind needs.
#[derive(PartialEq, Eq, Structural, Copy, Clone, Debug)]
pub struct LifecycleListeners {
    /// Reacts to the task being started.
    pub started: bool,
    /// Reacts to the task being cancelled while it waits in the queue.
    pub cancelled_in_queue: bool,
    /// Reacts to the task being cancelled while it is active.
    pub cancelled_while_active: bool,
    /// Reacts to the task being completed (beyond starting the next task).
    pub completed: bool,
}

/// The listeners that are registered for each task kind. A kind listens for being cancelled
/// while active exactly when it has its own logic for it: cancelling an active construction deregisters the ship
/// from its site, cancelling an active harvest or wait for a signal frees its place in the
/// interaction queue. Kinds without such logic (among them those that can never be cancelled
/// while active, see [cancellable_while_active]) register no listener.
pub open spec fn lifecycle_listeners_of(tag: TaskKindTag) -> LifecycleListeners {
    match tag {
        TaskKindTag::AwaitingSignal => LifecycleListeners {
            started: false,
            cancelled_in_queue: false,
            cancelled_while_active: true,
            completed: false,
        },
        TaskKindTag::Construct => LifecycleListeners {
            started: true,
            cancelled_in_queue: false,
            cancelled_while_active: true,
            completed: false,
        },
        TaskKindTag::DockAtEntity => LifecycleListeners {
            started: true,
            cancelled_in_queue: true,
            cancelled_while_active: false,
            completed: true,
        },
        TaskKindTag::ExchangeWares => LifecycleListeners {
            started: true,
            cancelled_in_queue: true,
            cancelled_while_active: false,
            completed: true,
        },
        TaskKindTag::HarvestGas => LifecycleListeners {
            started: true,
            cancelled_in_queue: false,
            cancelled_while_active: true,
            completed: true,
        },
        TaskKindTag::MineAsteroid => LifecycleListeners {
            started: true,
            cancelled_in_queue: false,
            cancelled_while_active: false,
            completed: false,
        },
        TaskKindTag::MoveToEntity | TaskKindTag::MoveToPosition | TaskKindTag::MoveToSector
        | TaskKindTag::RequestAccess => LifecycleListeners {
            started: false,
            cancelled_in_queue: false,
            cancelled_while_active: false,
            completed: false,
        },
        TaskKindTag::Undock | TaskKindTag::UseGate => LifecycleListeners {
            started: true,
            cancelled_in_queue: false,
            cancelled_while_active: false,
            completed: true,
        },
    }
}

/// Every task is of the kind its variant names.
pub proof fn law_task_kinds(task: TaskKind)
    ensures
        task is AwaitingSignal <==> tag_of(task) == TaskKindTag::AwaitingSignal,
        task is Construct <==> tag_of(task) == TaskKindTag::Construct,
        task is DockAtEntity <==> tag_of(task) == TaskKindTag::DockAtEntity,
        task is ExchangeWares <==> tag_of(task) == TaskKindTag::ExchangeWares,
        task is HarvestGas <==> tag_of(task) == TaskKindTag::HarvestGas,
        task is MineAsteroid <==> tag_of(task) == TaskKindTag::MineAsteroid,
        task is MoveToEntity <==> tag_of(task) == TaskKindTag::MoveToEntity,
        task is MoveToPosition <==> tag_of(task) == TaskKindTag::MoveToPosition,
        task is MoveToSector <==> tag_of(task) == TaskKindTag::MoveToSector,
        task is RequestAccess <==> tag_of(task) == TaskKindTag::RequestAccess,
        task is Undock <==> tag_of(task) == TaskKindTag::Undock,
        task is UseGate <==> tag_of(task) == TaskKindTag::UseGate,
{
}

/// Which kinds listen to which lifecycle events: movement and access requests listen to none;
/// only docking and trading react to being cancelled in the queue; construction, harvesting
/// and waiting for a signal react to being cancelled while active; docking, trading,
/// harvesting, undocking and gate passages react to being completed; every kind but waiting for
/// a signal, movement and access requests reacts to being started.
pub proof fn law_lifecycle_listeners(tag: TaskKindTag)
    ensures
        lifecycle_listeners_of(tag).started <==> !(tag == TaskKindTag::AwaitingSignal
            || tag == TaskKindTag::MoveToEntity || tag == TaskKindTag::MoveToPosition || tag
            == TaskKindTag::MoveToSector || tag == TaskKindTag::RequestAccess),
        lifecycle_listeners_of(tag).cancelled_in_queue <==> (tag == TaskKindTag::DockAtEntity
            || tag == TaskKindTag::ExchangeWares),
        lifecycle_listeners_of(tag).cancelled_while_active <==> (tag == TaskKindTag::Construct
            || tag == TaskKindTag::HarvestGas || tag == TaskKindTag::AwaitingSignal),
        lifecycle_listeners_of(tag).completed <==> (tag == TaskKindTag::DockAtEntity || tag
            == TaskKindTag::ExchangeWares || tag == TaskKindTag::HarvestGas || tag
            == TaskKindTag::Undock || tag == TaskKindTag::UseGate),
{
}

impl TaskKindTag {
    /// Whether tasks of this kind may be cancelled while they are being executed.
    pub fn can_task_be_cancelled_while_active(&self) -> (b: bool)
        ensures
            b == cancellable_while_active(*self),
    {
        match self {
            TaskKindTag::Construct | TaskKindTag::HarvestGas | TaskKindTag::MineAsteroid
            | TaskKindTag::MoveToEntity | TaskKindTag::MoveToPosition
            | TaskKindTag::MoveToSector => true,
            _ => false,
        }
    }

    /// The lifecycle listeners that tasks of this kind need.
    pub fn lifecycle_listeners(&self) -> (l: LifecycleListeners)
        ensures
            l == lifecycle_listeners_of(*self),
    {
        match self {
            TaskKindTag::AwaitingSignal => LifecycleListeners {
                started: false,
                cancelled_in_queue: false,
                cancelled_while_active: true,
                completed: false,
            },
            TaskKindTag::Construct => LifecycleListeners {
                started: true,
                cancelled_in_queue: false,
                cancelled_while_active: true,
                completed: false,
            },
            TaskKindTag::DockAtEntity => LifecycleListeners {
                started: true,
                cancelled_in_queue: true,
                cancelled_while_active: false,
                completed: true,
            },
            TaskKindTag::ExchangeWares => LifecycleListeners {
                started: true,
                cancelled_in_queue: true,
                cancelled_while_active: false,
                completed: true,
            },
            TaskKindTag::HarvestGas => LifecycleListeners {
                started: true,
                cancelled_in_queue: false,
                cancelled_while_active: true,
                completed: true,
            },
            TaskKindTag::MineAsteroid => LifecycleListeners {
                started: true,
                cancelled_in_queue: false,
                cancelled_while_active: false,
                completed: false,
            },
            TaskKindTag::MoveToEntity | TaskKindTag::MoveToPosition | TaskKindTag::MoveToSector
            | TaskKindTag::RequestAccess => LifecycleListeners {
                started: false,
                cancelled_in_queue: false,
                cancelled_while_active: false,
                completed: false,
            },
            TaskKindTag::Undock | TaskKindTag::UseGate => LifecycleListeners {
                started: true,
                cancelled_in_queue: false,
                cancelled_while_active: false,
                completed: true,
            },
        }
    }
}

impl TaskKind {
    /// Its kind.
    pub fn tag(&self) -> (t: TaskKindTag)
        ensures
            t == tag_of(*self),
    {
        match self {
            TaskKind::AwaitingSignal { .. } => TaskKindTag::AwaitingSignal,
            TaskKind::Construct { .. } => TaskKindTag::Construct,
            TaskKind::DockAtEntity { .. } => TaskKindTag::DockAtEntity,
            TaskKind::ExchangeWares { .. } => TaskKindTag::ExchangeWares,
            TaskKind::HarvestGas { .. } => TaskKindTag::HarvestGas,
            TaskKind::MineAsteroid { .. } => TaskKindTag::MineAsteroid,
            TaskKind::MoveToEntity { .. } => TaskKindTag::MoveToEntity,
            TaskKind::MoveToPosition { .. } => TaskKindTag::MoveToPosition,
            TaskKind::MoveToSector { .. } => TaskKindTag::MoveToSector,
            TaskKind::RequestAccess { .. } => TaskKindTag::RequestAccess,
            TaskKind::Undock { .. } => TaskKindTag::Undock,
            TaskKind::UseGate { .. } => TaskKindTag::UseGate,
        }
    }

    /// Whether it may be cancelled while it is being executed.
    pub fn can_task_be_cancelled_while_active(&self) -> (b: bool)
        ensures
            b == cancellable_while_active(tag_of(*self)),
    {
        self.tag().can_task_be_cancelled_while_active()
    }
}

/// A ship task attached to a ship entity.
pub struct ShipTask<T: ShipTaskData> {
    data: T,
}

impl<T: ShipTaskData> View for ShipTask<T> {
    type V = T;

    /// The task data.
    closed spec fn view(&self) -> T {
        self.data
    }
}

impl<T: ShipTaskData> ShipTask<T> {
    /// Wraps `data`.
    pub fn new(data: T) -> (t: Self)
        ensures
            t@ == data,
    {
        ShipTask { data }
    }

    /// Read access to the task data.
    pub fn data(&self) -> (d: &T)
        ensures
            *d == self@,
    {
        &self.data
    }

    /// Write access to the task data.
    pub fn data_mut(&mut self) -> (d: &mut T)
        ensures
            *d == old(self)@,
            final(self)@ == *final(d),
    {
        &mut self.data
    }
}

} // verus!
