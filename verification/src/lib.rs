//! Ship behaviour, task-queue and bookkeeping logic of a space trading simulation.
pub mod auto_mine_state;
pub mod behaviors;
pub mod construction;
pub mod entity;
pub mod entity_id_map;
pub mod game_data;
pub mod mouse_interaction;
pub mod path_element;
pub mod plugins;
pub mod price_setting;
pub mod save_data;
pub mod selection;
pub mod ship_behaviors;
pub mod ship_controller;
pub mod ship_tasks;
pub mod station_spawn;
pub mod task_creation;
pub mod task_metadata;
pub mod task_preconditions;
pub mod task_queue;
pub mod task_result;
pub mod tasks;
pub mod persistent_id;
