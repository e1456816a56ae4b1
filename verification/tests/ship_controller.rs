use ship_ai::entity::{Entity, SectorEntity};
use ship_ai::ship_controller::send_move_command;
use ship_ai::ship_tasks::{FloatBits, MoveToPosition, SectorPosition, Vec2Bits};
use ship_ai::task_queue::TaskInsertionMode;

fn vec2(x: f32, y: f32) -> Vec2Bits {
    Vec2Bits { x: FloatBits { bits: x.to_bits() }, y: FloatBits { bits: y.to_bits() } }
}

fn e(row: u32) -> Entity {
    Entity::from_bits(bevy::ecs::entity::Entity::from_raw_u32(row).unwrap().to_bits())
}

#[test]
fn right_clicking_with_selected_ship_should_send_move_command() {
    let entity = e(1);
    let sector_position = SectorPosition { local_position: vec2(50.0, 50.0), sector: SectorEntity(e(42)) };
    let target = MoveToPosition { sector_position, global_position: vec2(50.0, 50.0) };

    // the button is held, not released yet
    let events = send_move_command(false, false, Some(target), &vec![entity]);
    assert!(events.first().is_none());

    let events = send_move_command(true, false, Some(target), &vec![entity]);
    let event = events.first().unwrap();
    assert_eq!(event.entity, entity);
    assert_eq!(event.task_data.sector_position.local_position, sector_position.local_position);
    assert_eq!(event.task_data.sector_position.sector, sector_position.sector);
}

#[test]
fn control_click_prepends_for_every_selected_ship() {
    let sector_position = SectorPosition { local_position: vec2(1.0, 2.0), sector: SectorEntity(e(3)) };
    let target = MoveToPosition { sector_position, global_position: vec2(1.0, 2.0) };
    let events = send_move_command(true, true, Some(target), &vec![e(1), e(2)]);
    assert_eq!(events.len(), 2);
    assert_eq!(events[1].entity, e(2));
    assert!(events.iter().all(|c| c.insertion_mode == TaskInsertionMode::Prepend));
}

#[test]
fn clicking_outside_any_sector_sends_nothing() {
    assert!(send_move_command(true, false, None, &vec![e(1)]).is_empty());
}
