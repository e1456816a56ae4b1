use ship_ai::entity::Entity;
use ship_ai::selection::{
    CandidateFilter, SelectableCandidate, collect_matching, first_hit, selection_after_press,
    selection_changes_for_drag,
};

fn e(bits: u64) -> Entity {
    Entity::from_bits(bits)
}

fn candidate(
    bits: u64,
    kind: u64,
    visible: bool,
    selected: bool,
    in_area: bool,
    on_screen: bool,
) -> SelectableCandidate {
    SelectableCandidate { entity: e(bits), kind, visible, selected, in_area, on_screen }
}

fn scene() -> Vec<SelectableCandidate> {
    vec![
        candidate(1, 7, false, false, true, true),
        candidate(2, 7, true, true, true, true),
        candidate(3, 8, true, false, true, true),
        candidate(4, 7, true, false, false, true),
        candidate(5, 7, true, false, false, false),
        candidate(6, 7, false, true, false, true),
    ]
}

#[test]
fn press_over_ui_is_ignored() {
    assert!(selection_after_press(true, false, &scene()).is_none());
}

#[test]
fn press_selects_first_visible_hit_only() {
    assert_eq!(first_hit(&scene()), Some(1));
    assert_eq!(selection_after_press(false, false, &scene()), Some(vec![e(2)]));
}

#[test]
fn double_click_selects_visible_entities_of_the_same_kind_on_screen() {
    assert_eq!(selection_after_press(false, true, &scene()), Some(vec![e(2), e(4)]));
}

#[test]
fn press_into_empty_space_clears_the_selection() {
    let nothing_hit = vec![candidate(1, 7, true, true, false, true)];
    assert_eq!(first_hit(&nothing_hit), None);
    assert_eq!(selection_after_press(false, true, &nothing_hit), Some(Vec::new()));
}

#[test]
fn drag_selects_entered_and_deselects_left_entities() {
    let (entered, left) = selection_changes_for_drag(&scene());
    assert_eq!(entered, vec![e(3)]);
    assert_eq!(left, vec![e(6)]);
    assert_eq!(collect_matching(&scene(), CandidateFilter::SameKindOnScreen(8)), vec![e(3)]);
}
