//! Which entities a press or a drag of the left mouse button selects and deselects.
//!
//! The geometry (whether an entity's circle overlaps the cursor, the dragged rectangle or the
//! visible part of the world) is measured by the caller and handed in as flags.
use crate::entity::Entity;
use vstd::prelude::*;

verus! {

/// A selectable entity as seen by one mouse action.
#[derive(PartialEq, Eq, Structural, Copy, Clone, Debug)]
pub struct SelectableCandidate {
    pub entity: Entity,
    /// What kind of selectable it is; entities of one kind have equal keys.
    pub kind: u64,
    /// Whether it is drawn.
    pub visible: bool,
    /// Whether it is selected right now.
    pub selected: bool,
    /// Whether it overlaps the area of the action: the cursor for a press, the dragged
    /// rectangle for a drag.
    pub in_area: bool,
    /// Whether it overlaps the visible part of the world.
    pub on_screen: bool,
}

/// Which candidates a mouse action picks out.
#[derive(PartialEq, Eq, Structural, Copy, Clone, Debug)]
pub enum CandidateFilter {
    /// Visible candidates of this kind on screen: what a double click selects.
    SameKindOnScreen(u64),
    /// Visible, unselected candidates inside the dragged rectangle.
    EnteredByDrag,
    /// Selected candidates outside the dragged rectangle.
    LeftByDrag,
}

/// Whether `filter` picks out `c`.
pub open spec fn matches_filter(filter: CandidateFilter, c: SelectableCandidate) -> bool {
    match filter {
        CandidateFilter::SameKindOnScreen(kind) => c.visible && c.on_screen && c.kind == kind,
        CandidateFilter::EnteredByDrag => !c.selected && c.visible && c.in_area,
        CandidateFilter::LeftByDrag => c.selected && !c.in_area,
    }
}

/// The entities of the candidates that `filter` picks out, in their order.
pub open spec fn entities_matching(s: Seq<SelectableCandidate>, filter: CandidateFilter) -> Seq<
    Entity,
>
    decreases s.len(),
{
    if s.len() == 0 {
        Seq::empty()
    } else {
        let rest = entities_matching(s.drop_last(), filter);
        if matches_filter(filter, s.last()) {
            rest.push(s.last().entity)
        } else {
            rest
        }
    }
}

/// A press hits a candidate that is drawn and lies under the cursor.
pub open spec fn is_hit(c: SelectableCandidate) -> bool {
    c.visible && c.in_area
}

/// `i` is the first candidate that a press hits.
pub open spec fn is_first_hit(s: Seq<SelectableCandidate>, i: int) -> bool {
    &&& 0 <= i < s.len()
    &&& is_hit(s[i])
    &&& forall|j: int| 0 <= j < i ==> !is_hit(#[trigger] s[j])
}

/// The selection after a press that is not over the user interface: nothing where the press
/// hits nothing; the hit entity; on a double click, every visible entity of its kind on screen.
pub open spec fn selection_after_press_hitting(
    s: Seq<SelectableCandidate>,
    hit: int,
    double_click: bool,
) -> Seq<Entity> {
    if double_click {
        entities_matching(s, CandidateFilter::SameKindOnScreen(s[hit].kind))
    } else {
        seq![s[hit].entity]
    }
}

/// The entities of the candidates that `filter` picks out, in their order.
pub fn collect_matching(candidates: &Vec<SelectableCandidate>, filter: CandidateFilter) -> (r: Vec<
    Entity,
>)
    ensures
        r@ == entities_matching(candidates@, filter),
{
    let mut r: Vec<Entity> = Vec::new();
    let mut i: usize = 0;
    while i < candidates.len()
        invariant
            i <= candidates@.len(),
            r@ == entities_matching(candidates@.subrange(0, i as int), filter),
        decreases candidates@.len() - i,
    {
        let c = candidates[i];
        assert(candidates@.subrange(0, i as int) =~= candidates@.subrange(
            0,
            i + 1,
        ).drop_last());
        let picked = match filter {
            CandidateFilter::SameKindOnScreen(kind) => c.visible && c.on_screen && c.kind == kind,
            CandidateFilter::EnteredByDrag => !c.selected && c.visible && c.in_area,
            CandidateFilter::LeftByDrag => c.selected && !c.in_area,
        };
        if picked {
            r.push(c.entity);
        }
        i = i + 1;
    }
    assert(candidates@.subrange(0, candidates@.len() as int) =~= candidates@);
    r
}

/// The position of the first candidate that a press hits, or `None` where it hits none.
pub fn first_hit(candidates: &Vec<SelectableCandidate>) -> (r: Option<usize>)
    ensures
        match r {
            Some(i) => is_first_hit(candidates@, i as int),
            None => forall|j: int| 0 <= j < candidates@.len() ==> !is_hit(#[trigger] candidates@[j]),
        },
{
    let mut i: usize = 0;
    while i < candidates.len()
        invariant
            i <= candidates@.len(),
            forall|j: int| 0 <= j < i ==> !is_hit(#[trigger] candidates@[j]),
        decreases candidates@.len() - i,
    {
        if candidates[i].visible && candidates[i].in_area {
            return Some(i);
        }
        i = i + 1;
    }
    None
}

/// What a press of the left mouse button does to the selection.
///
/// Over the user interface the press is ignored (`None`). Otherwise the whole selection is
/// replaced (`Some`): by nothing where the press hits nothing, else by the first hit entity,
/// or on a double click by every visible entity on screen of the hit entity's kind.
pub fn selection_after_press(
    over_ui: bool,
    double_click: bool,
    candidates: &Vec<SelectableCandidate>,
) -> (r: Option<Vec<Entity>>)
    ensures
        over_ui <==> r is None,
        r matches Some(v) ==> {
            ||| (forall|j: int|
                0 <= j < candidates@.len() ==> !is_hit(#[trigger] candidates@[j]))
                && v@ == Seq::<Entity>::empty()
            ||| exists|i: int|
                is_first_hit(candidates@, i) && v@ == #[trigger] selection_after_press_hitting(
                    candidates@,
                    i,
                    double_click,
                )
        },
{
    if over_ui {
        return None;
    }
    match first_hit(candidates) {
        None => Some(Vec::new()),
        Some(i) => {
            let hit = candidates[i];
            let v = if double_click {
                collect_matching(candidates, CandidateFilter::SameKindOnScreen(hit.kind))
            } else {
                let mut v: Vec<Entity> = Vec::new();
                v.push(hit.entity);
                v
            };
            assert(v@ == selection_after_press_hitting(candidates@, i as int, double_click));
            Some(v)
        },
    }
}

/// What a drag changes in the selection: the visible, unselected entities inside the
/// rectangle get selected, the selected ones outside it get deselected.
pub fn selection_changes_for_drag(candidates: &Vec<SelectableCandidate>) -> (r: (
    Vec<Entity>,
    Vec<Entity>,
))
    ensures
        r.0@ == entities_matching(candidates@, CandidateFilter::EnteredByDrag),
        r.1@ == entities_matching(candidates@, CandidateFilter::LeftByDrag),
{
    (
        collect_matching(candidates, CandidateFilter::EnteredByDrag),
        collect_matching(candidates, CandidateFilter::LeftByDrag),
    )
}

/// An entity comes out of [entities_matching] exactly when a candidate with that entity
/// matches the filter.
pub proof fn lemma_entities_matching_contains(
    s: Seq<SelectableCandidate>,
    filter: CandidateFilter,
    e: Entity,
)
    ensures
        entities_matching(s, filter).contains(e) <==> exists|i: int|
            0 <= i < s.len() && matches_filter(filter, #[trigger] s[i]) && s[i].entity == e,
    decreases s.len(),
{
    if s.len() > 0 {
        let init = s.drop_last();
        lemma_entities_matching_contains(init, filter, e);
        let rest = entities_matching(init, filter);
        if exists|i: int|
            0 <= i < s.len() && matches_filter(filter, #[trigger] s[i]) && s[i].entity == e {
            let i = choose|i: int|
                0 <= i < s.len() && matches_filter(filter, #[trigger] s[i]) && s[i].entity == e;
            if i < s.len() - 1 {
                assert(init[i] == s[i]);
            }
        }
        if matches_filter(filter, s.last()) {
            assert(rest.push(s.last().entity).contains(e) <==> (rest.contains(e) || s.last().entity
                == e)) by {
                if rest.push(s.last().entity).contains(e) {
                    let k = choose|k: int|
                        0 <= k < rest.push(s.last().entity).len() && rest.push(
                            s.last().entity,
                        )[k] == e;
                    if k < rest.len() {
                        assert(rest[k] == e);
                    }
                }
                if rest.contains(e) {
                    let k = choose|k: int| 0 <= k < rest.len() && rest[k] == e;
                    assert(rest.push(s.last().entity)[k] == e);
                }
                if s.last().entity == e {
                    assert(rest.push(s.last().entity)[rest.len() as int] == e);
                }
            }
        }
        assert forall|i: int| 0 <= i < s.len() - 1 implies #[trigger] init[i] == s[i] by {}
    }
}

/// After a drag, an entity is selected exactly when it is inside the rectangle and was either
/// selected already or is visible; every other entity is unselected.
pub proof fn law_drag_selects_exactly_the_rectangle(
    candidates: Seq<SelectableCandidate>,
    i: int,
)
    requires
        0 <= i < candidates.len(),
        forall|j: int, k: int|
            0 <= j < candidates.len() && 0 <= k < candidates.len() && j != k ==> (
            #[trigger] candidates[j]).entity != (#[trigger] candidates[k]).entity,
    ensures
        ({
            let c = candidates[i];
            let entered = entities_matching(candidates, CandidateFilter::EnteredByDrag);
            let left = entities_matching(candidates, CandidateFilter::LeftByDrag);
            let selected_after = (c.selected && !left.contains(c.entity)) || entered.contains(
                c.entity,
            );
            selected_after == (c.in_area && (c.selected || c.visible))
        }),
{
    let c = candidates[i];
    lemma_entities_matching_contains(candidates, CandidateFilter::EnteredByDrag, c.entity);
    lemma_entities_matching_contains(candidates, CandidateFilter::LeftByDrag, c.entity);
}

/// A double click picks the visible candidates of its kind on screen; a drag selects the visible
/// unselected candidates inside the rectangle and deselects the selected ones outside it; a
/// press hits a visible candidate under the cursor.
pub proof fn law_candidate_filters(c: SelectableCandidate, kind: u64)
    ensures
        matches_filter(CandidateFilter::SameKindOnScreen(kind), c) <==> (c.visible && c.on_screen
            && c.kind == kind),
        matches_filter(CandidateFilter::EnteredByDrag, c) <==> (!c.selected && c.visible
            && c.in_area),
        matches_filter(CandidateFilter::LeftByDrag, c) <==> (c.selected && !c.in_area),
        is_hit(c) <==> (c.visible && c.in_area),
{
}

/// After a press that hits candidate `i`, a single click selects exactly that entity, and a
/// double click selects an entity exactly when a visible candidate of the hit kind on screen
/// holds it.
pub proof fn law_press_selection(s: Seq<SelectableCandidate>, i: int, e: Entity)
    requires
        0 <= i < s.len(),
    ensures
        selection_after_press_hitting(s, i, false) == seq![s[i].entity],
        selection_after_press_hitting(s, i, true).contains(e) <==> exists|j: int|
            0 <= j < s.len() && (#[trigger] s[j]).visible && s[j].on_screen && s[j].kind
                == s[i].kind && s[j].entity == e,
{
    lemma_entities_matching_contains(s, CandidateFilter::SameKindOnScreen(s[i].kind), e);
}

} // verus!
