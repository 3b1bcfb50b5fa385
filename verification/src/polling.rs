//! The decision logic of the polling loop. The loop itself — sleeping,
//! reading the device, taking locks — belongs to the surrounding
//! application; each iteration hands the observed event to [`poll_step`],
//! which computes the rising edges to dispatch, the change notification to
//! emit, the next snapshot, and whether the loop must terminate.

use vstd::prelude::*;

use crate::codec::{decode_button_states, spec_decode_button_states};
use crate::config::{Action, Config};
use crate::constants::BUTTON_COUNT;

verus! {

/// What one polling iteration observed before deciding.
pub enum PollEvent {
    /// The session is gone: the loop's normal shutdown path.
    NoSession,
    /// The read failed: the device is unusable, the loop terminates.
    ReadError,
    /// A raw report was read; an empty buffer means nothing to report.
    Report(Vec<u8>),
}

/// What one polling iteration decided.
pub struct PollOutcome {
    /// The loop must terminate; a terminated loop is never resumed.
    pub stop: bool,
    /// Buttons that just went from released to pressed, ascending.
    pub pressed: Vec<usize>,
    /// The change notification to emit, at most one per iteration: the
    /// full new state array, present exactly when it differs from the
    /// previous snapshot.
    pub notify: Option<Vec<bool>>,
    /// The snapshot for the next iteration.
    pub states: Vec<bool>,
}

/// A rising edge at `i`: released in the previous snapshot, pressed now.
/// Held-down buttons and releases are not edges.
pub open spec fn spec_rising(prev: Seq<bool>, curr: Seq<bool>, i: int) -> bool {
    curr[i] && !prev[i]
}

/// Whether the index `i` occurs in the list of pressed buttons.
pub open spec fn spec_contains_index(s: Seq<usize>, i: int) -> bool {
    exists|j: int| 0 <= j < s.len() && (#[trigger] s[j]) as int == i
}

/// The button indices whose state rose between two snapshots, in
/// ascending order: exactly those dispatch acts on.
pub fn rising_edges(prev: &Vec<bool>, curr: &Vec<bool>) -> (edges: Vec<usize>)
    requires
        prev@.len() == BUTTON_COUNT,
        curr@.len() == BUTTON_COUNT,
    ensures
        forall|j: int|
            0 <= j < edges@.len() ==> (#[trigger] edges@[j]) < BUTTON_COUNT && spec_rising(
                prev@,
                curr@,
                edges@[j] as int,
            ),
        forall|i: int|
            0 <= i < BUTTON_COUNT as int && spec_rising(prev@, curr@, i)
                ==> #[trigger] spec_contains_index(edges@, i),
        forall|j1: int, j2: int|
            0 <= j1 < j2 < edges@.len() ==> #[trigger] edges@[j1] < #[trigger] edges@[j2],
{
    let mut edges: Vec<usize> = Vec::new();
    let mut i: usize = 0;
    while i < BUTTON_COUNT
        invariant
            i <= BUTTON_COUNT,
            prev@.len() == BUTTON_COUNT,
            curr@.len() == BUTTON_COUNT,
            forall|j: int|
                0 <= j < edges@.len() ==> (#[trigger] edges@[j]) < i && spec_rising(
                    prev@,
                    curr@,
                    edges@[j] as int,
                ),
            forall|b: int|
                0 <= b < i && spec_rising(prev@, curr@, b) ==> #[trigger] spec_contains_index(
                    edges@,
                    b,
                ),
            forall|j1: int, j2: int|
                0 <= j1 < j2 < edges@.len() ==> #[trigger] edges@[j1] < #[trigger] edges@[j2],
        decreases BUTTON_COUNT - i,
    {
        if curr[i] && !prev[i] {
            let ghost old_edges = edges@;
            edges.push(i);
            proof {
                assert(edges@[old_edges.len() as int] == i);
                assert forall|b: int|
                    0 <= b < i + 1 && spec_rising(prev@, curr@, b) implies spec_contains_index(
                    edges@,
                    b,
                ) by {
                    if b < i {
                        assert(spec_contains_index(old_edges, b));
                        let j = choose|j: int|
                            0 <= j < old_edges.len() && (#[trigger] old_edges[j]) as int == b;
                        assert(edges@[j] as int == b);
                    } else {
                        assert(edges@[old_edges.len() as int] as int == b);
                    }
                }
            }
        }
        i = i + 1;
    }
    edges
}

/// What the new snapshot is after an event: a report updates it through
/// the codec, everything else leaves it unchanged.
pub open spec fn spec_states_after(event: PollEvent, prev: Seq<bool>) -> Seq<bool> {
    match event {
        PollEvent::Report(raw) => spec_decode_button_states(raw@, prev),
        _ => prev,
    }
}

/// Decide one polling iteration from the previous snapshot and the
/// observed event. The loop terminates exactly on session absence or a
/// read failure; a report yields the rising edges to dispatch and, when
/// anything changed, exactly one notification carrying the new states.
pub fn poll_step(prev: &Vec<bool>, event: PollEvent) -> (outcome: PollOutcome)
    requires
        prev@.len() == BUTTON_COUNT,
    ensures
        outcome.states@.len() == BUTTON_COUNT,
        outcome.states@ == spec_states_after(event, prev@),
        outcome.stop == !(event matches PollEvent::Report(_)),
        (event matches PollEvent::Report(_)) ==> {
            &&& (outcome.notify matches Some(n) && n@ == outcome.states@) == (outcome.states@
                != prev@)
            &&& (outcome.notify is None) == (outcome.states@ == prev@)
            &&& forall|j: int|
                0 <= j < outcome.pressed@.len() ==> (#[trigger] outcome.pressed@[j])
                    < BUTTON_COUNT && spec_rising(prev@, outcome.states@, outcome.pressed@[j] as int)
            &&& forall|i: int|
                0 <= i < BUTTON_COUNT as int && spec_rising(prev@, outcome.states@, i)
                    ==> #[trigger] spec_contains_index(outcome.pressed@, i)
            &&& forall|j1: int, j2: int|
                0 <= j1 < j2 < outcome.pressed@.len() ==> #[trigger] outcome.pressed@[j1]
                    < #[trigger] outcome.pressed@[j2]
        },
        !(event matches PollEvent::Report(_)) ==> outcome.pressed@.len() == 0 && outcome.notify
            is None,
{
    match event {
        PollEvent::NoSession => {
            let mut states: Vec<bool> = Vec::new();
            copy_states(prev, &mut states);
            PollOutcome { stop: true, pressed: Vec::new(), notify: None, states }
        },
        PollEvent::ReadError => {
            let mut states: Vec<bool> = Vec::new();
            copy_states(prev, &mut states);
            PollOutcome { stop: true, pressed: Vec::new(), notify: None, states }
        },
        PollEvent::Report(raw) => {
            let curr = decode_button_states(&raw, prev);
            let pressed = rising_edges(prev, &curr);
            let changed = !states_equal(prev, &curr);
            let notify = if changed {
                let mut copy: Vec<bool> = Vec::new();
                copy_states(&curr, &mut copy);
                Some(copy)
            } else {
                None
            };
            PollOutcome { stop: false, pressed, notify, states: curr }
        },
    }
}

/// Fill `out` with a copy of `src`.
fn copy_states(src: &Vec<bool>, out: &mut Vec<bool>)
    ensures
        final(out)@ == src@,
{
    out.clear();
    let n = src.len();
    let mut i: usize = 0;
    while i < n
        invariant
            i <= n,
            n == src@.len(),
            out@ == src@.subrange(0, i as int),
        decreases n - i,
    {
        out.push(src[i]);
        assert(out@ =~= src@.subrange(0, i + 1));
        i = i + 1;
    }
    assert(out@ =~= src@);
}

/// Element-wise equality of two state arrays.
fn states_equal(a: &Vec<bool>, b: &Vec<bool>) -> (r: bool)
    ensures
        r == (a@ == b@),
{
    if a.len() != b.len() {
        return false;
    }
    let n = a.len();
    let mut i: usize = 0;
    while i < n
        invariant
            i <= n,
            n == a@.len(),
            n == b@.len(),
            forall|j: int| 0 <= j < i ==> a@[j] == b@[j],
        decreases n - i,
    {
        if a[i] != b[i] {
            return false;
        }
        i = i + 1;
    }
    proof {
        assert(a@ =~= b@);
    }
    true
}

/// The action configured at a button position on the current page, if the
/// current page exists and the position is configured.
pub open spec fn spec_action_for_button(config: Config, index: int) -> Option<Action> {
    if config.current_page < config.pages@.len() {
        match config.pages@[config.current_page as int].buttons@[index] {
            Some(bc) => Some(bc.action),
            None => None,
        }
    } else {
        None
    }
}

/// Resolve the action configured at a pressed button on the current page.
/// The caller dispatches it; a missing page or an unconfigured button
/// dispatches nothing.
pub fn action_for_button<'a>(config: &'a Config, index: usize) -> (r: Option<&'a Action>)
    requires
        config.wf(),
        index < BUTTON_COUNT,
    ensures
        r matches Some(action) ==> spec_action_for_button(*config, index as int) == Some(*action),
        r is None ==> spec_action_for_button(*config, index as int) is None,
{
    if config.current_page < config.pages.len() {
        match &config.pages[config.current_page].buttons[index] {
            Some(bc) => Some(&bc.action),
            None => None,
        }
    } else {
        None
    }
}

/// Dispatch acts exactly on rising edges: a button that stays pressed or
/// is released between two snapshots is never among the pressed indices,
/// and a button that rises always is.
pub proof fn lemma_dispatch_only_on_rising_edges(
    prev: Seq<bool>,
    curr: Seq<bool>,
    pressed: Seq<usize>,
    i: int,
)
    requires
        forall|j: int|
            0 <= j < pressed.len() ==> (#[trigger] pressed[j]) < BUTTON_COUNT && spec_rising(
                prev,
                curr,
                pressed[j] as int,
            ),
        forall|b: int|
            0 <= b < BUTTON_COUNT as int && spec_rising(prev, curr, b)
                ==> #[trigger] spec_contains_index(pressed, b),
        0 <= i < BUTTON_COUNT as int,
    ensures
        spec_contains_index(pressed, i) == (curr[i] && !prev[i]),
{
    if curr[i] && !prev[i] {
        assert(spec_rising(prev, curr, i));
    }
    if spec_contains_index(pressed, i) {
        let j = choose|j: int| 0 <= j < pressed.len() && (#[trigger] pressed[j]) as int == i;
        assert(spec_rising(prev, curr, pressed[j] as int));
    }
}

} // verus!
