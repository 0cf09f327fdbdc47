//! What holds of the commands taken together, proved over the
//! mathematical value of the state.

use crate::navigation::{lemma_ring_step, AppView, CurrentlyEditing};
use vstd::arithmetic::div_mod::{
    lemma_add_mod_noop_right, lemma_mod_add_multiples_vanish, lemma_small_mod,
};
use vstd::prelude::*;

verus! {

/// The state after `n` steps forwards of the selection under the focus.
pub open spec fn increased_by(state: AppView, n: nat) -> AppView
    decreases n,
{
    if n == 0 {
        state
    } else {
        increased_by(state, (n - 1) as nat).increased()
    }
}

/// The focus moves on a ring of three panels: a step forwards undoes a
/// step backwards and the other way round, and three steps in one
/// direction lead back to the start.
pub proof fn law_focus_ring(panel: CurrentlyEditing)
    ensures
        panel.following().preceding() == panel,
        panel.preceding().following() == panel,
        panel.following().following().following() == panel,
        panel.preceding().preceding().preceding() == panel,
        panel.following() != panel,
        panel.preceding() != panel,
{
}

/// Moving the focus changes nothing but the focus, and moving it back
/// restores the state.
pub proof fn law_toggle_only_moves_focus(state: AppView, forwards: bool)
    ensures
        state.toggled(forwards).toggled(!forwards) == state,
        state.toggled(forwards) == (AppView {
            currently_editing: state.toggled(forwards).currently_editing,
            ..state
        }),
{
}

/// Every command leaves a well-formed state well formed.
pub proof fn law_commands_keep_wf(state: AppView, forwards: bool)
    requires
        state.wf(),
    ensures
        state.toggled(forwards).wf(),
        state.refreshed().wf(),
        state.increased().wf(),
        state.decreased().wf(),
        state.selected().wf(),
{
    lemma_ring_step(state.current_solset, state.solsets.len());
    lemma_ring_step(state.current_soltab, state.soltabs.len());
}

/// With the focus on the solution sets, a step forwards and then a step
/// backwards lead back to the solution set selected before, and so do a
/// step backwards and then a step forwards. The step forwards leaves the
/// solution tables on offer as they were, so they are out of date as soon
/// as the newly selected set holds other tables; the step backwards always
/// leaves them up to date.
pub proof fn law_solset_ring_closure(state: AppView)
    requires
        state.wf(),
        state.currently_editing == CurrentlyEditing::Solset,
    ensures
        state.increased().decreased().current_solset == state.current_solset,
        state.decreased().increased().current_solset == state.current_solset,
        state.increased().soltabs == state.soltabs,
        state.increased().current_soltab == state.current_soltab,
        state.increased().archive_soltabs() != state.soltabs ==> !state.increased().fresh(),
        state.decreased().fresh(),
        state.increased().decreased().fresh(),
{
    let n = state.solsets.len();
    lemma_ring_step(state.current_solset, n);
    lemma_ring_step(state.decreased().current_solset, n);
}

/// The state after `rounds` rounds of a step forwards followed by a step
/// backwards.
pub open spec fn there_and_back(state: AppView, rounds: nat) -> AppView
    decreases rounds,
{
    if rounds == 0 {
        state
    } else {
        there_and_back(state, (rounds - 1) as nat).increased().decreased()
    }
}

/// With the focus on the solution sets, any number of rounds of a step
/// forwards followed by a step backwards leaves the selected solution set
/// where it was, the focus on the solution sets and the state well formed;
/// after at least one round the solution tables on offer are up to date
/// and the first of them is selected.
pub proof fn law_solset_ring_closure_repeated(state: AppView, rounds: nat)
    requires
        state.wf(),
        state.currently_editing == CurrentlyEditing::Solset,
    ensures
        there_and_back(state, rounds).current_solset == state.current_solset,
        there_and_back(state, rounds).currently_editing == CurrentlyEditing::Solset,
        there_and_back(state, rounds).wf(),
        rounds > 0 ==> there_and_back(state, rounds).fresh(),
        rounds > 0 ==> there_and_back(state, rounds).current_soltab == 0,
    decreases rounds,
{
    if rounds > 0 {
        let before = there_and_back(state, (rounds - 1) as nat);
        law_solset_ring_closure_repeated(state, (rounds - 1) as nat);
        law_solset_ring_closure(before);
        law_commands_keep_wf(before, true);
        law_commands_keep_wf(before.increased(), true);
    }
}

/// With the focus on the solution tables, a step forwards and then a step
/// backwards restore the state, and so do a step backwards and then a step
/// forwards.
pub proof fn law_soltab_ring_closure(state: AppView)
    requires
        state.wf(),
        state.currently_editing == CurrentlyEditing::Soltab,
    ensures
        state.increased().decreased() == state,
        state.decreased().increased() == state,
{
    let m = state.soltabs.len();
    lemma_ring_step(state.current_soltab, m);
    lemma_ring_step(state.decreased().current_soltab, m);
}

/// With the focus on the solution tables, `k` steps forwards from
/// position `p` among `m` tables lead to position `(p + k) mod m` and
/// change nothing else.
pub proof fn lemma_soltab_steps(state: AppView, k: nat)
    requires
        state.wf(),
        state.currently_editing == CurrentlyEditing::Soltab,
    ensures
        increased_by(state, k) == (AppView {
            current_soltab: (state.current_soltab + k) % state.soltabs.len(),
            ..state
        }),
    decreases k,
{
    let m = state.soltabs.len();
    if k == 0 {
        lemma_small_mod(state.current_soltab, m);
    } else {
        lemma_soltab_steps(state, (k - 1) as nat);
        lemma_add_mod_noop_right(1, state.current_soltab + k - 1, m as int);
    }
}

/// With the focus on the solution tables, as many steps forwards as there
/// are tables on offer lead back to the state before them.
pub proof fn law_soltab_full_cycle(state: AppView)
    requires
        state.wf(),
        state.currently_editing == CurrentlyEditing::Soltab,
    ensures
        increased_by(state, state.soltabs.len()) == state,
{
    let m = state.soltabs.len();
    lemma_soltab_steps(state, m);
    lemma_mod_add_multiples_vanish(state.current_soltab as int, m as int);
    lemma_small_mod(state.current_soltab, m);
}

/// With the focus on the information panel, a step backwards from scroll
/// offset zero leaves it at zero, and from any other offset takes one off.
/// A step forwards adds one, so a step forwards and then one backwards
/// restore the state.
pub proof fn law_scroll_floor(state: AppView)
    requires
        state.currently_editing == CurrentlyEditing::Information,
    ensures
        state.text_scroll == 0 ==> state.decreased() == state,
        state.text_scroll > 0 ==> state.decreased().text_scroll == state.text_scroll - 1,
        state.increased().text_scroll == state.text_scroll + 1,
        state.increased().decreased() == state,
{
}

/// With the focus on the solution sets, a step backwards selects the first
/// solution table and puts on offer exactly the tables of the newly
/// selected solution set, in the archive's order. A refresh does the same
/// for the solution set that is selected.
pub proof fn law_solset_change_refreshes(state: AppView)
    requires
        state.wf(),
        state.currently_editing == CurrentlyEditing::Solset,
    ensures
        state.decreased().current_soltab == 0,
        state.decreased().soltabs == state.solsets[state.decreased().current_solset as int].soltabs,
        state.decreased().current_solset == if state.current_solset == 0 {
            state.solsets.len() - 1
        } else {
            state.current_solset - 1
        },
        state.refreshed().current_soltab == 0,
        state.refreshed().soltabs == state.solsets[state.current_solset as int].soltabs,
{
}

/// Rendering touches only the text on display, and with the focus on the
/// information panel not even that.
pub proof fn law_select_only_writes_text(state: AppView)
    ensures
        state.selected() == (AppView { text_buffer: state.selected().text_buffer, ..state }),
        state.currently_editing == CurrentlyEditing::Information ==> state.selected() == state,
{
}

} // verus!
