//! The inspector's state: which screen is shown, which panel has the
//! focus, which solution set and solution table are selected, and the
//! summary text on display.
//!
//! Each command is specified as a function on [`AppView`], the mathematical
//! value of the state, and the executable methods of [`App`] are proved to
//! compute exactly those functions.

use crate::archive::{
    copy_soltabs, is_navigable, navigable, SolSet, SolSetView, SolTab, SolTabView,
};
use crate::summary::{solset_summary, solset_summary_text, soltab_summary, soltab_summary_text};
use vstd::arithmetic::div_mod::{lemma_mod_self_0, lemma_small_mod};
use vstd::prelude::*;

verus! {

/// Which top-level view is drawn. The state only stores it.
#[derive(Clone, Copy, Debug, PartialEq, Eq, Structural)]
pub enum CurrentScreen {
    Main,
    Opening,
    Exiting,
}

/// Which panel receives the commands. The three panels form a ring:
/// solution sets, then solution tables, then the information text, then
/// solution sets again.
#[derive(Clone, Copy, Debug, PartialEq, Eq, Structural)]
pub enum CurrentlyEditing {
    Solset,
    Soltab,
    Information,
}

impl CurrentlyEditing {
    /// The panel one step forwards on the ring.
    pub open spec fn following(self) -> CurrentlyEditing {
        match self {
            CurrentlyEditing::Solset => CurrentlyEditing::Soltab,
            CurrentlyEditing::Soltab => CurrentlyEditing::Information,
            CurrentlyEditing::Information => CurrentlyEditing::Solset,
        }
    }

    /// The panel one step backwards on the ring.
    pub open spec fn preceding(self) -> CurrentlyEditing {
        match self {
            CurrentlyEditing::Solset => CurrentlyEditing::Information,
            CurrentlyEditing::Soltab => CurrentlyEditing::Solset,
            CurrentlyEditing::Information => CurrentlyEditing::Soltab,
        }
    }

    /// Steps forwards on the ring.
    pub fn next(self) -> (panel: CurrentlyEditing)
        ensures
            panel == self.following(),
    {
        match self {
            CurrentlyEditing::Solset => CurrentlyEditing::Soltab,
            CurrentlyEditing::Soltab => CurrentlyEditing::Information,
            CurrentlyEditing::Information => CurrentlyEditing::Solset,
        }
    }

    /// Steps backwards on the ring.
    pub fn previous(self) -> (panel: CurrentlyEditing)
        ensures
            panel == self.preceding(),
    {
        match self {
            CurrentlyEditing::Solset => CurrentlyEditing::Information,
            CurrentlyEditing::Soltab => CurrentlyEditing::Solset,
            CurrentlyEditing::Information => CurrentlyEditing::Soltab,
        }
    }
}

/// Whether moving the solution-set selection forwards also re-reads the
/// solution tables of the newly selected set. Moving it backwards always
/// does. With `false` the list of solution tables is left as it was until
/// the next refresh.
pub const REFRESH_ON_INCREASE: bool = false;

/// The inspector's state.
#[derive(Debug)]
pub struct App {
    /// The screen on display.
    pub current_screen: CurrentScreen,
    /// The panel that has the focus.
    pub currently_editing: CurrentlyEditing,
    /// The archive's solution sets, as they were when it was opened.
    pub solsets: Vec<SolSet>,
    /// The selected solution set, an index into `solsets`.
    pub current_solset: usize,
    /// The solution tables on offer: those of the solution set that was
    /// selected when they were last refreshed.
    pub soltabs: Vec<SolTab>,
    /// The selected solution table, an index into `soltabs`.
    pub current_soltab: usize,
    /// The summary on display.
    pub text_buffer: String,
    /// The first line of the summary that is shown.
    pub text_scroll: u16,
}

/// The mathematical value of an [`App`].
pub struct AppView {
    pub current_screen: CurrentScreen,
    pub currently_editing: CurrentlyEditing,
    pub solsets: Seq<SolSetView>,
    pub current_solset: nat,
    pub soltabs: Seq<SolTabView>,
    pub current_soltab: nat,
    pub text_buffer: Seq<char>,
    pub text_scroll: nat,
}

impl View for App {
    type V = AppView;

    open spec fn view(&self) -> AppView {
        AppView {
            current_screen: self.current_screen,
            currently_editing: self.currently_editing,
            solsets: self.solsets.deep_view(),
            current_solset: self.current_solset as nat,
            soltabs: self.soltabs.deep_view(),
            current_soltab: self.current_soltab as nat,
            text_buffer: self.text_buffer@,
            text_scroll: self.text_scroll as nat,
        }
    }
}

impl AppView {
    /// The state is well formed: the solution sets can be navigated, the
    /// list of solution tables on offer is not empty, and both selections
    /// lie within their lists.
    pub open spec fn wf(self) -> bool {
        &&& navigable(self.solsets)
        &&& self.current_solset < self.solsets.len()
        &&& self.soltabs.len() > 0
        &&& self.current_soltab < self.soltabs.len()
    }

    /// The solution tables of the selected solution set, as the archive
    /// has them.
    pub open spec fn archive_soltabs(self) -> Seq<SolTabView>
        recommends
            self.current_solset < self.solsets.len(),
    {
        self.solsets[self.current_solset as int].soltabs
    }

    /// The solution tables on offer are those of the selected solution set.
    pub open spec fn fresh(self) -> bool {
        self.soltabs == self.archive_soltabs()
    }

    /// The state when a session starts on these solution sets: the first
    /// set selected, its tables on offer, its summary on display.
    pub open spec fn initial(solsets: Seq<SolSetView>) -> AppView
        recommends
            navigable(solsets),
    {
        AppView {
            current_screen: CurrentScreen::Main,
            currently_editing: CurrentlyEditing::Solset,
            solsets,
            current_solset: 0,
            soltabs: solsets[0].soltabs,
            current_soltab: 0,
            text_buffer: solset_summary(solsets[0].soltabs),
            text_scroll: 0,
        }
    }

    /// The state after the focus has moved one panel, forwards or
    /// backwards. Nothing else changes.
    pub open spec fn toggled(self, forwards: bool) -> AppView {
        AppView {
            currently_editing: if forwards {
                self.currently_editing.following()
            } else {
                self.currently_editing.preceding()
            },
            ..self
        }
    }

    /// The state after a refresh. With the focus on the solution sets, the
    /// tables on offer become those of the selected set and the first of
    /// them is selected. With the focus elsewhere nothing changes.
    pub open spec fn refreshed(self) -> AppView {
        match self.currently_editing {
            CurrentlyEditing::Solset => AppView {
                soltabs: self.archive_soltabs(),
                current_soltab: 0,
                ..self
            },
            _ => self,
        }
    }

    /// Whether the selection under the focus can move: the selection that
    /// would move lies within its list, which is therefore not empty. The
    /// scroll offset of the information panel can always move.
    pub open spec fn steppable(self) -> bool {
        match self.currently_editing {
            CurrentlyEditing::Solset => self.current_solset < self.solsets.len(),
            CurrentlyEditing::Soltab => self.current_soltab < self.soltabs.len(),
            CurrentlyEditing::Information => true,
        }
    }

    /// The state after the selection under the focus has moved one step
    /// forwards, wrapping from the last entry to the first.
    pub open spec fn increased(self) -> AppView {
        match self.currently_editing {
            CurrentlyEditing::Solset => {
                let moved = AppView {
                    current_solset: (self.current_solset + 1) % self.solsets.len(),
                    ..self
                };
                if REFRESH_ON_INCREASE {
                    moved.refreshed()
                } else {
                    moved
                }
            },
            CurrentlyEditing::Soltab => AppView {
                current_soltab: (self.current_soltab + 1) % self.soltabs.len(),
                ..self
            },
            CurrentlyEditing::Information => AppView { text_scroll: self.text_scroll + 1, ..self },
        }
    }

    /// The state after the selection under the focus has moved one step
    /// backwards, wrapping from the first entry to the last. A move of the
    /// solution-set selection is followed by a refresh; the scroll offset
    /// stops at zero.
    pub open spec fn decreased(self) -> AppView {
        match self.currently_editing {
            CurrentlyEditing::Solset => AppView {
                current_solset: if self.current_solset == 0 {
                    (self.solsets.len() - 1) as nat
                } else {
                    (self.current_solset - 1) as nat
                },
                ..self
            }.refreshed(),
            CurrentlyEditing::Soltab => AppView {
                current_soltab: if self.current_soltab == 0 {
                    (self.soltabs.len() - 1) as nat
                } else {
                    (self.current_soltab - 1) as nat
                },
                ..self
            },
            CurrentlyEditing::Information => AppView {
                text_scroll: if self.text_scroll == 0 {
                    0
                } else {
                    (self.text_scroll - 1) as nat
                },
                ..self
            },
        }
    }

    /// The solution table that a summary of the selected table describes:
    /// the one at the selected position among the archive's tables of the
    /// selected solution set.
    pub open spec fn selected_soltab(self) -> SolTabView
        recommends
            self.current_solset < self.solsets.len(),
            self.current_soltab < self.archive_soltabs().len(),
    {
        self.archive_soltabs()[self.current_soltab as int]
    }

    /// Whether the summary for the panel under the focus can be rendered.
    /// For the solution sets the selected set must exist. For the solution
    /// tables the selected position must also exist among the archive's
    /// tables of that set, and the table there must have at least two time
    /// samples. The information panel asks for nothing.
    pub open spec fn selectable(self) -> bool {
        match self.currently_editing {
            CurrentlyEditing::Solset => self.current_solset < self.solsets.len(),
            CurrentlyEditing::Soltab => {
                &&& self.current_solset < self.solsets.len()
                &&& self.current_soltab < self.archive_soltabs().len()
                &&& self.selected_soltab().times.samples >= 2
            },
            CurrentlyEditing::Information => true,
        }
    }

    /// The state after the summary has been rendered for the panel under
    /// the focus: the table of the selected solution set, or the
    /// description of the selected solution table. With the focus on the
    /// information panel nothing changes.
    pub open spec fn selected(self) -> AppView {
        match self.currently_editing {
            CurrentlyEditing::Solset => AppView {
                text_buffer: solset_summary(self.archive_soltabs()),
                ..self
            },
            CurrentlyEditing::Soltab => AppView {
                text_buffer: soltab_summary(self.selected_soltab()),
                ..self
            },
            CurrentlyEditing::Information => self,
        }
    }
}

/// One step forwards on a ring of `n` places: the next place, or the first
/// after the last.
pub proof fn lemma_ring_step(place: nat, n: nat)
    requires
        place < n,
    ensures
        (place + 1) % n == if place + 1 == n {
            0
        } else {
            place + 1
        },
{
    if place + 1 == n {
        lemma_mod_self_0(n as int);
    } else {
        lemma_small_mod(place + 1, n);
    }
}

impl App {
    /// Starts a session on the solution sets of an opened archive.
    ///
    /// There must be at least one solution set, and each must hold at least
    /// one solution table.
    pub fn new(solsets: Vec<SolSet>) -> (app: App)
        requires
            navigable(solsets.deep_view()),
        ensures
            app@ == AppView::initial(solsets.deep_view()),
            app@.wf(),
            app@.fresh(),
    {
        let soltabs = copy_soltabs(&solsets[0].soltabs);
        let mut app = App {
            current_screen: CurrentScreen::Main,
            currently_editing: CurrentlyEditing::Solset,
            solsets,
            current_solset: 0,
            soltabs,
            current_soltab: 0,
            text_buffer: String::new(),
            text_scroll: 0,
        };
        app.select();
        app
    }

    /// Tests whether the state is well formed.
    pub fn is_well_formed(&self) -> (yes: bool)
        ensures
            yes == self@.wf(),
    {
        is_navigable(&self.solsets) && self.current_solset < self.solsets.len()
            && self.soltabs.len() > 0 && self.current_soltab < self.soltabs.len()
    }

    /// Moves the focus one panel along the ring, forwards or backwards.
    pub fn toggle_editing(&mut self, forwards: bool)
        ensures
            final(self)@ == old(self)@.toggled(forwards),
    {
        self.currently_editing = if forwards {
            self.currently_editing.next()
        } else {
            self.currently_editing.previous()
        };
    }

    /// Tests whether the selection under the focus can move.
    pub fn is_steppable(&self) -> (yes: bool)
        ensures
            yes == self@.steppable(),
    {
        match self.currently_editing {
            CurrentlyEditing::Solset => self.current_solset < self.solsets.len(),
            CurrentlyEditing::Soltab => self.current_soltab < self.soltabs.len(),
            CurrentlyEditing::Information => true,
        }
    }

    /// Moves the selection under the focus one step forwards.
    ///
    /// The selection that moves must lie within its list. With the focus on
    /// the information panel the scroll offset grows by one, so it must not
    /// yet be the largest that the state can hold.
    pub fn increase_soltab(&mut self)
        requires
            old(self)@.steppable(),
            old(self).currently_editing == CurrentlyEditing::Information ==> old(self).text_scroll
                < u16::MAX,
        ensures
            final(self)@ == old(self)@.increased(),
            old(self)@.wf() ==> final(self)@.wf(),
    {
        proof {
            assert(self@.solsets.len() == self.solsets.len());
            assert(self@.soltabs.len() == self.soltabs.len());
            if self@.current_solset < self@.solsets.len() {
                lemma_ring_step(self@.current_solset, self@.solsets.len());
            }
            if self@.current_soltab < self@.soltabs.len() {
                lemma_ring_step(self@.current_soltab, self@.soltabs.len());
            }
        }
        match self.currently_editing {
            CurrentlyEditing::Solset => {
                self.current_solset += 1;
                if self.current_solset >= self.solsets.len() {
                    self.current_solset = 0;
                }
                if REFRESH_ON_INCREASE {
                    self.update_soltabs();
                }
            },
            CurrentlyEditing::Soltab => {
                self.current_soltab += 1;
                if self.current_soltab >= self.soltabs.len() {
                    self.current_soltab = 0;
                }
            },
            CurrentlyEditing::Information => {
                self.text_scroll += 1;
            },
        }
    }

    /// Moves the selection under the focus one step backwards. A move of
    /// the solution-set selection refreshes the solution tables on offer.
    ///
    /// The selection that moves must lie within its list.
    pub fn decrease_soltab(&mut self)
        requires
            old(self)@.steppable(),
        ensures
            final(self)@ == old(self)@.decreased(),
            old(self)@.wf() ==> final(self)@.wf(),
    {
        match self.currently_editing {
            CurrentlyEditing::Solset => {
                if self.current_solset == 0 {
                    self.current_solset = self.solsets.len() - 1;
                } else {
                    self.current_solset -= 1;
                }
                self.update_soltabs();
            },
            CurrentlyEditing::Soltab => {
                if self.current_soltab == 0 {
                    self.current_soltab = self.soltabs.len() - 1;
                } else {
                    self.current_soltab -= 1;
                }
            },
            CurrentlyEditing::Information => {
                if self.text_scroll > 0 {
                    self.text_scroll -= 1;
                }
            },
        }
    }

    /// Refreshes the solution tables on offer from the selected solution
    /// set, where the focus is on the solution sets.
    pub fn update_soltabs(&mut self)
        requires
            old(self).currently_editing == CurrentlyEditing::Solset ==> old(self).current_solset
                < old(self).solsets.len(),
        ensures
            final(self)@ == old(self)@.refreshed(),
    {
        match self.currently_editing {
            CurrentlyEditing::Solset => {
                let fresh = copy_soltabs(&self.solsets[self.current_solset].soltabs);
                self.soltabs = fresh;
                self.current_soltab = 0;
            },
            _ => {},
        }
    }

    /// Tests whether [`App::select`] can render the summary for the panel
    /// under the focus.
    pub fn is_selectable(&self) -> (yes: bool)
        ensures
            yes == self@.selectable(),
    {
        match self.currently_editing {
            CurrentlyEditing::Solset => self.current_solset < self.solsets.len(),
            CurrentlyEditing::Soltab => {
                self.current_solset < self.solsets.len() && self.current_soltab
                    < self.solsets[self.current_solset].soltabs.len()
                    && self.solsets[self.current_solset].soltabs[self.current_soltab].times.samples
                    >= 2
            },
            CurrentlyEditing::Information => true,
        }
    }

    /// Renders the summary for the panel under the focus into the text on
    /// display.
    pub fn select(&mut self)
        requires
            old(self)@.selectable(),
        ensures
            final(self)@ == old(self)@.selected(),
    {
        match self.currently_editing {
            CurrentlyEditing::Solset => {
                let text = solset_summary_text(&self.solsets[self.current_solset].soltabs);
                self.text_buffer = text;
            },
            CurrentlyEditing::Soltab => {
                let text = soltab_summary_text(
                    &self.solsets[self.current_solset].soltabs[self.current_soltab],
                );
                self.text_buffer = text;
            },
            CurrentlyEditing::Information => {},
        }
    }
}

} // verus!
