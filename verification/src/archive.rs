//! What the inspector knows of an opened archive: its solution sets, their
//! solution tables, and for each table the facts that a summary shows.
//!
//! The values are a snapshot taken once, when the archive is opened. Numbers
//! that the archive keeps as reals arrive here as text or in fixed point, so
//! that every rule over them is a rule over integers and characters.

use vstd::prelude::*;

verus! {

/// A sampled axis of a solution table.
#[derive(Debug)]
pub struct Axis {
    /// How many samples the axis has.
    pub samples: usize,
    /// The second sample minus the first, written as a plain number.
    /// It means nothing on an axis of fewer than two samples.
    pub step: String,
}

/// The mathematical value of an [`Axis`].
pub struct AxisView {
    pub samples: nat,
    pub step: Seq<char>,
}

impl DeepView for Axis {
    type V = AxisView;

    open spec fn deep_view(&self) -> AxisView {
        AxisView { samples: self.samples as nat, step: self.step@ }
    }
}

impl View for Axis {
    type V = AxisView;

    open spec fn view(&self) -> AxisView {
        self.deep_view()
    }
}

impl Clone for Axis {
    fn clone(&self) -> (copy: Self)
        ensures
            copy@ == self@,
    {
        Axis { samples: self.samples, step: self.step.clone() }
    }
}

/// One solution table, as far as a summary reads it.
#[derive(Debug)]
pub struct SolTab {
    /// The table's display name.
    pub name: String,
    /// The kind of solution it holds: phase, amplitude and so on.
    pub kind: String,
    /// The polarisation labels, in archive order.
    pub polarisations: Vec<String>,
    /// The antenna names, in archive order.
    pub antennas: Vec<String>,
    /// The names of the table's axes, in archive order.
    pub axes: Vec<String>,
    /// The direction names, where the table has a direction axis.
    pub directions: Option<Vec<String>>,
    /// The share of flagged samples, in hundredths of a percent.
    pub flagged: u32,
    /// The time axis.
    pub times: Axis,
    /// The frequency axis, where the table has one.
    pub frequencies: Option<Axis>,
}

/// The mathematical value of a [`SolTab`].
pub struct SolTabView {
    pub name: Seq<char>,
    pub kind: Seq<char>,
    pub polarisations: Seq<Seq<char>>,
    pub antennas: Seq<Seq<char>>,
    pub axes: Seq<Seq<char>>,
    pub directions: Option<Seq<Seq<char>>>,
    pub flagged: nat,
    pub times: AxisView,
    pub frequencies: Option<AxisView>,
}

impl DeepView for SolTab {
    type V = SolTabView;

    open spec fn deep_view(&self) -> SolTabView {
        SolTabView {
            name: self.name@,
            kind: self.kind@,
            polarisations: self.polarisations.deep_view(),
            antennas: self.antennas.deep_view(),
            axes: self.axes.deep_view(),
            directions: self.directions.deep_view(),
            flagged: self.flagged as nat,
            times: self.times@,
            frequencies: self.frequencies.deep_view(),
        }
    }
}

impl View for SolTab {
    type V = SolTabView;

    open spec fn view(&self) -> SolTabView {
        self.deep_view()
    }
}

/// A copy of a list of strings, equal to it character for character.
pub fn copy_strings(list: &Vec<String>) -> (copy: Vec<String>)
    ensures
        copy.deep_view() == list.deep_view(),
{
    let mut copy: Vec<String> = Vec::new();
    let mut i: usize = 0;
    while i < list.len()
        invariant
            i <= list.len(),
            copy.len() == i,
            forall|j: int| 0 <= j < i ==> copy[j]@ == list[j]@,
        decreases list.len() - i,
    {
        copy.push(list[i].clone());
        i += 1;
    }
    copy
}

impl Clone for SolTab {
    fn clone(&self) -> (copy: Self)
        ensures
            copy@ == self@,
    {
        let directions = match &self.directions {
            Some(names) => Some(copy_strings(names)),
            None => None,
        };
        let frequencies = match &self.frequencies {
            Some(axis) => Some(axis.clone()),
            None => None,
        };
        SolTab {
            name: self.name.clone(),
            kind: self.kind.clone(),
            polarisations: copy_strings(&self.polarisations),
            antennas: copy_strings(&self.antennas),
            axes: copy_strings(&self.axes),
            directions,
            flagged: self.flagged,
            times: self.times.clone(),
            frequencies,
        }
    }
}

/// A copy of a list of solution tables, equal to it in every fact.
pub fn copy_soltabs(list: &Vec<SolTab>) -> (copy: Vec<SolTab>)
    ensures
        copy.deep_view() == list.deep_view(),
{
    let mut copy: Vec<SolTab> = Vec::new();
    let mut i: usize = 0;
    while i < list.len()
        invariant
            i <= list.len(),
            copy.len() == i,
            forall|j: int| 0 <= j < i ==> copy[j]@ == list[j]@,
        decreases list.len() - i,
    {
        copy.push(list[i].clone());
        i += 1;
    }
    copy
}

/// One solution set: a group of solution tables.
#[derive(Debug)]
pub struct SolSet {
    /// Its solution tables, in archive order.
    pub soltabs: Vec<SolTab>,
}

/// The mathematical value of a [`SolSet`].
pub struct SolSetView {
    pub soltabs: Seq<SolTabView>,
}

impl DeepView for SolSet {
    type V = SolSetView;

    open spec fn deep_view(&self) -> SolSetView {
        SolSetView { soltabs: self.soltabs.deep_view() }
    }
}

impl View for SolSet {
    type V = SolSetView;

    open spec fn view(&self) -> SolSetView {
        self.deep_view()
    }
}

/// Whether a selection can move over these solution sets: there is at least
/// one, and each holds at least one solution table.
pub open spec fn navigable(solsets: Seq<SolSetView>) -> bool {
    &&& solsets.len() > 0
    &&& forall|i: int| 0 <= i < solsets.len() ==> (#[trigger] solsets[i]).soltabs.len() > 0
}

/// Tests [`navigable`] on a snapshot.
pub fn is_navigable(solsets: &Vec<SolSet>) -> (yes: bool)
    ensures
        yes == navigable(solsets.deep_view()),
{
    if solsets.len() == 0 {
        return false;
    }
    let mut i: usize = 0;
    while i < solsets.len()
        invariant
            i <= solsets.len(),
            forall|j: int| 0 <= j < i ==> (#[trigger] solsets.deep_view()[j]).soltabs.len() > 0,
        decreases solsets.len() - i,
    {
        if solsets[i].soltabs.len() == 0 {
            assert(solsets.deep_view()[i as int].soltabs.len() == 0);
            return false;
        }
        i += 1;
    }
    true
}

} // verus!
