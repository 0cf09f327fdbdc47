//! The three classes of station, told apart by how an antenna's name begins.

use crate::text::starts_with;
use vstd::prelude::*;

verus! {

/// Where a station stands in the array.
#[derive(Clone, Copy, Debug, PartialEq, Eq, Structural)]
pub enum StationClass {
    /// A station of the core: its name begins with `CS` or `ST`.
    Core,
    /// A remote station: its name begins with `RS`.
    Remote,
    /// Any other station.
    International,
}

/// Whether the name is that of a core station.
pub open spec fn is_core(name: Seq<char>) -> bool {
    "CS"@.is_prefix_of(name) || "ST"@.is_prefix_of(name)
}

/// Whether the name is that of a remote station.
pub open spec fn is_remote(name: Seq<char>) -> bool {
    "RS"@.is_prefix_of(name)
}

/// Whether the name is that of an international station: neither core nor
/// remote.
pub open spec fn is_international(name: Seq<char>) -> bool {
    !is_core(name) && !is_remote(name)
}

/// The class of the station with this name.
pub open spec fn class_of(name: Seq<char>) -> StationClass {
    if is_core(name) {
        StationClass::Core
    } else if is_remote(name) {
        StationClass::Remote
    } else {
        StationClass::International
    }
}

/// How many of the names belong to `class`.
pub open spec fn count_of(names: Seq<Seq<char>>, class: StationClass) -> nat
    decreases names.len(),
{
    if names.len() == 0 {
        0
    } else {
        let rest = count_of(names.drop_last(), class);
        if class_of(names.last()) == class {
            rest + 1
        } else {
            rest
        }
    }
}

/// Every name belongs to exactly one class: it is core, remote or
/// international, and no two of these hold together. The class that
/// [`class_of`] gives is the one that holds.
pub proof fn law_exactly_one_class(name: Seq<char>)
    ensures
        is_core(name) || is_remote(name) || is_international(name),
        !(is_core(name) && is_remote(name)),
        !(is_core(name) && is_international(name)),
        !(is_remote(name) && is_international(name)),
        class_of(name) == StationClass::Core <==> is_core(name),
        class_of(name) == StationClass::Remote <==> is_remote(name),
        class_of(name) == StationClass::International <==> is_international(name),
{
    reveal_strlit("CS");
    reveal_strlit("ST");
    reveal_strlit("RS");
    if is_core(name) && is_remote(name) {
        assert(name.subrange(0, 2)[0] == name[0]);
    }
}

/// The three counts of a list of names add up to its length.
pub proof fn law_counts_partition(names: Seq<Seq<char>>)
    ensures
        count_of(names, StationClass::Core) + count_of(names, StationClass::Remote) + count_of(
            names,
            StationClass::International,
        ) == names.len(),
    decreases names.len(),
{
    if names.len() > 0 {
        law_counts_partition(names.drop_last());
    }
}

/// Finds the class of a station from its name.
pub fn classify(name: &str) -> (class: StationClass)
    ensures
        class == class_of(name@),
{
    if starts_with(name, "CS") || starts_with(name, "ST") {
        StationClass::Core
    } else if starts_with(name, "RS") {
        StationClass::Remote
    } else {
        StationClass::International
    }
}

/// How many stations of a list belong to each class.
#[derive(Clone, Copy, Debug, PartialEq, Eq, Structural)]
pub struct StationCounts {
    pub core: usize,
    pub remote: usize,
    pub international: usize,
}

/// Counts the stations of each class among `names`.
pub fn count_stations(names: &Vec<String>) -> (counts: StationCounts)
    ensures
        counts.core == count_of(names.deep_view(), StationClass::Core),
        counts.remote == count_of(names.deep_view(), StationClass::Remote),
        counts.international == count_of(names.deep_view(), StationClass::International),
        counts.core + counts.remote + counts.international == names.len(),
{
    let ghost all = names.deep_view();
    let mut counts = StationCounts { core: 0, remote: 0, international: 0 };
    let mut i: usize = 0;
    while i < names.len()
        invariant
            i <= names.len(),
            all == names.deep_view(),
            counts.core == count_of(all.take(i as int), StationClass::Core),
            counts.remote == count_of(all.take(i as int), StationClass::Remote),
            counts.international == count_of(all.take(i as int), StationClass::International),
            counts.core + counts.remote + counts.international == i,
        decreases names.len() - i,
    {
        proof {
            let after = all.take(i + 1);
            assert(after.drop_last() == all.take(i as int));
        }
        match classify(names[i].as_str()) {
            StationClass::Core => {
                counts.core += 1;
            },
            StationClass::Remote => {
                counts.remote += 1;
            },
            StationClass::International => {
                counts.international += 1;
            },
        }
        i += 1;
    }
    assert(all.take(i as int) == all);
    counts
}

} // verus!
