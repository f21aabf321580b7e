//! Counts over the footprints of a board: by copper side and by flag.

use vstd::prelude::*;
use vstd::string::StringExecFns;

verus! {

/// How many of `layers` are named `name`.
pub open spec fn count_named(layers: Seq<String>, name: Seq<char>) -> nat
    decreases layers.len(),
{
    if layers.len() == 0 {
        0
    } else {
        count_named(layers.drop_last(), name) + if layers.last()@ == name {
            1nat
        } else {
            0nat
        }
    }
}

/// The flags of one footprint: excluded from the bill of materials, not
/// populated, locked.
pub struct ComponentFlagSet {
    pub exclude_from_bom: bool,
    pub do_not_populate: bool,
    pub locked: bool,
}

/// How many of `flags` have the flag that `pick` selects set.
pub open spec fn count_flag(flags: Seq<ComponentFlagSet>, pick: int) -> nat
    decreases flags.len(),
{
    if flags.len() == 0 {
        0
    } else {
        let f = flags.last();
        let set = if pick == 0 {
            f.exclude_from_bom
        } else if pick == 1 {
            f.do_not_populate
        } else {
            f.locked
        };
        count_flag(flags.drop_last(), pick) + if set {
            1nat
        } else {
            0nat
        }
    }
}

proof fn lemma_count_named_le(layers: Seq<String>, name: Seq<char>)
    ensures
        count_named(layers, name) <= layers.len(),
    decreases layers.len(),
{
    if layers.len() > 0 {
        lemma_count_named_le(layers.drop_last(), name);
    }
}

proof fn lemma_count_flag_le(flags: Seq<ComponentFlagSet>, pick: int)
    ensures
        count_flag(flags, pick) <= flags.len(),
    decreases flags.len(),
{
    if flags.len() > 0 {
        lemma_count_flag_le(flags.drop_last(), pick);
    }
}

/// Counts over the footprints of a board.
#[derive(Debug, PartialEq)]
pub struct PcbStatistics {
    pub total_components: usize,
    pub front_components: usize,
    pub back_components: usize,
    pub other_layer_components: usize,
    pub mounting_holes: usize,
    pub dnp_components: usize,
    pub exclude_bom_components: usize,
    pub locked_components: usize,
}

impl PcbStatistics {
    /// Counts the components by the layer they sit on (front copper, back
    /// copper, any other) and by flag.
    pub fn tally(
        layers: &Vec<String>,
        flags: &Vec<ComponentFlagSet>,
        mounting_holes: usize,
        total_components: usize,
    ) -> (r: Self)
        ensures
            r.total_components == total_components,
            r.mounting_holes == mounting_holes,
            r.front_components == count_named(layers@, "F.Cu"@),
            r.back_components == count_named(layers@, "B.Cu"@),
            r.other_layer_components == layers@.len() - count_named(layers@, "F.Cu"@) - count_named(
                layers@,
                "B.Cu"@,
            ),
            r.exclude_bom_components == count_flag(flags@, 0),
            r.dnp_components == count_flag(flags@, 1),
            r.locked_components == count_flag(flags@, 2),
    {
        let front_name = String::from_str("F.Cu");
        let back_name = String::from_str("B.Cu");
        proof {
            reveal_strlit("F.Cu");
            reveal_strlit("B.Cu");
            assert(front_name@[0] != back_name@[0]);
        }
        let mut front: usize = 0;
        let mut back: usize = 0;
        let mut other: usize = 0;
        let mut i: usize = 0;
        while i < layers.len()
            invariant
                i <= layers@.len(),
                front_name@ == "F.Cu"@,
                back_name@ == "B.Cu"@,
                front_name@ != back_name@,
                front == count_named(layers@.take(i as int), "F.Cu"@),
                back == count_named(layers@.take(i as int), "B.Cu"@),
                front + back + other == i,
            decreases layers@.len() - i,
        {
            proof {
                assert(layers@.take(i + 1).drop_last() =~= layers@.take(i as int));
                lemma_count_named_le(layers@.take(i as int), "F.Cu"@);
            }
            if layers[i] == front_name {
                front = front + 1;
            } else if layers[i] == back_name {
                back = back + 1;
            } else {
                other = other + 1;
            }
            i = i + 1;
        }
        let mut bom: usize = 0;
        let mut dnp: usize = 0;
        let mut locked: usize = 0;
        let mut j: usize = 0;
        while j < flags.len()
            invariant
                j <= flags@.len(),
                bom == count_flag(flags@.take(j as int), 0),
                dnp == count_flag(flags@.take(j as int), 1),
                locked == count_flag(flags@.take(j as int), 2),
            decreases flags@.len() - j,
        {
            proof {
                assert(flags@.take(j + 1).drop_last() =~= flags@.take(j as int));
                lemma_count_flag_le(flags@.take(j as int), 0);
                lemma_count_flag_le(flags@.take(j as int), 1);
                lemma_count_flag_le(flags@.take(j as int), 2);
            }
            let f = &flags[j];
            if f.exclude_from_bom {
                bom = bom + 1;
            }
            if f.do_not_populate {
                dnp = dnp + 1;
            }
            if f.locked {
                locked = locked + 1;
            }
            j = j + 1;
        }
        proof {
            assert(layers@.take(i as int) =~= layers@);
            assert(flags@.take(j as int) =~= flags@);
        }
        PcbStatistics {
            total_components,
            front_components: front,
            back_components: back,
            other_layer_components: other,
            mounting_holes,
            dnp_components: dnp,
            exclude_bom_components: bom,
            locked_components: locked,
        }
    }
}

} // verus!
