//! The body of a humanoid.

use crate::creatures::creature_builder::{
    has_shape, lemma_shape_grows, Morphology, MorphologyBuilder,
};
use vstd::prelude::*;

verus! {

/// The names of the appendages of a humanoid, in the order they are added.
pub open spec fn humanoid_names() -> Seq<Seq<char>> {
    seq![
        "Torso"@,
        "Left Arm"@,
        "Right Arm"@,
        "Left Hand"@,
        "Right Hand"@,
        "Left Leg"@,
        "Right Leg"@,
        "Left Foot"@,
        "Right Foot"@,
        "Head"@,
    ]
}

/// The place of the appendage that each appendage of a humanoid hangs from.
pub open spec fn humanoid_parents() -> Seq<Option<usize>> {
    seq![
        None,
        Some(0usize),
        Some(0usize),
        Some(1usize),
        Some(2usize),
        Some(0usize),
        Some(0usize),
        Some(5usize),
        Some(6usize),
        Some(0usize),
    ]
}

/// No two appendages of a humanoid bear one name.
pub proof fn lemma_humanoid_names_differ()
    ensures
        forall|i: int, j: int|
            0 <= i < j < 10 ==> #[trigger] humanoid_names()[i] != #[trigger] humanoid_names()[j],
{
    reveal_strlit("Torso");
    reveal_strlit("Left Arm");
    reveal_strlit("Right Arm");
    reveal_strlit("Left Hand");
    reveal_strlit("Right Hand");
    reveal_strlit("Left Leg");
    reveal_strlit("Right Leg");
    reveal_strlit("Left Foot");
    reveal_strlit("Right Foot");
    reveal_strlit("Head");
    let names = humanoid_names();
    assert(names[0].len() == 5 && names[9].len() == 4);
    assert(names[1].len() == 8 && names[1][5] == 'A');
    assert(names[5].len() == 8 && names[5][5] == 'L');
    assert(names[2].len() == 9 && names[2][0] == 'R' && names[2][6] == 'A');
    assert(names[6].len() == 9 && names[6][0] == 'R' && names[6][6] == 'L');
    assert(names[3].len() == 9 && names[3][0] == 'L' && names[3][5] == 'H');
    assert(names[7].len() == 9 && names[7][0] == 'L' && names[7][5] == 'F');
    assert(names[4].len() == 10 && names[4][6] == 'H');
    assert(names[8].len() == 10 && names[8][6] == 'F');
}

/// The body of a humanoid: a torso with two arms, two legs and a head, a
/// hand on each arm and a foot on each leg, all in full health.
pub fn build_humanoid_morphology() -> (r: Morphology)
    ensures
        has_shape(r@, humanoid_names(), humanoid_parents()),
        r.wf(),
{
    // First you create the root appendage.
    let mut humanoid = MorphologyBuilder::new("Torso");
    assert(seq!["Torso"@] =~= humanoid_names().take(1));
    assert(seq![None::<usize>] =~= humanoid_parents().take(1));
    // Then you add appendages to it.
    proof {
        lemma_humanoid_names_differ();
    }
    let ghost before = humanoid.so_far();
    humanoid.add_appendage("Torso", "Left Arm");
    proof {
        lemma_shape_grows(
            before,
            humanoid.so_far(),
            humanoid_names(),
            humanoid_parents(),
            1,
            0,
        );
    }
    let ghost before = humanoid.so_far();
    humanoid.add_appendage("Torso", "Right Arm");
    proof {
        lemma_shape_grows(
            before,
            humanoid.so_far(),
            humanoid_names(),
            humanoid_parents(),
            2,
            0,
        );
    }
    let ghost before = humanoid.so_far();
    humanoid.add_appendage("Left Arm", "Left Hand");
    proof {
        lemma_shape_grows(
            before,
            humanoid.so_far(),
            humanoid_names(),
            humanoid_parents(),
            3,
            1,
        );
    }
    let ghost before = humanoid.so_far();
    humanoid.add_appendage("Right Arm", "Right Hand");
    proof {
        lemma_shape_grows(
            before,
            humanoid.so_far(),
            humanoid_names(),
            humanoid_parents(),
            4,
            2,
        );
    }
    let ghost before = humanoid.so_far();
    humanoid.add_appendage("Torso", "Left Leg");
    proof {
        lemma_shape_grows(
            before,
            humanoid.so_far(),
            humanoid_names(),
            humanoid_parents(),
            5,
            0,
        );
    }
    let ghost before = humanoid.so_far();
    humanoid.add_appendage("Torso", "Right Leg");
    proof {
        lemma_shape_grows(
            before,
            humanoid.so_far(),
            humanoid_names(),
            humanoid_parents(),
            6,
            0,
        );
    }
    let ghost before = humanoid.so_far();
    humanoid.add_appendage("Left Leg", "Left Foot");
    proof {
        lemma_shape_grows(
            before,
            humanoid.so_far(),
            humanoid_names(),
            humanoid_parents(),
            7,
            5,
        );
    }
    let ghost before = humanoid.so_far();
    humanoid.add_appendage("Right Leg", "Right Foot");
    proof {
        lemma_shape_grows(
            before,
            humanoid.so_far(),
            humanoid_names(),
            humanoid_parents(),
            8,
            6,
        );
    }
    let ghost before = humanoid.so_far();
    humanoid.add_appendage("Torso", "Head");
    proof {
        lemma_shape_grows(
            before,
            humanoid.so_far(),
            humanoid_names(),
            humanoid_parents(),
            9,
            0,
        );
        assert(humanoid_names().take(10) =~= humanoid_names());
        assert(humanoid_parents().take(10) =~= humanoid_parents());
    }

    humanoid.build()
}

} // verus!
