//! The body of a roper.

use crate::creatures::creature_builder::{
    has_shape, lemma_shape_grows, Morphology, MorphologyBuilder,
};
use vstd::prelude::*;

verus! {

/// The names of the appendages of a roper, in the order they are added.
pub open spec fn roper_names() -> Seq<Seq<char>> {
    seq![
        "Central Body"@,
        "Mouth"@,
        "Eye"@,
        "Tentacle 1"@,
        "Tentacle 2"@,
        "Tentacle 3"@,
        "Tentacle 4"@,
        "Tentacle 5"@,
        "Tentacle 6"@,
        "Cilia"@,
    ]
}

/// Every appendage of a roper but its body hangs from the body.
pub open spec fn roper_parents() -> Seq<Option<usize>> {
    seq![
        None,
        Some(0usize),
        Some(0usize),
        Some(0usize),
        Some(0usize),
        Some(0usize),
        Some(0usize),
        Some(0usize),
        Some(0usize),
        Some(0usize),
    ]
}

/// No two appendages of a roper bear one name.
pub proof fn lemma_roper_names_differ()
    ensures
        forall|i: int, j: int|
            0 <= i < j < 10 ==> #[trigger] roper_names()[i] != #[trigger] roper_names()[j],
{
    reveal_strlit("Central Body");
    reveal_strlit("Mouth");
    reveal_strlit("Eye");
    reveal_strlit("Tentacle 1");
    reveal_strlit("Tentacle 2");
    reveal_strlit("Tentacle 3");
    reveal_strlit("Tentacle 4");
    reveal_strlit("Tentacle 5");
    reveal_strlit("Tentacle 6");
    reveal_strlit("Cilia");
    let names = roper_names();
    assert(names[0].len() == 12 && names[2].len() == 3);
    assert(names[1].len() == 5 && names[1][0] == 'M');
    assert(names[9].len() == 5 && names[9][0] == 'C');
    assert(names[3].len() == 10 && names[3][9] == '1');
    assert(names[4].len() == 10 && names[4][9] == '2');
    assert(names[5].len() == 10 && names[5][9] == '3');
    assert(names[6].len() == 10 && names[6][9] == '4');
    assert(names[7].len() == 10 && names[7][9] == '5');
    assert(names[8].len() == 10 && names[8][9] == '6');
}

/// The body of a roper: a central body with a mouth, an eye, six tentacles
/// and cilia, all in full health.
pub fn roper_corpus() -> (r: Morphology)
    ensures
        has_shape(r@, roper_names(), roper_parents()),
        r.wf(),
{
    let mut roper = MorphologyBuilder::new("Central Body");
    assert(seq!["Central Body"@] =~= roper_names().take(1));
    assert(seq![None::<usize>] =~= roper_parents().take(1));
    proof {
        lemma_roper_names_differ();
    }
    // The roper's teeth are stone-like and can crush bone with ease.
    let ghost before = roper.so_far();
    roper.add_appendage("Central Body", "Mouth");
    proof {
        lemma_shape_grows(before, roper.so_far(), roper_names(), roper_parents(), 1, 0);
    }
    let ghost before = roper.so_far();
    roper.add_appendage("Central Body", "Eye");
    proof {
        lemma_shape_grows(before, roper.so_far(), roper_names(), roper_parents(), 2, 0);
    }
    // Multiple long, flexible tentacles for grasping prey.
    let ghost before = roper.so_far();
    roper.add_appendage("Central Body", "Tentacle 1");
    proof {
        lemma_shape_grows(before, roper.so_far(), roper_names(), roper_parents(), 3, 0);
    }
    let ghost before = roper.so_far();
    roper.add_appendage("Central Body", "Tentacle 2");
    proof {
        lemma_shape_grows(before, roper.so_far(), roper_names(), roper_parents(), 4, 0);
    }
    let ghost before = roper.so_far();
    roper.add_appendage("Central Body", "Tentacle 3");
    proof {
        lemma_shape_grows(before, roper.so_far(), roper_names(), roper_parents(), 5, 0);
    }
    let ghost before = roper.so_far();
    roper.add_appendage("Central Body", "Tentacle 4");
    proof {
        lemma_shape_grows(before, roper.so_far(), roper_names(), roper_parents(), 6, 0);
    }
    let ghost before = roper.so_far();
    roper.add_appendage("Central Body", "Tentacle 5");
    proof {
        lemma_shape_grows(before, roper.so_far(), roper_names(), roper_parents(), 7, 0);
    }
    let ghost before = roper.so_far();
    roper.add_appendage("Central Body", "Tentacle 6");
    proof {
        lemma_shape_grows(before, roper.so_far(), roper_names(), roper_parents(), 8, 0);
    }
    // Tiny hair-like structures for movement at the base of the body.
    let ghost before = roper.so_far();
    roper.add_appendage("Central Body", "Cilia");
    proof {
        lemma_shape_grows(before, roper.so_far(), roper_names(), roper_parents(), 9, 0);
        assert(roper_names().take(10) =~= roper_names());
        assert(roper_parents().take(10) =~= roper_parents());
    }

    roper.build()
}

} // verus!
