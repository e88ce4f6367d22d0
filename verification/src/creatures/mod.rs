//! Creatures and their bodies.

use crate::creatures::creature_builder::{health_sum, Morphology};
use vstd::prelude::*;

pub mod components;
pub mod creature_builder;
pub mod morphologies;
pub mod systems;


verus! {

/// Represents a character with a name and body structure.
/// A creature is an entity with a pre-defined set of components.
#[derive(Debug)]
pub struct Creature {
    pub name: String,
    pub corpus: Morphology,
}

impl Clone for Creature {
    fn clone(&self) -> (r: Self)
        ensures
            r.name == self.name,
            r.corpus@ == self.corpus@,
    {
        Creature { name: self.name.clone(), corpus: self.corpus.clone() }
    }
}

impl Creature {
    /// The health of the creature: the average of the healths of its
    /// appendages, rounded down.
    pub fn get_character_health(&self) -> (r: u8)
        requires
            self.corpus.total_health() >= 0,
        ensures
            self.corpus@.len() > 0 ==> r == self.corpus.total_health() / (self.corpus@.len() as int),
            self.corpus@.len() == 1 ==> r == self.corpus@[0].health(),
            self.corpus@.len() == 0 ==> r == 0,
            r <= 100,
    {
        let (appendages, total_health) = Self::calculate_corpus_health(&self.corpus);
        proof {
            if appendages > 0 {
            assert(total_health / (appendages as i128) <= 100) by (nonlinear_arith)
                requires
                    0 <= total_health <= 100 * appendages,
                    appendages > 0,
            ;
            assert(0 <= total_health / (appendages as i128)) by (nonlinear_arith)
                requires
                    0 <= total_health,
                    appendages > 0,
            ;
            }
            if self.corpus@.len() == 1 {
                assert(health_sum(self.corpus@, 1) == health_sum(self.corpus@, 0)
                    + self.corpus@[0].health());
            }
        }
        let average_health: i128 = if appendages > 0 {
            total_health / (appendages as i128)
        } else {
            0
        };
        average_health as u8
    }

    /// The health of the creature as `get_character_health` gives it, or
    /// nothing where the healths of its appendages sum to less than zero.
    pub fn checked_character_health(&self) -> (r: Option<u8>)
        ensures
            r is Some <==> self.corpus.total_health() >= 0,
            r is Some && self.corpus@.len() > 0 ==> r->0 == self.corpus.total_health() / (
            self.corpus@.len() as int),
            r is Some && self.corpus@.len() == 0 ==> r->0 == 0,
    {
        let (_, total_health) = Self::calculate_corpus_health(&self.corpus);
        if total_health >= 0 {
            Some(self.get_character_health())
        } else {
            None
        }
    }

    /// The number of appendages of `corpus` and the sum of their healths.
    pub fn calculate_corpus_health(corpus: &Morphology) -> (r: (usize, i128))
        ensures
            r.0 == corpus@.len(),
            r.1 == corpus.total_health(),
            -540 * r.0 <= r.1 <= 100 * r.0,
    {
        let n = corpus.len();
        let mut total_health: i128 = 0;
        let mut i: usize = 0;
        while i < n
            invariant
                i <= n,
                n == corpus@.len(),
                total_health == health_sum(corpus@, i as int),
                -540 * i <= total_health <= 100 * i,
            decreases n - i,
        {
            let health = match corpus.get(i) {
                Some(appendage) => appendage.get_health(),
                None => 0,
            };
            total_health = total_health + health as i128;
            i += 1;
        }
        (n, total_health)
    }
}

} // verus!
