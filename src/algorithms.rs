use crate::algorithm::{Algorithm, AlgorithmInput};
use crate::chess_like::Move;
use vstd::prelude::*;

verus! {

/// A move-source that always resigns.
#[derive(Copy, Clone, Debug, PartialEq, Eq, Structural)]
pub struct RandomAlgorithm {}

impl RandomAlgorithm {
    pub fn new() -> (r: RandomAlgorithm) {
        RandomAlgorithm {  }
    }
}

impl<BoardType> Algorithm<BoardType> for RandomAlgorithm {
    fn next_move(&self, input: AlgorithmInput<BoardType>) -> (r: Result<Move, String>)
        ensures
            r matches Err(e) && e@ == "I resign because there are no good moves"@,
    {
        Err(String::from_str("I resign because there are no good moves"))
    }
}

/// A move-source that always resigns.
#[derive(Copy, Clone, Debug, PartialEq, Eq, Structural)]
pub struct DumbAlgorithm {}

impl DumbAlgorithm {
    pub fn new() -> (r: DumbAlgorithm) {
        DumbAlgorithm {  }
    }
}

impl<BoardType> Algorithm<BoardType> for DumbAlgorithm {
    fn next_move(&self, input: AlgorithmInput<BoardType>) -> (r: Result<Move, String>)
        ensures
            r matches Err(e) && e@ == "I resign because im dumb"@,
    {
        Err(String::from_str("I resign because im dumb"))
    }
}

} // verus!
