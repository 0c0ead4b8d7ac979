use crate::moves::{BaseMove, Move};
use vstd::prelude::*;

verus! {

/// Every move of the game, looked up by its position.
pub struct MoveManager {
    moves: Vec<BaseMove>,
}

impl View for MoveManager {
    type V = Seq<BaseMove>;

    /// The moves, by position.
    closed spec fn view(&self) -> Seq<BaseMove> {
        self.moves@
    }
}

impl MoveManager {
    /// A manager holding `moves`, each found at its position.
    pub fn new(moves: Vec<BaseMove>) -> (manager: Self)
        ensures
            manager@ == moves@,
    {
        MoveManager { moves }
    }

    /// Number of moves held.
    pub fn len(&self) -> (n: usize)
        ensures
            n == self@.len(),
    {
        self.moves.len()
    }

    /// The move at position `id`.
    pub fn get_base(&self, id: usize) -> (base: &BaseMove)
        requires
            id < self@.len(),
        ensures
            *base == self@[id as int],
    {
        &self.moves[id]
    }

    /// A fresh, fully charged instance of the move at position `id`.
    pub fn spawn<'a>(&'a self, id: usize) -> (mov: Move<'a>)
        requires
            id < self@.len(),
        ensures
            mov.is_fresh_from(self@[id as int]),
    {
        let base = self.get_base(id);
        Move::default_from_base(base)
    }
}

} // verus!
