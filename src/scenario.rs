use vstd::prelude::*;

verus! {

/// One client of a load test, told apart from the others by its number.
#[derive(Clone, Copy, Debug)]
pub struct BasicScenario {
    pub id: usize,
}

impl BasicScenario {
    /// The scenario numbered `id`.
    pub fn new(id: usize) -> (r: BasicScenario)
        ensures
            r.id == id,
    {
        BasicScenario { id }
    }
}

} // verus!
