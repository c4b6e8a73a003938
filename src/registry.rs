use vstd::prelude::*;
use crate::contract::OptionContract;
use crate::error::CustomError;

verus! {

/// The store of option contracts, addressed by the id that `insert` hands out.
/// Records are never removed: a settled contract stays as its history.
pub struct Registry {
    pub contracts: Vec<OptionContract>,
}

impl Registry {
    pub fn new() -> (r: Registry)
        ensures
            r.contracts@ == Seq::<OptionContract>::empty(),
    {
        Registry { contracts: Vec::new() }
    }

    /// Stores `c` under a fresh id and returns it; what was stored stays.
    pub fn insert(&mut self, c: OptionContract) -> (r: usize)
        requires
            old(self).contracts@.len() < usize::MAX,
        ensures
            r == old(self).contracts@.len(),
            final(self).contracts@ == old(self).contracts@.push(c),
    {
        let id = self.contracts.len();
        self.contracts.push(c);
        id
    }

    /// The contract under `id`; `NotFound` when there is none.
    pub fn get(&self, id: usize) -> (r: Result<OptionContract, CustomError>)
        ensures
            id < self.contracts@.len() ==> r == Ok::<OptionContract, CustomError>(
                self.contracts@[id as int],
            ),
            id >= self.contracts@.len() ==> r == Err::<OptionContract, CustomError>(
                CustomError::NotFound,
            ),
    {
        if id < self.contracts.len() {
            Ok(self.contracts[id])
        } else {
            Err(CustomError::NotFound)
        }
    }

    /// Replaces the record under `id` with `c`, as settlement does when it marks
    /// the contract exercised; `NotFound` when there is none, and then nothing
    /// changes.
    pub fn update(&mut self, id: usize, c: OptionContract) -> (r: Result<(), CustomError>)
        ensures
            id < old(self).contracts@.len() ==> r is Ok && final(self).contracts@
                == old(self).contracts@.update(id as int, c),
            id >= old(self).contracts@.len() ==> r == Err::<(), CustomError>(
                CustomError::NotFound,
            ) && final(self).contracts@ == old(self).contracts@,
    {
        if id < self.contracts.len() {
            self.contracts.set(id, c);
            Ok(())
        } else {
            Err(CustomError::NotFound)
        }
    }

    pub fn len(&self) -> (r: usize)
        ensures
            r == self.contracts@.len(),
    {
        self.contracts.len()
    }
}

} // verus!
