//! Choosing the worker of a pool that a request goes to.
use vstd::prelude::*;

use rand::Rng;

verus! {

/// A random index below `len` (`rand::Rng::gen_range` on `0..len` with the
/// thread's generator).
///
/// Stated of `rand`: the index is below `len`. Which index comes out is
/// left open: it is random.
#[verifier::external_body]
fn random_index(len: usize) -> (r: usize)
    requires
        len > 0,
    ensures
        r < len,
{
    rand::thread_rng().gen_range(0..len)
}

/// The less loaded of two workers: the first when its load is lower,
/// else the second.
pub open spec fn less_loaded(loads: Seq<usize>, first: int, second: int) -> int {
    if loads[first] < loads[second] {
        first
    } else {
        second
    }
}

/// The second worker that two draws stand for: the second draw, taken among
/// the workers other than the first one.
pub open spec fn second_of_draws(first: int, drawn: int) -> int {
    if drawn < first {
        drawn
    } else {
        drawn + 1
    }
}

/// The worker that two draws choose: the first draw picks a worker among
/// all of them, the second picks one among the others, and the less loaded
/// of the two is chosen.
pub fn pick_of_draws(loads: &Vec<usize>, first: usize, drawn: usize) -> (r: usize)
    requires
        loads.len() >= 2,
        first < loads.len(),
        drawn < loads.len() - 1,
    ensures
        r == less_loaded(loads@, first as int, second_of_draws(first as int, drawn as int)),
        second_of_draws(first as int, drawn as int) != first,
        r < loads.len(),
{
    let second = if drawn < first {
        drawn
    } else {
        drawn + 1
    };
    if loads[first] < loads[second] {
        first
    } else {
        second
    }
}

/// The power of two choices: two different workers are drawn at random,
/// and the less loaded of them is chosen. `loads` holds the number of
/// pending requests of each worker. Whatever was drawn, the choice is the
/// less loaded of some two different workers; which two is left to the
/// draws, and `pick_of_draws` states the choice for given draws.
pub fn choice_of_two(loads: &Vec<usize>) -> (r: usize)
    requires
        loads.len() >= 2,
    ensures
        exists|first: int, second: int|
            0 <= first < loads.len() && 0 <= second < loads.len() && first != second && r
                == less_loaded(loads@, first, second),
{
    let len = loads.len();
    let first = random_index(len);
    let drawn = random_index(len - 1);
    let choice = pick_of_draws(loads, first, drawn);
    assert(choice == less_loaded(
        loads@,
        first as int,
        second_of_draws(first as int, drawn as int),
    ));
    choice
}

} // verus!
