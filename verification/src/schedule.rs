//! The weather schedule generator.
//!
//! At session creation the game lays eleven fixed weather codes out in a
//! uniformly random order, draws a storm turn from the six mid-game
//! indices, and inserts one extra storm-tier code there. The storm turn
//! is kept as a separate field, since the inserted code is
//! indistinguishable from a naturally rainy turn by value alone.

use vstd::multiset::Multiset;
use vstd::prelude::*;

verus! {

/// One entry per turn in a finished schedule.
pub const SCHEDULE_LEN: usize = 12;

/// The eleven weather codes a session starts from, before the storm is
/// injected: three calm (0), three windy (1), three rainy (2) and two of
/// the heaviest tier (3). A code doubles as the water yield of its turn.
pub open spec fn base_weather_codes() -> Seq<u8> {
    seq![0u8, 0u8, 0u8, 1u8, 1u8, 1u8, 2u8, 2u8, 2u8, 3u8, 3u8]
}

/// The multiset of the twelve codes of a finished schedule: the base
/// codes plus the one storm-tier rainy code (2) the storm inserts.
pub open spec fn full_weather_multiset() -> Multiset<u8> {
    base_weather_codes().to_multiset().insert(2u8)
}

/// Relies on `rand::thread_rng` and `rand::Rng::gen_range` over `0..n`:
/// a sample from a nonempty integer range lies below the range's upper
/// bound. `gen_range` panics on an empty range, so `n` must be positive.
#[verifier::external_body]
pub(crate) fn rand_below(n: usize) -> (r: usize)
    requires
        n > 0,
    ensures
        r < n,
{
    rand::Rng::gen_range(&mut rand::thread_rng(), 0..n)
}

/// Lays the eleven base weather codes out in random order: each step
/// removes one remaining code, chosen uniformly, and appends it, so every
/// ordering of the base multiset is reachable.
pub fn generate_weathers() -> (w: Vec<u8>)
    ensures
        w@.len() == 11,
        w@.to_multiset() == base_weather_codes().to_multiset(),
        forall|i: int| 0 <= i < w@.len() ==> w@[i] <= 3,
{
    let mut raw: Vec<u8> = vec![0u8, 0u8, 0u8, 1u8, 1u8, 1u8, 2u8, 2u8, 2u8, 3u8, 3u8];
    let mut out: Vec<u8> = Vec::new();
    proof {
        broadcast use vstd::seq_lib::group_to_multiset_ensures;

        assert(raw@ =~= base_weather_codes());
        assert(out@.to_multiset().add(raw@.to_multiset()) =~= base_weather_codes().to_multiset());
    }
    while raw.len() > 0
        invariant
            out@.len() + raw@.len() == 11,
            out@.to_multiset().add(raw@.to_multiset()) == base_weather_codes().to_multiset(),
            forall|i: int| 0 <= i < out@.len() ==> out@[i] <= 3,
            forall|i: int| 0 <= i < raw@.len() ==> raw@[i] <= 3,
        decreases raw@.len(),
    {
        let ghost old_out = out@;
        let ghost old_raw = raw@;
        let i = rand_below(raw.len());
        let c = raw.remove(i);
        out.push(c);
        proof {
            broadcast use vstd::seq_lib::group_to_multiset_ensures;

            assert(old_raw.to_multiset().count(c) > 0);
            assert(out@.to_multiset().add(raw@.to_multiset()) =~= old_out.to_multiset().add(
                old_raw.to_multiset(),
            ));
        }
    }
    proof {
        broadcast use vstd::seq_lib::group_to_multiset_ensures;

        assert(raw@ =~= Seq::<u8>::empty());
        assert(out@.to_multiset().add(raw@.to_multiset()) =~= out@.to_multiset());
    }
    out
}

/// Draws the storm turn uniformly from the six mid-game indices 6..=11.
pub fn draw_storm_turn() -> (s: u8)
    ensures
        6 <= s <= 11,
{
    let r = rand_below(6);
    6 + (r as u8)
}

/// Builds a session's schedule: a random permutation of the eleven base
/// codes with one extra storm-tier rainy code (2) inserted at the storm
/// turn, which shifts the later entries right. The pair is the twelve
/// codes and the storm turn's index.
pub fn generate() -> (r: (Vec<u8>, u8))
    ensures
        r.0@.len() == SCHEDULE_LEN,
        r.0@.to_multiset() == full_weather_multiset(),
        6 <= r.1 <= 11,
        r.0@[r.1 as int] == 2,
        forall|i: int| 0 <= i < r.0@.len() ==> r.0@[i] <= 3,
{
    let mut w = generate_weathers();
    let storm = draw_storm_turn();
    let ghost before = w@;
    w.insert(storm as usize, 2);
    proof {
        broadcast use vstd::seq_lib::group_to_multiset_ensures;

        assert(w@.to_multiset() == before.to_multiset().insert(2u8));
        assert forall|i: int| 0 <= i < w@.len() implies w@[i] <= 3 by {
            if i < storm as int {
                assert(w@[i] == before[i]);
            } else if i > storm as int {
                assert(w@[i] == before[i - 1]);
            }
        }
    }
    (w, storm)
}

} // verus!
