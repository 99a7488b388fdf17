//! Choosing the music track to play.
use rand::Rng;
use vstd::prelude::*;

verus! {

/// Calls `rand::Rng::random_range(0..n)` on the thread-local generator of
/// `rand::rng()`. Its documentation promises a value in the range and a panic
/// on an empty range, so the contract asks for `n > 0` and states only that
/// the result is below `n`; which value comes is chance.
#[verifier::external_body]
fn random_below(n: usize) -> (r: usize)
    requires
        n > 0,
    ensures
        r < n,
{
    let mut rng = rand::rng();
    rng.random_range(0..n)
}

/// The track to start when no music is playing: none until the music folder
/// (of `loaded_tracks` tracks) has loaded, then a random one of its tracks.
/// An empty folder has no track to pick from.
pub fn choose_track(loaded_tracks: Option<usize>) -> (track: Option<usize>)
    requires
        loaded_tracks != Some(0usize),
    ensures
        loaded_tracks is None ==> track is None,
        loaded_tracks matches Some(n) ==> (track matches Some(t) && t < n),
{
    match loaded_tracks {
        None => None,
        Some(n) => Some(random_below(n)),
    }
}

} // verus!
