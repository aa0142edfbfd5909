//! Progress computation on the consumer side: how far into the current
//! track playback is, derived from the track's start epoch, its
//! duration, the stored clock offset, and the local wall clock.

use vstd::prelude::*;
use crate::metadata::TrackMetadata;

verus! {

/// Seconds elapsed since the track started, as the server clock would
/// measure it: local `now` corrected by the clock offset, minus the
/// start epoch.
pub open spec fn spec_elapsed_seconds(now: int, started: int, offset: int) -> int {
    now - started - offset
}

/// Elapsed playback time as an exact ratio of the track's duration.
/// The numerator may exceed the denominator briefly (metadata refresh
/// lag) or be negative briefly (offset imprecision); consumers clamp
/// for display.
#[derive(Clone, Copy, Debug, PartialEq, Eq, Structural)]
pub struct ElapsedFraction {
    /// Seconds elapsed since the track started, server-relative.
    pub elapsed: i64,
    /// The track's duration in seconds.
    pub duration: u64,
}

/// The elapsed fraction for a track at local time `now` under clock
/// offset `offset`: defined exactly when the track has a known
/// duration, and undefined (suppressed) for an indefinite/live source.
pub fn elapsed_fraction(meta: &TrackMetadata, offset: i64, now: i64) -> (r: Option<
    ElapsedFraction,
>)
    requires
        i64::MIN <= spec_elapsed_seconds(now as int, meta.started as int, offset as int)
            <= i64::MAX,
    ensures
        r is Some <==> meta.duration is Some,
        match meta.duration {
            Some(d) => r == Some(
                ElapsedFraction {
                    elapsed: spec_elapsed_seconds(
                        now as int,
                        meta.started as int,
                        offset as int,
                    ) as i64,
                    duration: d,
                },
            ),
            None => r is None,
        },
{
    match meta.duration {
        Some(d) => {
            let wide: i128 = now as i128 - meta.started as i128 - offset as i128;
            Some(ElapsedFraction { elapsed: wide as i64, duration: d })
        },
        None => None,
    }
}

/// While the displayed metadata and the offset stand still, elapsed
/// time never decreases as the wall clock advances.
pub proof fn lemma_elapsed_monotonic(started: int, offset: int, now1: int, now2: int)
    requires
        now1 <= now2,
    ensures
        spec_elapsed_seconds(now1, started, offset) <= spec_elapsed_seconds(
            now2,
            started,
            offset,
        ),
{
}

} // verus!
