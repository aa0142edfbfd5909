//! The metadata poller's decisions: when a fetched snapshot is a track
//! change worth announcing, and when the next poll is due. The fetches
//! themselves, the art download and the sleep between wakes happen
//! outside; every decision stands here.

use vstd::prelude::*;
use crate::metadata::{TrackMetadata, SongUpdate};
use crate::channel::{try_send, SendOutcome};

verus! {

/// Whether a snapshot bearing `title` is a track change against the
/// previously observed title: the very first snapshot always is, a
/// later one exactly when the title differs. Listener-count or artist
/// churn alone is no change.
pub open spec fn spec_is_change(previous: Option<Seq<char>>, title: Seq<char>) -> bool {
    match previous {
        None => true,
        Some(p) => p != title,
    }
}

/// The epoch second after which the next poll is due: the current
/// track should have ended by `started + duration`, corrected by the
/// clock offset. An unknown duration counts as one second, so an
/// indefinite source is re-checked immediately and often.
pub open spec fn spec_next_check(started: int, duration: Option<u64>, offset: int) -> int {
    started + (match duration {
        Some(d) => d as int,
        None => 1,
    }) - offset
}

/// The previously observed title as a sequence of characters.
pub open spec fn spec_title_view(previous: Option<String>) -> Option<Seq<char>> {
    match previous {
        None => None,
        Some(p) => Some(p@),
    }
}

/// The metadata poller's state. `previous_title` of `None` is the
/// startup state, before the first snapshot has been observed.
pub struct Poller {
    /// The clock offset estimated at startup, in seconds.
    pub offset: i64,
    /// The title of the last observed snapshot, absent at startup.
    pub previous_title: Option<String>,
    /// The epoch second after which the next poll is due.
    pub next_check: i64,
}

impl Poller {
    /// A poller that has estimated `offset` and observed nothing yet;
    /// its first poll is immediately due.
    pub fn new(offset: i64) -> (r: Poller)
        ensures
            r.offset == offset,
            r.previous_title is None,
            r.next_check == i64::MIN,
    {
        Poller { offset, previous_title: None, next_check: i64::MIN }
    }

    /// Whether a poll is due at local time `now`.
    pub fn due(&self, now: i64) -> (r: bool)
        ensures
            r == (now > self.next_check),
    {
        now > self.next_check
    }

    /// Take in one fetched snapshot and decide whether it is a track
    /// change to announce. The previous-title bookkeeping is refreshed
    /// either way; the next-check target is recomputed only on a
    /// change, so an unchanged snapshot leaves the poll immediately
    /// due again.
    pub fn handle_snapshot(&mut self, meta: &TrackMetadata) -> (emit: bool)
        requires
            i64::MIN <= spec_next_check(
                meta.started as int,
                meta.duration,
                old(self).offset as int,
            ) <= i64::MAX,
        ensures
            emit == spec_is_change(spec_title_view(old(self).previous_title), meta.title@),
            final(self).previous_title matches Some(p) && p@ == meta.title@,
            final(self).offset == old(self).offset,
            emit ==> final(self).next_check == spec_next_check(
                meta.started as int,
                meta.duration,
                old(self).offset as int,
            ),
            !emit ==> final(self).next_check == old(self).next_check,
    {
        let changed = match &self.previous_title {
            None => true,
            Some(p) => !(*p == meta.title),
        };
        if changed {
            let dur: i128 = match meta.duration {
                Some(d) => d as i128,
                None => 1,
            };
            let wide: i128 = meta.started as i128 + dur - self.offset as i128;
            self.next_check = wide as i64;
        }
        self.previous_title = Some(meta.title.clone());
        changed
    }
}

/// Hand a detected track change to the consumer without blocking.
/// Which outcome comes back depends on the receiving thread; the
/// caller decides with [`crate::channel::should_stop`] whether the
/// loop is over.
pub fn emit_update(
    sender: &crossbeam::channel::Sender<SongUpdate>,
    metadata: TrackMetadata,
    cover: Option<Vec<u8>>,
) -> (r: SendOutcome) {
    try_send(sender, SongUpdate { metadata, cover })
}

/// The titles announced over a run of polls that observed `titles` in
/// order, starting from a previously observed `previous`: exactly the
/// change points, in arrival order. [`Poller::handle_snapshot`]
/// realizes one step of this model.
pub open spec fn spec_announced(previous: Option<Seq<char>>, titles: Seq<Seq<char>>) -> Seq<
    Seq<char>,
>
    decreases titles.len(),
{
    if titles.len() == 0 {
        Seq::empty()
    } else {
        let rest = spec_announced(Some(titles.first()), titles.drop_first());
        if spec_is_change(previous, titles.first()) {
            seq![titles.first()] + rest
        } else {
            rest
        }
    }
}

/// The first snapshot is always announced, exactly once, whatever
/// follows: at startup there is no previous title to equal.
pub proof fn lemma_first_snapshot_announced(title: Seq<char>, rest: Seq<Seq<char>>)
    ensures
        spec_is_change(None, title),
        spec_announced(None, seq![title] + rest) == seq![title] + spec_announced(
            Some(title),
            rest,
        ),
{
    let titles = seq![title] + rest;
    assert(titles.first() == title);
    assert(titles.drop_first() =~= rest);
}

/// A snapshot repeating the observed title is never announced again:
/// a run that observes the same title twice in a row announces exactly
/// what the run without the repetition announces.
pub proof fn lemma_unchanged_no_second_update(
    previous: Option<Seq<char>>,
    title: Seq<char>,
    rest: Seq<Seq<char>>,
)
    ensures
        spec_announced(previous, seq![title, title] + rest) == spec_announced(
            previous,
            seq![title] + rest,
        ),
{
    let twice = seq![title, title] + rest;
    let once = seq![title] + rest;
    assert(twice.first() == title);
    assert(once.first() == title);
    assert(twice.drop_first() =~= once);
    assert(once.drop_first() =~= rest);
    assert(!spec_is_change(Some(title), title));
    assert(spec_announced(Some(title), once) == spec_announced(Some(title), rest));
}

/// A snapshot whose title differs from the observed one is always
/// announced, exactly once, at its place in arrival order.
pub proof fn lemma_changed_title_announced(
    previous: Seq<char>,
    title: Seq<char>,
    rest: Seq<Seq<char>>,
)
    requires
        title != previous,
    ensures
        spec_announced(Some(previous), seq![title] + rest) == seq![title] + spec_announced(
            Some(title),
            rest,
        ),
{
    let titles = seq![title] + rest;
    assert(titles.first() == title);
    assert(titles.drop_first() =~= rest);
}

} // verus!
