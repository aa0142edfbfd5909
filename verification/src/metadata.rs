//! The metadata snapshot: what the metadata endpoint says is playing
//! right now, and the one-shot update event handed to the consumer.

use vstd::prelude::*;
use vstd::string::StringExecFns;

verus! {

/// The character for one decimal digit.
pub open spec fn spec_digit_char(d: int) -> char {
    if d == 0 {
        '0'
    } else if d == 1 {
        '1'
    } else if d == 2 {
        '2'
    } else if d == 3 {
        '3'
    } else if d == 4 {
        '4'
    } else if d == 5 {
        '5'
    } else if d == 6 {
        '6'
    } else if d == 7 {
        '7'
    } else if d == 8 {
        '8'
    } else {
        '9'
    }
}

/// The decimal rendering of `n`, most significant digit first, with
/// no leading zero except for `n == 0` itself.
pub open spec fn spec_decimal(n: nat) -> Seq<char>
    decreases n,
{
    if n < 10 {
        seq![spec_digit_char(n as int)]
    } else {
        spec_decimal(n / 10) + seq![spec_digit_char((n % 10) as int)]
    }
}

/// The digit characters for a run of digits collected least
/// significant first, rendered most significant first.
pub open spec fn spec_digits_reversed(ds: Seq<u64>) -> Seq<char>
    decreases ds.len(),
{
    if ds.len() == 0 {
        Seq::empty()
    } else {
        seq![spec_digit_char(ds.last() as int)] + spec_digits_reversed(ds.drop_last())
    }
}

/// Rendering least-significant-first digits peels the first collected
/// digit off the end of the output.
proof fn lemma_digits_reversed_first(ds: Seq<u64>)
    requires
        ds.len() > 0,
    ensures
        spec_digits_reversed(ds) == spec_digits_reversed(ds.drop_first()) + seq![
            spec_digit_char(ds.first() as int),
        ],
    decreases ds.len(),
{
    if ds.len() == 1 {
        assert(ds.drop_first() =~= Seq::<u64>::empty());
        assert(ds.last() == ds.first());
        assert(spec_digits_reversed(ds) =~= spec_digits_reversed(ds.drop_first()) + seq![
            spec_digit_char(ds.first() as int),
        ]);
    } else {
        lemma_digits_reversed_first(ds.drop_last());
        assert(ds.drop_last().drop_first() =~= ds.drop_first().drop_last());
        assert(ds.drop_last().first() == ds.first());
        assert(ds.drop_first().last() == ds.last());
        assert(spec_digits_reversed(ds.drop_last()) == spec_digits_reversed(
            ds.drop_first().drop_last(),
        ) + seq![spec_digit_char(ds.first() as int)]);
        assert(spec_digits_reversed(ds) == seq![spec_digit_char(ds.last() as int)]
            + spec_digits_reversed(ds.drop_last()));
        assert(ds.drop_first().len() > 0);
        assert(spec_digits_reversed(ds.drop_first()) == seq![
            spec_digit_char(ds.last() as int),
        ] + spec_digits_reversed(ds.drop_first().drop_last()));
        assert(spec_digits_reversed(ds) =~= spec_digits_reversed(ds.drop_first()) + seq![
            spec_digit_char(ds.first() as int),
        ]);
    }
}

/// The string slice holding one decimal digit.
fn digit_str(d: u64) -> (r: &'static str)
    requires
        d < 10,
    ensures
        r@ == seq![spec_digit_char(d as int)],
{
    proof {
        reveal_strlit("0");
        reveal_strlit("1");
        reveal_strlit("2");
        reveal_strlit("3");
        reveal_strlit("4");
        reveal_strlit("5");
        reveal_strlit("6");
        reveal_strlit("7");
        reveal_strlit("8");
        reveal_strlit("9");
    }
    let r = match d {
        0 => "0",
        1 => "1",
        2 => "2",
        3 => "3",
        4 => "4",
        5 => "5",
        6 => "6",
        7 => "7",
        8 => "8",
        _ => "9",
    };
    proof {
        assert(r@ =~= seq![spec_digit_char(d as int)]);
    }
    r
}

/// Render `n` in decimal.
pub fn decimal_string(n: u64) -> (r: String)
    ensures
        r@ == spec_decimal(n as nat),
{
    let mut digits: Vec<u64> = Vec::new();
    let mut m: u64 = n;
    while m >= 10
        invariant
            spec_decimal(n as nat) =~= spec_decimal(m as nat) + spec_digits_reversed(digits@),
            forall|j: int| 0 <= j < digits@.len() ==> (#[trigger] digits@[j]) < 10,
        decreases m,
    {
        let ghost pre = digits@;
        digits.push(m % 10);
        proof {
            assert(digits@.last() == m % 10);
            assert(digits@.drop_last() =~= pre);
            assert(spec_decimal(m as nat) =~= spec_decimal((m / 10) as nat) + seq![
                spec_digit_char((m % 10) as int),
            ]);
        }
        m = m / 10;
    }
    let mut s = String::new();
    s.append(digit_str(m));
    let mut i: usize = digits.len();
    while i > 0
        invariant
            i <= digits.len(),
            m < 10,
            forall|j: int| 0 <= j < digits@.len() ==> (#[trigger] digits@[j]) < 10,
            s@ =~= seq![spec_digit_char(m as int)] + spec_digits_reversed(
                digits@.subrange(i as int, digits@.len() as int),
            ),
            spec_decimal(n as nat) =~= spec_decimal(m as nat) + spec_digits_reversed(digits@),
        decreases i,
    {
        i = i - 1;
        s.append(digit_str(digits[i]));
        proof {
            let sub = digits@.subrange(i as int, digits@.len() as int);
            assert(sub.len() > 0);
            assert(sub.first() == digits@[i as int]);
            assert(sub.drop_first() =~= digits@.subrange(i as int + 1, digits@.len() as int));
            lemma_digits_reversed_first(sub);
        }
    }
    proof {
        assert(digits@.subrange(0, digits@.len() as int) =~= digits@);
        assert(s@ =~= spec_decimal(n as nat));
    }
    s
}

/// One snapshot of what is playing. Immutable once constructed; a new
/// poll supersedes it wholesale. Identity for "has the track changed"
/// purposes is the title alone.
#[derive(Clone, Debug)]
pub struct TrackMetadata {
    /// Album name, when the feed knows one.
    pub album: Option<String>,
    /// Link to the album page.
    pub album_url: Option<String>,
    /// Cover-art reference: the name to fetch the art bytes under.
    pub albumcover: Option<String>,
    /// Performing artists, in feed order.
    pub artist: Option<Vec<String>>,
    /// Links to the artists' pages, in the same order.
    pub artist_url: Option<Vec<String>>,
    /// Track length in seconds; absent for an indefinite/live source.
    pub duration: Option<u64>,
    /// Current listener count.
    pub listeners: usize,
    /// Feed-internal identifier of the song.
    pub song_nid: Option<String>,
    /// Link to the song page.
    pub song_url: Option<String>,
    /// Where the track came from.
    pub source: Option<String>,
    /// Server-clock epoch seconds at which the track started.
    pub started: i64,
    /// Track title; the track-change detector compares exactly this.
    pub title: String,
}

impl Default for TrackMetadata {
    /// The "nothing playing yet" snapshot shown before the first poll
    /// answers.
    fn default() -> (r: TrackMetadata)
        ensures
            r.album is None,
            r.album_url is None,
            r.albumcover is None,
            r.artist is None,
            r.artist_url is None,
            r.duration is None,
            r.listeners == 0,
            r.song_nid is None,
            r.song_url is None,
            r.source is None,
            r.started == 0,
            r.title@ == Seq::<char>::empty(),
    {
        TrackMetadata {
            album: None,
            album_url: None,
            albumcover: None,
            artist: None,
            artist_url: None,
            duration: None,
            listeners: 0,
            song_nid: None,
            song_url: None,
            source: None,
            started: 0,
            title: String::new(),
        }
    }
}

/// The log line describing a snapshot: the leading artist when one is
/// listed, the title, and the listener count.
pub open spec fn spec_info_line(m: TrackMetadata) -> Seq<char> {
    let tail = m.title@ + " with "@ + spec_decimal(m.listeners as nat) + " listeners"@;
    match m.artist {
        Some(a) => if a@.len() > 0 {
            a@[0]@ + " - "@ + tail
        } else {
            tail
        },
        None => tail,
    }
}

impl TrackMetadata {
    /// Describe this snapshot in one line, for the log.
    pub fn info_line(&self) -> (r: String)
        requires
            self.artist matches Some(a) ==> a@.len() > 0,
        ensures
            r@ == spec_info_line(*self),
    {
        let mut s = String::new();
        match &self.artist {
            Some(a) => {
                s.append(a[0].as_str());
                s.append(" - ");
            },
            None => {},
        }
        s.append(self.title.as_str());
        s.append(" with ");
        let count = decimal_string(self.listeners as u64);
        s.append(count.as_str());
        s.append(" listeners");
        proof {
            assert(s@ =~= spec_info_line(*self));
        }
        s
    }
}

/// A detected track change, handed to the consumer exactly once:
/// the new snapshot paired with its cover-art bytes, when the snapshot
/// references art and the fetch succeeded.
#[derive(Clone, Debug)]
pub struct SongUpdate {
    /// The snapshot that triggered the update.
    pub metadata: TrackMetadata,
    /// Raw cover-art bytes; absent when the snapshot references no art
    /// or the art fetch failed (a degraded update, not an error).
    pub cover: Option<Vec<u8>>,
}

} // verus!
