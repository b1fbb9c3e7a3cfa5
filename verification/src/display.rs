//! Display strings for the playing gauge: durations as `MM:SS` (with an
//! hour part when there is one) and the combined label that sums up the
//! current track and the queue.

use vstd::prelude::*;
use vstd::string::StringExecFns;

use crate::queue::Track;

verus! {

pub const SECONDS_PER_MINUTE: u64 = 60;

pub const SECONDS_PER_HOUR: u64 = 3600;

/// The character for one decimal digit.
pub open spec fn dec_digit(d: int) -> char {
    if d == 0 {
        '0'
    } else if d == 1 {
        '1'
    } else if d == 2 {
        '2'
    } else if d == 3 {
        '3'
    } else if d == 4 {
        '4'
    } else if d == 5 {
        '5'
    } else if d == 6 {
        '6'
    } else if d == 7 {
        '7'
    } else if d == 8 {
        '8'
    } else {
        '9'
    }
}

/// The decimal rendering of `n`, most significant digit first.
pub open spec fn dec_rep(n: int) -> Seq<char>
    decreases n,
{
    if n <= 9 {
        seq![dec_digit(n)]
    } else {
        dec_rep(n / 10).push(dec_digit(n % 10))
    }
}

/// The decimal rendering of `n`, zero-padded to at least two digits.
pub open spec fn padded2(n: int) -> Seq<char> {
    if n <= 9 {
        seq!['0'] + dec_rep(n)
    } else {
        dec_rep(n)
    }
}

/// A duration of `total_secs` seconds the way the gauge shows it:
/// `MM:SS`, preceded by an hours part exactly when there are whole hours,
/// every part zero-padded to two digits.
pub open spec fn duration_chars(total_secs: int) -> Seq<char> {
    let hours = total_secs / (SECONDS_PER_HOUR as int);
    let minutes = (total_secs % (SECONDS_PER_HOUR as int)) / (SECONDS_PER_MINUTE as int);
    let seconds = total_secs % (SECONDS_PER_MINUTE as int);
    if hours > 0 {
        padded2(hours) + seq![':'] + padded2(minutes) + seq![':'] + padded2(seconds)
    } else {
        padded2(minutes) + seq![':'] + padded2(seconds)
    }
}

fn digit_string(d: u64) -> (r: String)
    requires
        d <= 9,
    ensures
        r@ == seq![dec_digit(d as int)],
{
    proof {
        reveal_strlit("0");
        reveal_strlit("1");
        reveal_strlit("2");
        reveal_strlit("3");
        reveal_strlit("4");
        reveal_strlit("5");
        reveal_strlit("6");
        reveal_strlit("7");
        reveal_strlit("8");
        reveal_strlit("9");
    }
    let s: &str = if d == 0 {
        "0"
    } else if d == 1 {
        "1"
    } else if d == 2 {
        "2"
    } else if d == 3 {
        "3"
    } else if d == 4 {
        "4"
    } else if d == 5 {
        "5"
    } else if d == 6 {
        "6"
    } else if d == 7 {
        "7"
    } else if d == 8 {
        "8"
    } else {
        "9"
    };
    assert(s@ =~= seq![dec_digit(d as int)]);
    String::from_str(s)
}

/// `n` in decimal, most significant digit first.
pub fn u64_dec_string(n: u64) -> (r: String)
    ensures
        r@ == dec_rep(n as int),
    decreases n,
{
    if n <= 9 {
        digit_string(n)
    } else {
        let mut s = u64_dec_string(n / 10);
        let d = digit_string(n % 10);
        s.append(d.as_str());
        proof {
            assert(dec_rep(n as int) =~= dec_rep(n as int / 10) + seq![
                dec_digit(n as int % 10),
            ]);
        }
        s
    }
}

fn padded2_string(n: u64) -> (r: String)
    ensures
        r@ == padded2(n as int),
{
    if n <= 9 {
        proof {
            reveal_strlit("0");
        }
        let mut s = String::from_str("0");
        let d = digit_string(n);
        s.append(d.as_str());
        assert(s@ =~= padded2(n as int));
        s
    } else {
        u64_dec_string(n)
    }
}

/// Formats a duration for the gauge, exactly as `duration_chars` states.
pub fn duration_to_string(total_secs: u64) -> (r: String)
    ensures
        r@ == duration_chars(total_secs as int),
{
    proof {
        reveal_strlit(":");
    }
    let hours = total_secs / SECONDS_PER_HOUR;
    let minutes = (total_secs % SECONDS_PER_HOUR) / SECONDS_PER_MINUTE;
    let seconds = total_secs % SECONDS_PER_MINUTE;
    let mut s: String;
    if hours > 0 {
        s = padded2_string(hours);
        s.append(":");
        s.append(padded2_string(minutes).as_str());
    } else {
        s = padded2_string(minutes);
    }
    s.append(":");
    s.append(padded2_string(seconds).as_str());
    assert(s@ =~= duration_chars(total_secs as int));
    s
}

/// The played-time part of the gauge label: `position / length`, both in
/// gauge form, from milliseconds.
pub open spec fn playing_part(position_ms: u64, length_ms: u64) -> Seq<char> {
    duration_chars(position_ms as int / 1000) + seq![' ', '/', ' '] + duration_chars(
        length_ms as int / 1000,
    )
}

/// The queue part of the gauge label: how many songs wait and for how
/// long, with the noun in the right number.
pub open spec fn queue_part(total_ms: u64, count: int) -> Seq<char> {
    dec_rep(count) + (if count == 1 {
        seq![' ', 's', 'o', 'n', 'g', ' ', '/', ' ']
    } else {
        seq![' ', 's', 'o', 'n', 'g', 's', ' ', '/', ' ']
    }) + duration_chars(total_ms as int / 1000) + seq![
        ' ',
        'i',
        'n',
        ' ',
        'q',
        'u',
        'e',
        'u',
        'e',
    ]
}

/// The whole gauge label: the playing part when a track is loaded, the
/// queue part when anything is queued, both joined with a separator when
/// both are there, and empty otherwise.
pub open spec fn gauge_label(
    song_length_ms: Option<u64>,
    position_ms: u64,
    queue_total_ms: u64,
    queue_count: int,
) -> Seq<char> {
    let playing = match song_length_ms {
        Some(len) => Some(playing_part(position_ms, len)),
        None => None,
    };
    let queued = if queue_count > 0 {
        Some(queue_part(queue_total_ms, queue_count))
    } else {
        None
    };
    match (playing, queued) {
        (Some(p), Some(q)) => p + seq![' ', ' ', '|', ' ', ' '] + q,
        (None, Some(q)) => q,
        (Some(p), None) => p,
        (None, None) => Seq::empty(),
    }
}

/// Builds the gauge label shown under the playing gauge, exactly as
/// `gauge_label` states it.
pub fn playing_gauge_label(
    current_song: Option<&Track>,
    position_ms: u64,
    queue_total_ms: u64,
    queue_count: usize,
) -> (r: String)
    ensures
        r@ == gauge_label(
            match current_song {
                Some(t) => Some(t.length_ms),
                None => None,
            },
            position_ms,
            queue_total_ms,
            queue_count as int,
        ),
{
    proof {
        reveal_strlit(" / ");
        reveal_strlit(" song / ");
        reveal_strlit(" songs / ");
        reveal_strlit(" in queue");
        reveal_strlit("  |  ");
    }
    let playing_song_label: Option<String> = match current_song {
        Some(song) => {
            let mut s = duration_to_string(position_ms / 1000);
            s.append(" / ");
            s.append(duration_to_string(song.length_ms / 1000).as_str());
            proof {
                assert(s@ =~= playing_part(position_ms, song.length_ms));
            }
            Some(s)
        },
        None => None,
    };
    let queue_label: Option<String> = if queue_count > 0 {
        let mut s = u64_dec_string(queue_count as u64);
        if queue_count == 1 {
            s.append(" song / ");
        } else {
            s.append(" songs / ");
        }
        s.append(duration_to_string(queue_total_ms / 1000).as_str());
        s.append(" in queue");
        proof {
            assert(s@ =~= queue_part(queue_total_ms, queue_count as int));
        }
        Some(s)
    } else {
        None
    };
    let r: String = match (playing_song_label, queue_label) {
        (Some(p), Some(q)) => {
            let mut s = p;
            s.append("  |  ");
            s.append(q.as_str());
            s
        },
        (None, Some(q)) => q,
        (Some(p), None) => p,
        (None, None) => String::new(),
    };
    proof {
        assert(r@ =~= gauge_label(
            match current_song {
                Some(t) => Some(t.length_ms),
                None => None,
            },
            position_ms,
            queue_total_ms,
            queue_count as int,
        ));
    }
    r
}

} // verus!
