use vstd::multiset::Multiset;
use vstd::prelude::*;

use crate::text::{push_dec, push_dec2, spec_dec, spec_dec2, string_of, sub_chars};

verus! {

/// The untrimmed duration image: days, hours, minutes and seconds, each
/// zero-padded to at least two digits and separated by colons.
pub open spec fn spec_duration_base(secs: nat) -> Seq<char> {
    spec_dec2(secs / 86400) + seq![':'] + spec_dec2(secs / 3600 % 24) + seq![':'] + spec_dec2(
        secs / 60 % 60,
    ) + seq![':'] + spec_dec2(secs % 60)
}

/// Strips leading "00:" groups; once the remainder is five characters long
/// ("m:ss" territory) a leading zero is dropped and trimming stops.
pub open spec fn spec_trim_duration(s: Seq<char>) -> Seq<char>
    decreases s.len(),
{
    if s.len() >= 3 && s.subrange(0, 3) == seq!['0', '0', ':'] {
        let t = s.subrange(3, s.len() as int);
        if t.len() == 5 {
            if t[0] == '0' {
                t.subrange(1, 5)
            } else {
                t
            }
        } else {
            spec_trim_duration(t)
        }
    } else {
        s
    }
}

/// What `format_duration` returns: the last `l` characters of the base image
/// when a length is requested, the trimmed image otherwise.
pub open spec fn spec_format_duration(secs: nat, length: Option<usize>) -> Seq<char> {
    let base = spec_duration_base(secs);
    match length {
        Some(l) => base.subrange(base.len() - l, base.len() as int),
        None => spec_trim_duration(base),
    }
}

proof fn lemma_dec2_len(n: nat)
    ensures
        n < 100 ==> spec_dec2(n).len() == 2,
        spec_dec2(n).len() >= 2,
    decreases n,
{
    if n < 10 {
        assert(spec_dec(n).len() == 1);
    } else if n < 100 {
        assert(spec_dec(n) == spec_dec(n / 10).push(crate::text::digit_char(n % 10)));
        assert(spec_dec(n / 10).len() == 1);
    } else {
        assert(spec_dec(n) == spec_dec(n / 10).push(crate::text::digit_char(n % 10)));
        lemma_dec2_len(n / 10);
        if n / 10 < 10 {
            assert(spec_dec(n / 10).len() == 1);
        }
    }
}

/// The base image is at least eleven characters long.
pub proof fn lemma_duration_base_len(secs: nat)
    ensures
        spec_duration_base(secs).len() >= 11,
        secs / 86400 < 100 ==> spec_duration_base(secs).len() == 11,
{
    lemma_dec2_len(secs / 86400);
    lemma_dec2_len(secs / 3600 % 24);
    lemma_dec2_len(secs / 60 % 60);
    lemma_dec2_len(secs % 60);
}

/// Formats a duration of whole seconds as colon-separated groups. With a
/// requested length, the image is cut down to its last `length` characters;
/// without one, leading zero groups are trimmed away.
pub fn format_duration(duration: u64, length: Option<usize>) -> (r: String)
    requires
        length matches Some(l) ==> l <= spec_duration_base(duration as nat).len(),
    ensures
        r@ == spec_format_duration(duration as nat, length),
{
    let s: u64 = duration % 60;
    let m: u64 = duration / 60 % 60;
    let h: u64 = duration / 3600 % 24;
    let d: u64 = duration / 86400;
    let mut base: Vec<char> = Vec::new();
    push_dec2(d, &mut base);
    base.push(':');
    push_dec2(h, &mut base);
    base.push(':');
    push_dec2(m, &mut base);
    base.push(':');
    push_dec2(s, &mut base);
    proof {
        assert(base@ =~= spec_duration_base(duration as nat));
    }
    match length {
        Some(l) => {
            let from = base.len() - l;
            let cut = sub_chars(&base, from, base.len());
            string_of(&cut)
        },
        None => {
            let mut v = base;
            loop
                invariant
                    length is None,
                    spec_trim_duration(v@) == spec_format_duration(duration as nat, None),
                decreases v@.len(),
            {
                if !(v.len() >= 3 && v[0] == '0' && v[1] == '0' && v[2] == ':') {
                    proof {
                        if v@.len() >= 3 && v@.subrange(0, 3) == seq!['0', '0', ':'] {
                            assert(v@.subrange(0, 3)[0] == '0' && v@.subrange(0, 3)[1] == '0'
                                && v@.subrange(0, 3)[2] == ':');
                            assert(false);
                        }
                    }
                    return string_of(&v);
                }
                proof {
                    assert(v@.subrange(0, 3) =~= seq!['0', '0', ':']);
                }
                let t = sub_chars(&v, 3, v.len());
                if t.len() == 5 {
                    if t[0] == '0' {
                        let cut = sub_chars(&t, 1, 5);
                        return string_of(&cut);
                    }
                    return string_of(&t);
                }
                v = t;
            }
        },
    }
}

/// Tracks shown on one page of the queue listing.
pub open spec fn spec_tracks_per_page() -> nat {
    7
}

/// The index of the last page of a queue listing: the queued tracks past the
/// current one, seven to a page, rounded upwards.
pub open spec fn spec_last_page(queue_len: nat) -> nat {
    (((if queue_len == 0 {
        1nat
    } else {
        queue_len
    }) - 1) + 6) as nat / 7
}

/// Computes the last page index of the queue listing.
pub fn queue_last_page(queue_len: usize) -> (r: usize)
    ensures
        r == spec_last_page(queue_len as nat),
{
    let base: usize = if queue_len == 0 {
        1
    } else {
        queue_len
    };
    let n: usize = base - 1;
    let q: usize = n / 7;
    let rem: usize = n % 7;
    let r: usize = if rem == 0 {
        q
    } else {
        q + 1
    };
    proof {
        assert(r == (n + 6) as nat / 7) by (nonlinear_arith)
            requires
                n >= 0,
                q == n as int / 7,
                rem == n as int % 7,
                r == if rem == 0 {
                    q as int
                } else {
                    q + 1
                },
        ;
    }
    r
}

/// The character budget of one listed entry: a field line of 1024 characters
/// split over seven entries, minus room for the enumeration number.
pub fn queue_entry_limit(page: usize) -> (r: usize)
    requires
        page <= (usize::MAX - 7) / 7,
        (7 + page * 7) / 100 + 1 <= 1024int / 7 - 3,
    ensures
        r == 1024int / 7 - 3 - ((7 + page * 7) / 100 + 1),
{
    let max_num_len: usize = (7 + page * 7) / 100 + 1;
    1024 / 7 - 3 - max_num_len
}

/// The numbered lines of the listing after the first `n` entries: each
/// queued entry under its position in the whole queue.
pub open spec fn spec_lines_upto(entries: Seq<Seq<char>>, page: nat, n: int) -> Seq<char>
    decreases n,
{
    if n <= 1 {
        Seq::empty()
    } else {
        spec_lines_upto(entries, page, n - 1) + spec_dec(((n - 1) + page * 7) as nat) + ". "@
            + entries[n - 1] + "\n"@
    }
}

/// The body of the next-up field: the queued entries numbered from their
/// page, or a placeholder when only the current track is listed.
pub open spec fn spec_queue_lines(entries: Seq<Seq<char>>, page: nat) -> Seq<char> {
    if entries.len() <= 1 {
        "*Nothing*"@
    } else {
        spec_lines_upto(entries, page, entries.len() as int)
    }
}

/// Renders the next-up lines of a queue listing: the first entry is the
/// current track and is skipped, each further entry is numbered by its
/// position in the whole queue.
pub fn queue_lines(entries: &Vec<String>, page: usize) -> (r: String)
    requires
        entries@.len() + page * 7 <= usize::MAX,
    ensures
        r@ == spec_queue_lines(entries.deep_view(), page as nat),
{
    let ghost dv = entries.deep_view();
    if entries.len() <= 1 {
        return String::from_str("*Nothing*");
    }
    let mut out = String::new();
    let mut i: usize = 1;
    while i < entries.len()
        invariant
            1 <= i <= entries@.len(),
            dv == entries.deep_view(),
            entries@.len() + page * 7 <= usize::MAX,
            out@ == spec_lines_upto(dv, page as nat, i as int),
        decreases entries@.len() - i,
    {
        let mut num: Vec<char> = Vec::new();
        push_dec((i + page * 7) as u64, &mut num);
        out.append(string_of(&num).as_str());
        out.append(". ");
        out.append(entries[i].as_str());
        out.append("\n");
        proof {
            assert(dv[i as int] == entries@[i as int]@);
        }
        i = i + 1;
        proof {
            assert(out@ =~= spec_lines_upto(dv, page as nat, i as int));
        }
    }
    out
}

/// Whether a user shares the voice channel the player is connected to:
/// false when either side is not in a voice channel at all.
pub fn same_voice_channel_decision(user_channel: Option<u64>, bot_channel: Option<u64>) -> (r:
    bool)
    ensures
        r == (user_channel matches Some(u) && bot_channel matches Some(b) && u == b),
{
    match (user_channel, bot_channel) {
        (Some(u), Some(b)) => u == b,
        _ => false,
    }
}

/// Whether the player should move to the caller's voice channel: never
/// without a caller channel; always when the player is not connected; when
/// the player's channel cannot be inspected, stay put; when listeners remain
/// there, only if the caller is already in that channel.
pub fn should_move_channels_decision(
    user_channel: Option<u64>,
    bot_channel: Option<u64>,
    listeners: Option<usize>,
) -> (r: bool)
    ensures
        r == (match (user_channel, bot_channel, listeners) {
            (None, _, _) => false,
            (Some(_), None, _) => true,
            (Some(_), Some(_), None) => false,
            (Some(u), Some(b), Some(n)) => n == 0 || u == b,
        }),
{
    match (user_channel, bot_channel) {
        (None, _) => false,
        (Some(_), None) => true,
        (Some(u), Some(b)) => match listeners {
            None => false,
            Some(n) => n == 0 || u == b,
        },
    }
}

/// Earlier elements are no larger than later ones.
pub open spec fn sorted_asc(s: Seq<u64>) -> bool {
    forall|i: int, j: int| 0 <= i < j < s.len() ==> s[i] <= s[j]
}

/// Orders cleanup delays ascending; the result holds exactly the input's
/// delays, so waiting them out in order serves every scheduled cleanup.
pub fn sort_delays(delays: &Vec<u64>) -> (r: Vec<u64>)
    ensures
        sorted_asc(r@),
        r@.to_multiset() == delays@.to_multiset(),
{
    broadcast use vstd::seq_lib::group_to_multiset_ensures;

    let mut r: Vec<u64> = Vec::new();
    let mut i: usize = 0;
    proof {
        assert(delays@.subrange(0, 0) =~= Seq::<u64>::empty());
        assert(r@.to_multiset() =~= delays@.subrange(0, 0).to_multiset());
    }
    while i < delays.len()
        invariant
            i <= delays@.len(),
            sorted_asc(r@),
            r@.to_multiset() == delays@.subrange(0, i as int).to_multiset(),
        decreases delays@.len() - i,
    {
        broadcast use vstd::seq_lib::group_to_multiset_ensures;

        let x = delays[i];
        let mut j: usize = r.len();
        while j > 0 && r[j - 1] > x
            invariant
                j <= r@.len(),
                sorted_asc(r@),
                forall|k: int| j <= k < r@.len() ==> r@[k] > x,
            decreases j,
        {
            j = j - 1;
        }
        let ghost before = r@;
        r.insert(j, x);
        proof {
            assert(r@ == before.insert(j as int, x));
            assert forall|a: int, b: int| 0 <= a < b < r@.len() implies r@[a] <= r@[b] by {
                if a < j && b == j {
                    assert(r@[a] == before[a]);
                    assert(before[j - 1] <= x);
                    assert(before[a] <= before[j - 1] || a == j - 1);
                } else if a == j && j < b {
                    assert(r@[b] == before[b - 1]);
                } else if a < j && j < b {
                    assert(r@[a] == before[a] && r@[b] == before[b - 1]);
                } else if j < a {
                    assert(r@[a] == before[a - 1] && r@[b] == before[b - 1]);
                } else {
                    assert(r@[a] == before[a] && r@[b] == before[b]);
                }
            }
            let pre = before.subrange(0, j as int);
            let post = before.subrange(j as int, before.len() as int);
            assert(r@ =~= pre + (seq![x] + post));
            vstd::seq_lib::lemma_multiset_commutative(pre, seq![x] + post);
            vstd::seq_lib::lemma_multiset_commutative(seq![x], post);
            assert(seq![x] =~= Seq::<u64>::empty().push(x));
            assert(seq![x].to_multiset() =~= Multiset::<u64>::empty().insert(x));
            assert(pre + post =~= before);
            vstd::seq_lib::lemma_multiset_commutative(pre, post);
            assert(r@.to_multiset() =~= before.to_multiset().insert(x));
            assert(delays@.subrange(0, i + 1).drop_last() =~= delays@.subrange(0, i as int));
            assert(delays@.subrange(0, i + 1) =~= delays@.subrange(0, i as int).push(x));
        }
        i = i + 1;
    }
    proof {
        assert(delays@.subrange(0, delays@.len() as int) =~= delays@);
    }
    r
}

/// The successive waits that serve sorted cleanup delays in order: first
/// the smallest delay, then each delay's distance from the one before it.
/// Sortedness keeps every wait nonnegative.
pub fn wait_increments(sorted: &Vec<u64>) -> (r: Vec<u64>)
    requires
        sorted_asc(sorted@),
    ensures
        r@.len() == sorted@.len(),
        forall|i: int|
            0 <= i < r@.len() ==> r@[i] == sorted@[i] - (if i == 0 {
                0
            } else {
                sorted@[i - 1]
            }),
{
    let mut r: Vec<u64> = Vec::new();
    let mut prev: u64 = 0;
    let mut i: usize = 0;
    while i < sorted.len()
        invariant
            i <= sorted@.len(),
            sorted_asc(sorted@),
            r@.len() == i,
            prev == (if i == 0 {
                0
            } else {
                sorted@[i - 1]
            }),
            forall|k: int|
                0 <= k < i ==> r@[k] == sorted@[k] - (if k == 0 {
                    0
                } else {
                    sorted@[k - 1]
                }),
        decreases sorted@.len() - i,
    {
        let d = sorted[i];
        r.push(d - prev);
        prev = d;
        i = i + 1;
    }
    r
}

/// What a voice-state update means for the idle timeout of a guild's
/// player.
#[derive(Debug, PartialEq, Eq)]
pub enum AfkAction {
    /// The player's channel emptied: schedule a delayed disconnect.
    ScheduleDisconnect,
    /// Someone joined the player's channel: cancel a pending disconnect.
    CancelTimeout,
    /// Anything else changes nothing.
    Nothing,
}

/// Decides the idle timeout for one voice-state update. The player's own
/// updates are ignored. Someone leaving the player's channel — not merely
/// switching within — schedules a disconnect once no listeners remain
/// (an unknown listener count changes nothing). Someone joining the
/// player's channel cancels a pending disconnect.
pub fn afk_timeout_action(
    is_self: bool,
    old_channel: Option<u64>,
    new_channel: Option<u64>,
    bot_channel: Option<u64>,
    listeners: Option<usize>,
) -> (r: AfkAction)
    ensures
        r == (if is_self {
            AfkAction::Nothing
        } else {
            match (old_channel, new_channel, bot_channel) {
                (Some(oc), None, Some(bc)) => if oc == bc && listeners == Some(0usize) {
                    AfkAction::ScheduleDisconnect
                } else {
                    AfkAction::Nothing
                },
                (None, Some(nc), Some(bc)) => if nc == bc {
                    AfkAction::CancelTimeout
                } else {
                    AfkAction::Nothing
                },
                _ => AfkAction::Nothing,
            }
        }),
{
    if is_self {
        return AfkAction::Nothing;
    }
    match (old_channel, new_channel, bot_channel) {
        (Some(oc), None, Some(bc)) => {
            let empty = match listeners {
                Some(n) => n == 0,
                None => false,
            };
            if oc == bc && empty {
                AfkAction::ScheduleDisconnect
            } else {
                AfkAction::Nothing
            }
        },
        (None, Some(nc), Some(bc)) => {
            if nc == bc {
                AfkAction::CancelTimeout
            } else {
                AfkAction::Nothing
            }
        },
        _ => AfkAction::Nothing,
    }
}

} // verus!
