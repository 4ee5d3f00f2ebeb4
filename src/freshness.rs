//! Backup freshness, from the timestamps of the backup records.

use vstd::prelude::*;
use crate::text::{i64_of_text, parse_i64, texts};
use crate::validation::BackupStatus;

verus! {

/// The latest of the timestamps that parse, if any does.
pub open spec fn latest_stamp(stamps: Seq<Seq<char>>) -> Option<i64>
    decreases stamps.len(),
{
    if stamps.len() == 0 {
        None
    } else {
        let before = latest_stamp(stamps.drop_last());
        match i64_of_text(stamps.last()) {
            Some(t) => match before {
                Some(b) => if t > b {
                    Some(t)
                } else {
                    Some(b)
                },
                None => Some(t),
            },
            None => before,
        }
    }
}

/// The earliest of the timestamps that parse, if any does.
pub open spec fn earliest_stamp(stamps: Seq<Seq<char>>) -> Option<i64>
    decreases stamps.len(),
{
    if stamps.len() == 0 {
        None
    } else {
        let before = earliest_stamp(stamps.drop_last());
        match i64_of_text(stamps.last()) {
            Some(t) => match before {
                Some(b) => if t < b {
                    Some(t)
                } else {
                    Some(b)
                },
                None => Some(t),
            },
            None => before,
        }
    }
}

/// Whether some timestamp parses.
pub open spec fn some_stamp_parses(stamps: Seq<Seq<char>>) -> bool {
    exists|i: int| 0 <= i < stamps.len() && (#[trigger] i64_of_text(stamps[i])) is Some
}

/// The age at `now` of a backup taken at `stamp`, if there is one.
pub open spec fn age_at(stamp: Option<i64>, now: i64) -> Option<i128> {
    match stamp {
        Some(t) => Some((now - t) as i128),
        None => None,
    }
}

proof fn lemma_extremes_exist(stamps: Seq<Seq<char>>)
    ensures
        latest_stamp(stamps) is Some <==> some_stamp_parses(stamps),
        earliest_stamp(stamps) is Some <==> some_stamp_parses(stamps),
    decreases stamps.len(),
{
    if stamps.len() > 0 {
        let front = stamps.drop_last();
        lemma_extremes_exist(front);
        if some_stamp_parses(front) {
            let i = choose|i: int| 0 <= i < front.len() && (#[trigger] i64_of_text(front[i])) is Some;
            assert(stamps[i] == front[i]);
        }
        if i64_of_text(stamps.last()) is Some {
            assert(i64_of_text(stamps[stamps.len() - 1]) is Some);
        }
        if some_stamp_parses(stamps) && i64_of_text(stamps.last()) is None {
            let i = choose|i: int| 0 <= i < stamps.len() && (#[trigger] i64_of_text(stamps[i])) is Some;
            assert(i < stamps.len() - 1);
            assert(front[i] == stamps[i]);
        }
    }
}

/// The freshness of `record_count` backup records whose timestamp attributes
/// (seconds since the epoch, as text) are `timestamps`, measured at `now`.
/// Texts that do not parse are skipped; both ages are present exactly when some
/// timestamp parses.
pub fn backup_freshness(record_count: usize, timestamps: &Vec<String>, now: i64) -> (r:
    BackupStatus)
    ensures
        r.backup_count == record_count,
        r.last_backup_age_seconds == age_at(latest_stamp(texts(timestamps@)), now),
        r.oldest_backup_age_seconds == age_at(earliest_stamp(texts(timestamps@)), now),
        r.last_backup_age_seconds is Some <==> some_stamp_parses(texts(timestamps@)),
        r.oldest_backup_age_seconds is Some <==> some_stamp_parses(texts(timestamps@)),
{
    let mut latest: Option<i64> = None;
    let mut earliest: Option<i64> = None;
    let mut i: usize = 0;
    while i < timestamps.len()
        invariant
            i <= timestamps@.len(),
            latest == latest_stamp(texts(timestamps@).take(i as int)),
            earliest == earliest_stamp(texts(timestamps@).take(i as int)),
        decreases timestamps@.len() - i,
    {
        proof {
            assert(texts(timestamps@).take(i + 1).drop_last() =~= texts(timestamps@).take(i as int));
        }
        if let Some(t) = parse_i64(timestamps[i].as_str()) {
            latest = match latest {
                Some(b) => if t > b {
                    Some(t)
                } else {
                    Some(b)
                },
                None => Some(t),
            };
            earliest = match earliest {
                Some(b) => if t < b {
                    Some(t)
                } else {
                    Some(b)
                },
                None => Some(t),
            };
        }
        i = i + 1;
    }
    proof {
        assert(texts(timestamps@).take(i as int) =~= texts(timestamps@));
        lemma_extremes_exist(texts(timestamps@));
    }
    BackupStatus {
        last_backup_age_seconds: match latest {
            Some(t) => Some(now as i128 - t as i128),
            None => None,
        },
        backup_count: record_count,
        oldest_backup_age_seconds: match earliest {
            Some(t) => Some(now as i128 - t as i128),
            None => None,
        },
    }
}

} // verus!
