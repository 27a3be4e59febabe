//! Query matching over the index ledger.  For each record the clauses are
//! tried in a fixed precedence — time, then date, then key — and the first
//! clause that applies decides, rather than all supplied filters together.

use vstd::prelude::*;

use crate::records::{IndexFile, RecordView};
use crate::strutil::underscores;

verus! {

/// Whether a record matches a query, by the fixed clause precedence:
/// the time clause applies when both the queried time and the record's time
/// split on `'_'` into exactly two components, and then alone decides; else
/// a given date decides when it equals the record's date exactly; else a
/// given key decides when it equals the record's key exactly.
pub open spec fn rec_matches(
    r: RecordView,
    key: Option<Seq<char>>,
    time: Option<Seq<char>>,
    date: Option<Seq<char>>,
) -> bool {
    if time is Some && underscores(time->0) == 1 && underscores(r.time) == 1 {
        time->0 == r.time
    } else if date is Some && date->0 == r.date {
        true
    } else if key is Some && key->0 == r.key {
        true
    } else {
        false
    }
}

/// The uids of the records that match a query, in ledger order.
pub open spec fn search_spec(
    recs: Seq<RecordView>,
    key: Option<Seq<char>>,
    time: Option<Seq<char>>,
    date: Option<Seq<char>>,
) -> Seq<Seq<char>>
    decreases recs.len(),
{
    if recs.len() == 0 {
        Seq::empty()
    } else {
        search_spec(recs.drop_last(), key, time, date) + (if rec_matches(
            recs.last(),
            key,
            time,
            date,
        ) {
            seq![recs.last().uid]
        } else {
            Seq::empty()
        })
    }
}

/// Ghost image of an optional query string.
pub open spec fn opt_view(o: Option<&String>) -> Option<Seq<char>> {
    match o {
        Some(s) => Some(s@),
        None => None,
    }
}

/// Whether one record matches the query, by the clause precedence of
/// [`rec_matches`].
pub fn record_matches(
    r: &crate::records::IndexRecord,
    key: Option<&String>,
    time: Option<&String>,
    date: Option<&String>,
) -> (m: bool)
    ensures
        m == rec_matches(r@, opt_view(key), opt_view(time), opt_view(date)),
{
    let time_applies = match time {
        Some(t) => crate::strutil::count_underscores(t.as_str()) == 1
            && crate::strutil::count_underscores(r.time.as_str()) == 1,
        None => false,
    };
    if time_applies {
        match time {
            Some(t) => *t == r.time,
            None => false,
        }
    } else if date.is_some() {
        let date_hits = match date {
            Some(d) => *d == r.date,
            None => false,
        };
        if date_hits {
            true
        } else {
            match key {
                Some(k) => *k == r.key,
                None => false,
            }
        }
    } else {
        match key {
            Some(k) => *k == r.key,
            None => false,
        }
    }
}

/// Collects the uids of the index records that match the query, in ledger
/// order; the reserved counter record is no index record and never appears.
pub fn search_uid(
    index: &IndexFile,
    key: Option<&String>,
    time: Option<&String>,
    date: Option<&String>,
) -> (uids: Vec<String>)
    ensures
        uids.deep_view() == search_spec(
            index@.records,
            opt_view(key),
            opt_view(time),
            opt_view(date),
        ),
{
    let mut uids: Vec<String> = Vec::new();
    let mut i: usize = 0;
    let n = index.records.len();
    while i < n
        invariant
            i <= n,
            n == index.records@.len(),
            index@.records.len() == n,
            uids.deep_view() =~= search_spec(
                index@.records.take(i as int),
                opt_view(key),
                opt_view(time),
                opt_view(date),
            ),
        decreases n - i,
    {
        proof {
            let recs = index@.records;
            assert(recs.take(i + 1).drop_last() =~= recs.take(i as int));
            assert(recs.take(i + 1).last() == recs[i as int]);
            assert(recs[i as int] == index.records@[i as int]@);
        }
        if record_matches(&index.records[i], key, time, date) {
            uids.push(index.records[i].uid.clone());
            proof {
                assert(uids.deep_view() =~= search_spec(
                    index@.records.take(i + 1),
                    opt_view(key),
                    opt_view(time),
                    opt_view(date),
                ));
            }
        } else {
            proof {
                assert(uids.deep_view() =~= search_spec(
                    index@.records.take(i + 1),
                    opt_view(key),
                    opt_view(time),
                    opt_view(date),
                ));
            }
        }
        i = i + 1;
    }
    proof {
        assert(index@.records.take(n as int) =~= index@.records);
    }
    uids
}

} // verus!
