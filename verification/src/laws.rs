//! The library-wide laws, each proved from the contracts the operations
//! state: what a pull returns for a pushed uid, how the counter grows over a
//! run of pushes, that loading is idempotent, the precedence of the search
//! clauses, and that a missing uid is silently omitted.

use vstd::prelude::*;

use crate::engine::{
    pull_one, pull_uids_spec, uid_spec, PullDataView, PullItemView,
};
use crate::records::{
    init_key, lemma_lookup_upsert, lookup, upsert, DataFileView, EntryView, RecordView,
};
use crate::search::{rec_matches, search_spec};
use crate::strutil::{dec_str, lemma_dec_str_starts_with_digit, underscores};

verus! {

/// A uid never collides with the reserved counter record's key: a uid starts
/// with a decimal digit, the reserved key with a letter.
pub proof fn lemma_uid_not_reserved(n: nat, key: Seq<char>, suffix: Seq<char>)
    ensures
        uid_spec(n, key, suffix) != init_key(),
{
    lemma_dec_str_starts_with_digit(n);
    reveal_strlit("ox-db_init");
    assert(uid_spec(n, key, suffix)[0] == dec_str(n)[0]);
    assert(init_key()[0] == 'o');
}

/// Round trip: a payload stored under a uid by a push is exactly what a pull
/// of that uid yields afterwards.  The premises are what a successful push's
/// contract states of the payload file it returns.
pub proof fn lemma_push_pull_roundtrip(
    pre: DataFileView,
    post: DataFileView,
    n: nat,
    key: Seq<char>,
    suffix: Seq<char>,
    data: Seq<Seq<char>>,
)
    requires
        post.entries == upsert(
            pre.entries,
            EntryView { uid: uid_spec(n, key, suffix), data: data },
        ),
    ensures
        pull_uids_spec(post, seq![uid_spec(n, key, suffix)]) == seq![
            PullItemView {
                uid: uid_spec(n, key, suffix),
                data: PullDataView::Payload(data),
            },
        ],
{
    let u = uid_spec(n, key, suffix);
    lemma_uid_not_reserved(n, key, suffix);
    lemma_lookup_upsert(pre.entries, EntryView { uid: u, data: data });
    let uids = seq![u];
    assert(uids.drop_last() =~= Seq::<Seq<char>>::empty());
    assert(pull_uids_spec(post, uids.drop_last()) =~= Seq::<PullItemView>::empty());
    assert(pull_uids_spec(post, uids) =~= pull_one(post, u));
}

/// One successful push on a document whose persisted counter agrees with the
/// engine's: the uid embeds that counter, and both counters advance by
/// exactly one.  The premise is the postcondition a successful push states.
pub proof fn lemma_push_step(
    pre: crate::engine::Log,
    post: crate::engine::Log,
    data: Option<Seq<Seq<char>>>,
    emb: Option<Seq<Seq<char>>>,
    story: Option<Seq<Seq<char>>>,
    key: Option<Seq<char>>,
    doc: Option<Seq<char>>,
    time: Seq<char>,
    date: Seq<char>,
    suffix: Seq<char>,
    iv: crate::records::IndexFileView,
    dv: DataFileView,
    vv: DataFileView,
    uid: Seq<char>,
    iv2: crate::records::IndexFileView,
    dv2: DataFileView,
    vv2: DataFileView,
)
    requires
        crate::engine::push_post(
            pre, post, data, emb, story, key, doc, time, date, suffix,
            iv, dv, vv, uid, iv2, dv2, vv2,
        ),
        iv.doc_entry == Some(pre.doc_entry),
        pre.doc_entry < u64::MAX,
    ensures
        uid == uid_spec(pre.doc_entry as nat, crate::engine::key_or_default(key), suffix),
        iv2.doc_entry == Some((pre.doc_entry + 1) as u64),
        post.doc_entry == pre.doc_entry + 1,
{
}

/// Sequence monotonicity: a run of successful pushes on a freshly created
/// document sees the counter values 0, 1, …, N−1 in order and leaves the
/// persisted counter at N.  `counters[i]` is the engine's counter before the
/// i-th push, `counters[len-1]` the persisted value after the last one; each
/// push's contract makes a step of exactly one ([`lemma_push_step`]), and the
/// i-th uid embeds `dec_str(counters[i])`.
pub proof fn lemma_sequence_monotonicity(counters: Seq<u64>, j: int)
    requires
        counters.len() > 0,
        counters[0] == 0,
        forall|i: int| 0 < i < counters.len() ==> #[trigger] counters[i] == counters[i - 1] + 1,
        0 <= j < counters.len(),
    ensures
        counters[j] == j,
    decreases j,
{
    if j > 0 {
        lemma_sequence_monotonicity(counters, j - 1);
    }
}

/// Idempotent load: whatever one load of a payload file yielded, a second
/// load with no intervening write parses exactly that content and returns it
/// unchanged, writing nothing.
pub proof fn lemma_load_data_idempotent(p: crate::engine::RawDataView)
    ensures
        crate::engine::load_data_view(
            crate::engine::RawDataView::Parsed(crate::engine::load_data_view(p).0),
        ) == (crate::engine::load_data_view(p).0, false),
{
}

/// Idempotent load of an index ledger; the rule of
/// [`lemma_load_data_idempotent`].
pub proof fn lemma_load_index_idempotent(p: crate::engine::RawIndexView)
    ensures
        crate::engine::load_index_view(
            crate::engine::RawIndexView::Parsed(crate::engine::load_index_view(p).0),
        ) == (crate::engine::load_index_view(p).0, false),
{
}

/// Search precedence over two records with the same date and different keys:
/// a date query returns both, a key query returns only the record with that
/// key, and a time query matches a record exactly when both times split into
/// two components and are equal.
pub proof fn lemma_search_precedence(a: RecordView, b: RecordView, d: Seq<char>, k: Seq<char>)
    requires
        a.date == d,
        b.date == d,
        a.key == k,
        b.key != k,
    ensures
        search_spec(seq![a, b], None, None, Some(d)) == seq![a.uid, b.uid],
        search_spec(seq![a, b], Some(k), None, None) == seq![a.uid],
{
    let recs = seq![a, b];
    assert(recs.drop_last() =~= seq![a]);
    assert(seq![a].drop_last() =~= Seq::<RecordView>::empty());
    assert(search_spec(Seq::<RecordView>::empty(), None, None, Some(d)) =~= Seq::<
        Seq<char>,
    >::empty());
    assert(search_spec(seq![a], None, None, Some(d)) =~= seq![a.uid]);
    assert(search_spec(recs, None, None, Some(d)) =~= seq![a.uid, b.uid]);
    assert(search_spec(Seq::<RecordView>::empty(), Some(k), None, None) =~= Seq::<
        Seq<char>,
    >::empty());
    assert(search_spec(seq![a], Some(k), None, None) =~= seq![a.uid]);
    assert(search_spec(recs, Some(k), None, None) =~= seq![a.uid]);
}

/// The time clause of a search: a queried time matches a record exactly when
/// both split on `'_'` into two components and the strings are equal; when
/// both do, the date and key clauses are never consulted.
pub proof fn lemma_time_clause(r: RecordView, t: Seq<char>)
    requires
        underscores(t) == 1,
        underscores(r.time) == 1,
    ensures
        forall|key: Option<Seq<char>>, date: Option<Seq<char>>|
            rec_matches(r, key, Some(t), date) == (t == r.time),
{
}

/// Missing uid: a pull of a uid that the file does not hold yields the empty
/// result, never an error.
pub proof fn lemma_missing_uid(f: DataFileView, u: Seq<char>)
    requires
        u != init_key(),
        lookup(f.entries, u) is None,
    ensures
        pull_uids_spec(f, seq![u]) =~= Seq::<PullItemView>::empty(),
{
    let uids = seq![u];
    assert(uids.drop_last() =~= Seq::<Seq<char>>::empty());
    assert(pull_uids_spec(f, uids.drop_last()) =~= Seq::<PullItemView>::empty());
}

} // verus!
