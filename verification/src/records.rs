//! The data model: one index ledger and two payload files per document, each
//! modelled as a typed value.  The reserved `"ox-db_init"` counter record is a
//! distinguished field; every other row is an entry addressed by its uid.

use vstd::prelude::*;

verus! {

/// One row of the index ledger: the metadata of a single entry.
pub struct IndexRecord {
    pub uid: String,
    pub key: String,
    pub doc: String,
    pub time: String,
    pub date: String,
    pub vec_model: String,
    pub description: Option<String>,
}

/// Ghost image of an index record, character sequences only.
pub struct RecordView {
    pub uid: Seq<char>,
    pub key: Seq<char>,
    pub doc: Seq<char>,
    pub time: Seq<char>,
    pub date: Seq<char>,
    pub vec_model: Seq<char>,
    pub description: Option<Seq<char>>,
}

impl View for IndexRecord {
    type V = RecordView;

    open spec fn view(&self) -> RecordView {
        RecordView {
            uid: self.uid@,
            key: self.key@,
            doc: self.doc@,
            time: self.time@,
            date: self.date@,
            vec_model: self.vec_model@,
            description: match self.description {
                Some(d) => Some(d@),
                None => None,
            },
        }
    }
}

impl DeepView for IndexRecord {
    type V = RecordView;

    open spec fn deep_view(&self) -> RecordView {
        self.view()
    }
}

/// The index ledger of one document: the persisted counter of the reserved
/// record, and one record per entry.  The counter is absent only when the
/// ledger was recovered from unparsable content as an empty value.
pub struct IndexFile {
    pub doc_entry: Option<u64>,
    pub records: Vec<IndexRecord>,
}

/// Ghost image of an index ledger.
pub struct IndexFileView {
    pub doc_entry: Option<u64>,
    pub records: Seq<RecordView>,
}

impl View for IndexFile {
    type V = IndexFileView;

    open spec fn view(&self) -> IndexFileView {
        IndexFileView { doc_entry: self.doc_entry, records: self.records.deep_view() }
    }
}

/// One row of a payload file: a uid and the list of strings stored under it.
pub struct DataEntry {
    pub uid: String,
    pub data: Vec<String>,
}

/// Ghost image of a payload row.
pub struct EntryView {
    pub uid: Seq<char>,
    pub data: Seq<Seq<char>>,
}

impl View for DataEntry {
    type V = EntryView;

    open spec fn view(&self) -> EntryView {
        EntryView { uid: self.uid@, data: self.data.deep_view() }
    }
}

impl DeepView for DataEntry {
    type V = EntryView;

    open spec fn deep_view(&self) -> EntryView {
        self.view()
    }
}

/// A payload file (primary data or embeddings): the counter of its reserved
/// record, and one row per entry.
pub struct DataFile {
    pub doc_entry: Option<u64>,
    pub entries: Vec<DataEntry>,
}

/// Ghost image of a payload file.
pub struct DataFileView {
    pub doc_entry: Option<u64>,
    pub entries: Seq<EntryView>,
}

impl View for DataFile {
    type V = DataFileView;

    open spec fn view(&self) -> DataFileView {
        DataFileView { doc_entry: self.doc_entry, entries: self.entries.deep_view() }
    }
}

/// The uid of the reserved record that carries the `doc_entry` counter.
pub open spec fn init_key() -> Seq<char> {
    "ox-db_init"@
}

/// The first entry stored under a uid, if any.
pub open spec fn lookup(s: Seq<EntryView>, uid: Seq<char>) -> Option<EntryView>
    decreases s.len(),
{
    if s.len() == 0 {
        None
    } else if s[0].uid == uid {
        Some(s[0])
    } else {
        lookup(s.drop_first(), uid)
    }
}

/// Storing under a uid replaces the first entry with that uid, or appends a
/// new row when the uid is absent.
pub open spec fn upsert(s: Seq<EntryView>, e: EntryView) -> Seq<EntryView>
    decreases s.len(),
{
    if s.len() == 0 {
        seq![e]
    } else if s[0].uid == e.uid {
        seq![e] + s.drop_first()
    } else {
        seq![s[0]] + upsert(s.drop_first(), e)
    }
}

/// The lookup finds the first occurrence of a uid.
pub proof fn lemma_lookup_first_hit(s: Seq<EntryView>, u: Seq<char>, k: int)
    requires
        0 <= k < s.len(),
        s[k].uid == u,
        forall|j: int| 0 <= j < k ==> s[j].uid != u,
    ensures
        lookup(s, u) == Some(s[k]),
    decreases k,
{
    if k > 0 {
        lemma_lookup_first_hit(s.drop_first(), u, k - 1);
    }
}

/// A uid that no row holds is not found.
pub proof fn lemma_lookup_none(s: Seq<EntryView>, u: Seq<char>)
    requires
        forall|j: int| 0 <= j < s.len() ==> s[j].uid != u,
    ensures
        lookup(s, u) is None,
    decreases s.len(),
{
    if s.len() > 0 {
        lemma_lookup_none(s.drop_first(), u);
    }
}

/// Storing a record in the index ledger replaces the first record with the
/// same uid, or appends a new one.
pub open spec fn upsert_rec(s: Seq<RecordView>, r: RecordView) -> Seq<RecordView>
    decreases s.len(),
{
    if s.len() == 0 {
        seq![r]
    } else if s[0].uid == r.uid {
        seq![r] + s.drop_first()
    } else {
        seq![s[0]] + upsert_rec(s.drop_first(), r)
    }
}

/// When the uid is absent, storing a record is an append.
pub proof fn lemma_upsert_rec_absent(s: Seq<RecordView>, r: RecordView)
    requires
        forall|i: int| 0 <= i < s.len() ==> s[i].uid != r.uid,
    ensures
        upsert_rec(s, r) =~= s.push(r),
    decreases s.len(),
{
    if s.len() != 0 {
        lemma_upsert_rec_absent(s.drop_first(), r);
    }
}

/// When the uid is present, storing a record updates its first occurrence.
pub proof fn lemma_upsert_rec_found(s: Seq<RecordView>, r: RecordView, k: int)
    requires
        0 <= k < s.len(),
        s[k].uid == r.uid,
        forall|i: int| 0 <= i < k ==> s[i].uid != r.uid,
    ensures
        upsert_rec(s, r) =~= s.update(k, r),
    decreases s.len(),
{
    if k == 0 {
        assert(seq![r] + s.drop_first() =~= s.update(0, r));
    } else {
        lemma_upsert_rec_found(s.drop_first(), r, k - 1);
        assert(seq![s[0]] + s.drop_first().update(k - 1, r) =~= s.update(k, r));
    }
}

/// Stores a record among the index ledger's records, replacing the first
/// record with the same uid or appending a new one.
pub fn store_record(records: &mut Vec<IndexRecord>, r: IndexRecord)
    ensures
        final(records).deep_view() == upsert_rec(old(records).deep_view(), r@),
{
    let mut i: usize = 0;
    let n = records.len();
    while i < n
        invariant
            i <= n,
            n == records@.len(),
            forall|j: int| 0 <= j < i ==> records.deep_view()[j].uid != r@.uid,
            *records == *old(records),
        decreases n - i,
    {
        if records[i].uid == r.uid {
            proof {
                lemma_upsert_rec_found(records.deep_view(), r@, i as int);
            }
            records.set(i, r);
            proof {
                assert(records.deep_view() =~= old(records).deep_view().update(i as int, r@));
            }
            return ;
        }
        i = i + 1;
    }
    proof {
        lemma_upsert_rec_absent(records.deep_view(), r@);
    }
    records.push(r);
    proof {
        assert(records.deep_view() =~= old(records).deep_view().push(r@));
    }
}

/// After a store, the stored uid maps to exactly the stored row.
pub proof fn lemma_lookup_upsert(s: Seq<EntryView>, e: EntryView)
    ensures
        lookup(upsert(s, e), e.uid) == Some(e),
    decreases s.len(),
{
    if s.len() != 0 && s[0].uid != e.uid {
        lemma_lookup_upsert(s.drop_first(), e);
        assert((seq![s[0]] + upsert(s.drop_first(), e)).drop_first() =~= upsert(
            s.drop_first(),
            e,
        ));
    }
}

/// When the uid is absent, a store is an append.
pub proof fn lemma_upsert_absent(s: Seq<EntryView>, e: EntryView)
    requires
        forall|i: int| 0 <= i < s.len() ==> s[i].uid != e.uid,
    ensures
        upsert(s, e) =~= s.push(e),
    decreases s.len(),
{
    if s.len() != 0 {
        lemma_upsert_absent(s.drop_first(), e);
    }
}

/// When the uid is present, a store updates its first occurrence in place.
pub proof fn lemma_upsert_found(s: Seq<EntryView>, e: EntryView, k: int)
    requires
        0 <= k < s.len(),
        s[k].uid == e.uid,
        forall|i: int| 0 <= i < k ==> s[i].uid != e.uid,
    ensures
        upsert(s, e) =~= s.update(k, e),
    decreases s.len(),
{
    if k == 0 {
        assert(seq![e] + s.drop_first() =~= s.update(0, e));
    } else {
        lemma_upsert_found(s.drop_first(), e, k - 1);
        assert(seq![s[0]] + s.drop_first().update(k - 1, e) =~= s.update(k, e));
    }
}

/// Clones a list of strings; the engine stores payloads by value.
pub fn clone_strings(v: &Vec<String>) -> (r: Vec<String>)
    ensures
        r@ == v@,
{
    let mut r: Vec<String> = Vec::new();
    let mut i: usize = 0;
    while i < v.len()
        invariant
            i <= v@.len(),
            r@ =~= v@.take(i as int),
        decreases v@.len() - i,
    {
        r.push(v[i].clone());
        proof {
            assert(r@ =~= v@.take(i + 1));
        }
        i = i + 1;
    }
    proof {
        assert(r@ =~= v@);
    }
    r
}

/// Stores a row in a payload file's entries, replacing the first row with the
/// same uid or appending a new one.
pub fn store_entry(entries: &mut Vec<DataEntry>, e: DataEntry)
    ensures
        final(entries).deep_view() == upsert(old(entries).deep_view(), e@),
{
    let mut i: usize = 0;
    let n = entries.len();
    while i < n
        invariant
            i <= n,
            n == entries@.len(),
            forall|j: int| 0 <= j < i ==> entries.deep_view()[j].uid != e@.uid,
            *entries == *old(entries),
        decreases n - i,
    {
        if entries[i].uid == e.uid {
            proof {
                lemma_upsert_found(entries.deep_view(), e@, i as int);
                assert(entries.deep_view().update(i as int, e@) =~= old(
                    entries,
                ).deep_view().update(i as int, e@));
            }
            entries.set(i, e);
            proof {
                assert(entries.deep_view() =~= old(entries).deep_view().update(i as int, e@));
            }
            return ;
        }
        i = i + 1;
    }
    proof {
        lemma_upsert_absent(entries.deep_view(), e@);
    }
    entries.push(e);
    proof {
        assert(entries.deep_view() =~= old(entries).deep_view().push(e@));
    }
}

} // verus!
