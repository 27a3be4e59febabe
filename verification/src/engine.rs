//! The storage engine: directory and file naming, counter bookkeeping, and
//! the push/pull operations over loaded file contents.  Reading and writing
//! the files themselves, and encoding them under the chosen codec, is the
//! caller's side of the contract: every operation here takes the loaded
//! contents as values and returns the contents to persist.

use vstd::prelude::*;

use crate::records::{
    DataEntry, DataFile, DataFileView, EntryView, IndexFile, IndexFileView, IndexRecord,
    RecordView, clone_strings, init_key, lemma_lookup_first_hit, lemma_lookup_none, lookup,
    store_entry, store_record, upsert, upsert_rec,
};
use crate::outside;
use crate::search::{opt_view, search_spec, search_uid};
use crate::strutil::{dec_str, join_comma, joined, u64_to_string};
use crate::OxError;

verus! {

/// The two on-disk representations a document can be stored in.
#[derive(Clone, Copy, PartialEq, Eq, Structural, Debug)]
pub enum DocFormat {
    /// The compact binary document format.
    Bson,
    /// The human-readable structured text format.
    Json,
}

/// The extension tag of a format, as file names carry it.
pub open spec fn fmt_ext(f: DocFormat) -> Seq<char> {
    match f {
        DocFormat::Bson => "bson"@,
        DocFormat::Json => "json"@,
    }
}

/// One handle on a database: the root directory, the selected document, and
/// that document's persisted entry counter as last loaded.
pub struct Log {
    pub db: String,
    pub db_path: String,
    pub doc: String,
    pub doc_format: DocFormat,
    pub doc_entry: u64,
}

/// The default document name is derived from the current date.
pub open spec fn is_default_doc_name(s: Seq<char>) -> bool {
    exists|d: Seq<char>| s == "log-["@ + d + "]"@
}

/// The key stored when the caller supplies none.
pub open spec fn key_or_default(key: Option<Seq<char>>) -> Seq<char> {
    match key {
        Some(k) => k,
        None => "key"@,
    }
}

/// A uid: the sequence number in decimal, the key, and the random suffix,
/// joined with dashes.
pub open spec fn uid_spec(n: nat, key: Seq<char>, suffix: Seq<char>) -> Seq<char> {
    dec_str(n) + "-"@ + key + "-"@ + suffix
}

/// Whether a push carries data: present and non-empty.
pub open spec fn data_present(data: Option<Seq<Seq<char>>>) -> bool {
    match data {
        Some(v) => v.len() > 0,
        None => false,
    }
}

/// The counter after the increment a push persists with its index write; an
/// absent counter (a ledger recovered as empty) stays absent.
pub open spec fn bumped(c: Option<u64>) -> Option<u64> {
    match c {
        Some(n) => Some((n + 1) as u64),
        None => None,
    }
}

/// The index record a push stores.
pub open spec fn pushed_record(
    uid: Seq<char>,
    key: Option<Seq<char>>,
    doc_name: Seq<char>,
    time: Seq<char>,
    date: Seq<char>,
    story: Option<Seq<Seq<char>>>,
) -> RecordView {
    RecordView {
        uid: uid,
        key: key_or_default(key),
        doc: doc_name,
        time: time,
        date: date,
        vec_model: "vec.model"@,
        description: match story {
            Some(parts) => Some(joined(parts)),
            None => None,
        },
    }
}

/// Everything a successful push did: the uid it returned, the three file
/// contents to persist, and the engine's counter afterwards.
pub open spec fn push_post(
    pre: Log,
    post: Log,
    data: Option<Seq<Seq<char>>>,
    emb: Option<Seq<Seq<char>>>,
    story: Option<Seq<Seq<char>>>,
    key: Option<Seq<char>>,
    doc: Option<Seq<char>>,
    time: Seq<char>,
    date: Seq<char>,
    suffix: Seq<char>,
    iv: IndexFileView,
    dv: DataFileView,
    vv: DataFileView,
    uid: Seq<char>,
    iv2: IndexFileView,
    dv2: DataFileView,
    vv2: DataFileView,
) -> bool {
    let doc_name = match doc {
        Some(d) => d,
        None => pre.doc@,
    };
    let u = uid_spec(pre.doc_entry as nat, key_or_default(key), suffix);
    let rec = pushed_record(u, key, doc_name, time, date, story);
    let payload = data->0;
    let embp = match emb {
        Some(e) => e,
        None => payload,
    };
    &&& uid == u
    &&& iv2.records == upsert_rec(iv.records, rec)
    &&& iv2.doc_entry == bumped(iv.doc_entry)
    &&& dv2.entries == upsert(dv.entries, EntryView { uid: u, data: payload })
    &&& dv2.doc_entry == dv.doc_entry
    &&& vv2.entries == upsert(vv.entries, EntryView { uid: u, data: embp })
    &&& vv2.doc_entry == vv.doc_entry
    &&& post.doc_entry == (match iv.doc_entry {
        Some(n) => (n + 1) as u64,
        None => pre.doc_entry,
    })
    &&& post.db == pre.db
    &&& post.db_path == pre.db_path
    &&& post.doc == pre.doc
    &&& post.doc_format == pre.doc_format
}

/// What a successful push returns: the generated uid and the contents each of
/// the three files must now hold.
pub struct PushOutcome {
    pub uid: String,
    pub index: IndexFile,
    pub datafile: DataFile,
    pub vecfile: DataFile,
}

/// What was found on disk for one file, before the load's recovery rules.
pub enum RawContent<T> {
    /// The file does not exist.
    Absent,
    /// The file exists but its content is blank.
    Blank,
    /// The file's content parsed under the chosen codec.
    Parsed(T),
    /// The file's content did not parse under the chosen codec.
    Unparsable,
}

/// Ghost image of what was found on disk for a payload file.
pub enum RawDataView {
    Absent,
    Blank,
    Parsed(DataFileView),
    Unparsable,
}

/// Ghost image of what was found on disk for an index ledger.
pub enum RawIndexView {
    Absent,
    Blank,
    Parsed(IndexFileView),
    Unparsable,
}

/// Ghost image of a loaded payload file.
pub open spec fn raw_data_view(p: RawContent<DataFile>) -> RawDataView {
    match p {
        RawContent::Absent => RawDataView::Absent,
        RawContent::Blank => RawDataView::Blank,
        RawContent::Parsed(f) => RawDataView::Parsed(f@),
        RawContent::Unparsable => RawDataView::Unparsable,
    }
}

/// Ghost image of a loaded index ledger.
pub open spec fn raw_index_view(p: RawContent<IndexFile>) -> RawIndexView {
    match p {
        RawContent::Absent => RawIndexView::Absent,
        RawContent::Blank => RawIndexView::Blank,
        RawContent::Parsed(f) => RawIndexView::Parsed(f@),
        RawContent::Unparsable => RawIndexView::Unparsable,
    }
}

/// What a load yields for a payload file, and whether the initialized content
/// must be persisted back: an absent or blank file is initialized with the
/// reserved counter record at zero and written; unparsable content is
/// recovered as an empty value and not written; parsed content stands.
pub open spec fn load_data_view(p: RawDataView) -> (DataFileView, bool) {
    match p {
        RawDataView::Parsed(f) => (f, false),
        RawDataView::Absent | RawDataView::Blank => (
            DataFileView { doc_entry: Some(0), entries: Seq::empty() },
            true,
        ),
        RawDataView::Unparsable => (DataFileView { doc_entry: None, entries: Seq::empty() }, false),
    }
}

/// What a load yields for an index ledger; the rules of [`load_data_view`].
pub open spec fn load_index_view(p: RawIndexView) -> (IndexFileView, bool) {
    match p {
        RawIndexView::Parsed(f) => (f, false),
        RawIndexView::Absent | RawIndexView::Blank => (
            IndexFileView { doc_entry: Some(0), records: Seq::empty() },
            true,
        ),
        RawIndexView::Unparsable => (
            IndexFileView { doc_entry: None, records: Seq::empty() },
            false,
        ),
    }
}

/// Applies the load recovery rules to what was found on disk for a payload
/// file; the second result says whether the content must be written back.
pub fn load_data(prior: RawContent<DataFile>) -> (r: (DataFile, bool))
    ensures
        (r.0@, r.1) == load_data_view(raw_data_view(prior)),
{
    match prior {
        RawContent::Parsed(f) => (f, false),
        RawContent::Absent | RawContent::Blank => {
            let f = DataFile { doc_entry: Some(0), entries: Vec::new() };
            proof {
                assert(f@.entries =~= Seq::<EntryView>::empty());
            }
            (f, true)
        },
        RawContent::Unparsable => {
            let f = DataFile { doc_entry: None, entries: Vec::new() };
            proof {
                assert(f@.entries =~= Seq::<EntryView>::empty());
            }
            (f, false)
        },
    }
}

/// Applies the load recovery rules to what was found on disk for an index
/// ledger; the second result says whether the content must be written back.
pub fn load_index(prior: RawContent<IndexFile>) -> (r: (IndexFile, bool))
    ensures
        (r.0@, r.1) == load_index_view(raw_index_view(prior)),
{
    match prior {
        RawContent::Parsed(f) => (f, false),
        RawContent::Absent | RawContent::Blank => {
            let f = IndexFile { doc_entry: Some(0), records: Vec::new() };
            proof {
                assert(f@.records =~= Seq::<RecordView>::empty());
            }
            (f, true)
        },
        RawContent::Unparsable => {
            let f = IndexFile { doc_entry: None, records: Vec::new() };
            proof {
                assert(f@.records =~= Seq::<RecordView>::empty());
            }
            (f, false)
        },
    }
}

impl Log {
    /// Opens a database: resolves the root directory (under the home
    /// directory when no path is given) and selects the default, date-named
    /// document with a counter of zero.  The caller must then create the
    /// directories and load the document's ledger to bring the counter in
    /// with [`Log::load_counter`].  Fails only when no root path is given
    /// and the platform reports no home directory.
    pub fn new(db: &str, db_path: Option<String>) -> (r: Result<Log, OxError>)
        ensures
            db_path is Some ==> r is Ok,
            r matches Err(e) ==> e == OxError::IOFailure && db_path is None,
            r matches Ok(l) ==> {
                &&& l.db@ == db@
                &&& (db_path matches Some(p) ==> l.db_path@ == p@)
                &&& (db_path is None ==> exists|h: Seq<char>|
                    l.db_path@ == h + "/"@ + db@ + ".ox-db"@)
                &&& l.doc_format == DocFormat::Bson
                &&& l.doc_entry == 0
                &&& is_default_doc_name(l.doc@)
            },
    {
        let path: String = match db_path {
            Some(p) => p,
            None => {
                match outside::home_dir_string() {
                    Some(h) => {
                        let ghost hv = h@;
                        let p = h.concat("/").concat(db).concat(".ox-db");
                        proof {
                            assert(p@ =~= hv + "/"@ + db@ + ".ox-db"@);
                        }
                        p
                    },
                    None => {
                        return Err(OxError::IOFailure);
                    },
                }
            },
        };
        let mut log = Log {
            db: db.to_owned(),
            db_path: path,
            doc: String::new(),
            doc_format: DocFormat::Bson,
            doc_entry: 0,
        };
        log.set_doc(None);
        Ok(log)
    }

    /// Selects a document by name, or the default document named for the
    /// current date when none is given.  The caller must then create the
    /// document's directory and reload the counter.
    pub fn set_doc(&mut self, doc: Option<String>)
        ensures
            final(self).db == old(self).db,
            final(self).db_path == old(self).db_path,
            final(self).doc_format == old(self).doc_format,
            final(self).doc_entry == old(self).doc_entry,
            doc matches Some(d) ==> final(self).doc == d,
            doc is None ==> is_default_doc_name(final(self).doc@),
    {
        match doc {
            Some(d) => {
                self.doc = d;
            },
            None => {
                let now = outside::now_strings();
                let ghost datev = now.1@;
                let name = String::from_str("log-[").concat(now.1.as_str()).concat("]");
                proof {
                    assert(name@ =~= "log-["@ + datev + "]"@);
                }
                self.doc = name;
            },
        }
    }

    /// Takes the persisted counter out of a loaded index ledger; a ledger
    /// without the reserved record leaves the counter as it was.
    pub fn load_counter(&mut self, index: &IndexFile)
        ensures
            final(self).db == old(self).db,
            final(self).db_path == old(self).db_path,
            final(self).doc == old(self).doc,
            final(self).doc_format == old(self).doc_format,
            final(self).doc_entry == match index.doc_entry {
                Some(n) => n,
                None => old(self).doc_entry,
            },
    {
        if let Some(n) = index.doc_entry {
            self.doc_entry = n;
        }
    }

    /// The extension tag the selected format puts on file names.
    pub fn format_tag(&self) -> (r: &'static str)
        ensures
            r@ == fmt_ext(self.doc_format),
    {
        proof {
            reveal_strlit("bson");
            reveal_strlit("json");
        }
        match self.doc_format {
            DocFormat::Bson => "bson",
            DocFormat::Json => "json",
        }
    }

    /// The full path of a file of the selected document:
    /// `{db_path}/{doc}/{log_file}.{format}`.
    pub fn get_logfile_path(&self, log_file: &str) -> (r: String)
        ensures
            r@ == self.db_path@ + "/"@ + self.doc@ + "/"@ + log_file@ + "."@ + fmt_ext(
                self.doc_format,
            ),
    {
        let r = self
            .db_path
            .clone()
            .concat("/")
            .concat(self.doc.as_str())
            .concat("/")
            .concat(log_file)
            .concat(".")
            .concat(self.format_tag());
        proof {
            assert(r@ =~= self.db_path@ + "/"@ + self.doc@ + "/"@ + log_file@ + "."@ + fmt_ext(
                self.doc_format,
            ));
        }
        r
    }

    /// Builds a uid from the engine's current counter, the key, and a given
    /// random suffix.
    pub fn gen_uid_with(&self, key: Option<&String>, suffix: &str) -> (r: String)
        ensures
            r@ == uid_spec(self.doc_entry as nat, key_or_default(opt_view(key)), suffix@),
    {
        let ks: &str = match key {
            Some(k) => k.as_str(),
            None => "key",
        };
        let r = u64_to_string(self.doc_entry).concat("-").concat(ks).concat("-").concat(suffix);
        proof {
            assert(r@ =~= uid_spec(self.doc_entry as nat, key_or_default(opt_view(key)), suffix@));
        }
        r
    }

    /// Builds a uid from the engine's current counter, the key, and a fresh
    /// random suffix.
    pub fn gen_uid(&self, key: Option<&String>) -> (r: String)
        ensures
            exists|sfx: Seq<char>|
                sfx.len() == 36 && r@ == uid_spec(
                    self.doc_entry as nat,
                    key_or_default(opt_view(key)),
                    sfx,
                ),
    {
        let suffix = outside::fresh_suffix();
        let ghost sv = suffix@;
        let r = self.gen_uid_with(key, suffix.as_str());
        proof {
            assert(sv.len() == 36 && r@ == uid_spec(
                self.doc_entry as nat,
                key_or_default(opt_view(key)),
                sv,
            ));
        }
        r
    }

    /// Pushes an entry at a given time, date, and uid suffix: stores the
    /// index record, the payload, and the embedding (defaulting to the
    /// payload), increments the persisted counter with the index write, and
    /// returns the uid together with the three file contents to persist.
    /// Fails with `MissingInput`, touching nothing, exactly when no
    /// non-empty data is given.
    pub fn push_at(
        &mut self,
        data: Option<Vec<String>>,
        embeddings: Option<Vec<String>>,
        data_story: Option<Vec<String>>,
        key: Option<String>,
        doc: Option<String>,
        time: String,
        date: String,
        suffix: String,
        index: IndexFile,
        datafile: DataFile,
        vecfile: DataFile,
    ) -> (r: Result<PushOutcome, OxError>)
        requires
            index.doc_entry matches Some(n) ==> n < u64::MAX,
        ensures
            r is Ok <==> data_present(data.deep_view()),
            r matches Err(e) ==> e == OxError::MissingInput && *final(self) == *old(self),
            r matches Ok(o) ==> push_post(
                *old(self),
                *final(self),
                data.deep_view(),
                embeddings.deep_view(),
                data_story.deep_view(),
                key.deep_view(),
                doc.deep_view(),
                time@,
                date@,
                suffix@,
                index@,
                datafile@,
                vecfile@,
                o.uid@,
                o.index@,
                o.datafile@,
                o.vecfile@,
            ),
    {
        let doc_name = match &doc {
            Some(d) => d.clone(),
            None => self.doc.clone(),
        };
        let uid = self.gen_uid_with(key.as_ref(), suffix.as_str());

        let data_vec = match data {
            Some(v) => {
                if v.len() == 0 {
                    return Err(OxError::MissingInput);
                }
                v
            },
            None => {
                return Err(OxError::MissingInput);
            },
        };

        let emb_vec = match embeddings {
            Some(e) => e,
            None => clone_strings(&data_vec),
        };

        let key_str = match key {
            Some(k) => k,
            None => String::from_str("key"),
        };
        let descr = match data_story {
            Some(parts) => Some(join_comma(&parts)),
            None => None,
        };
        let rec = IndexRecord {
            uid: uid.clone(),
            key: key_str,
            doc: doc_name,
            time: time,
            date: date,
            vec_model: String::from_str("vec.model"),
            description: descr,
        };

        let mut index = index;
        store_record(&mut index.records, rec);
        match index.doc_entry {
            Some(n) => {
                index.doc_entry = Some(n + 1);
                self.doc_entry = n + 1;
            },
            None => {},
        }

        let mut datafile = datafile;
        store_entry(&mut datafile.entries, DataEntry { uid: uid.clone(), data: data_vec });

        let mut vecfile = vecfile;
        store_entry(&mut vecfile.entries, DataEntry { uid: uid.clone(), data: emb_vec });

        Ok(PushOutcome { uid, index, datafile, vecfile })
    }

    /// Pushes an entry stamped with the current wall-clock time and date and
    /// a fresh random suffix; otherwise [`Log::push_at`].
    pub fn push(
        &mut self,
        data: Option<Vec<String>>,
        embeddings: Option<Vec<String>>,
        data_story: Option<Vec<String>>,
        key: Option<String>,
        doc: Option<String>,
        index: IndexFile,
        datafile: DataFile,
        vecfile: DataFile,
    ) -> (r: Result<PushOutcome, OxError>)
        requires
            index.doc_entry matches Some(n) ==> n < u64::MAX,
        ensures
            r is Ok <==> data_present(data.deep_view()),
            r matches Err(e) ==> e == OxError::MissingInput && *final(self) == *old(self),
            r matches Ok(o) ==> exists|time: Seq<char>, date: Seq<char>, sfx: Seq<char>|
                sfx.len() == 36 && time.len() == 11 && #[trigger] push_post(
                    *old(self),
                    *final(self),
                    data.deep_view(),
                    embeddings.deep_view(),
                    data_story.deep_view(),
                    key.deep_view(),
                    doc.deep_view(),
                    time,
                    date,
                    sfx,
                    index@,
                    datafile@,
                    vecfile@,
                    o.uid@,
                    o.index@,
                    o.datafile@,
                    o.vecfile@,
                ),
    {
        let now = outside::now_strings();
        let suffix = outside::fresh_suffix();
        let r = self.push_at(
            data,
            embeddings,
            data_story,
            key,
            doc,
            now.0,
            now.1,
            suffix,
            index,
            datafile,
            vecfile,
        );
        r
    }

    /// Whether a push would accept this data; the caller tests it before
    /// creating any directory or file, as a failing push touches none.
    pub fn has_data(data: &Option<Vec<String>>) -> (r: bool)
        ensures
            r == data_present(data.deep_view()),
    {
        match data {
            Some(v) => v.len() > 0,
            None => false,
        }
    }
}

/// One result row of a pull: a uid and the value stored under it.
#[derive(Debug, PartialEq)]
pub struct PullEntry {
    pub uid: String,
    pub data: PullData,
}

/// The value a pull returns for a uid: a payload, or — for the reserved
/// uid — the persisted counter.
#[derive(Debug, PartialEq)]
pub enum PullData {
    Payload(Vec<String>),
    Counter(u64),
}

/// Ghost image of a pull result row.
pub struct PullItemView {
    pub uid: Seq<char>,
    pub data: PullDataView,
}

/// Ghost image of a pulled value.
pub enum PullDataView {
    Payload(Seq<Seq<char>>),
    Counter(u64),
}

impl View for PullData {
    type V = PullDataView;

    open spec fn view(&self) -> PullDataView {
        match self {
            PullData::Payload(v) => PullDataView::Payload(v.deep_view()),
            PullData::Counter(n) => PullDataView::Counter(*n),
        }
    }
}

impl View for PullEntry {
    type V = PullItemView;

    open spec fn view(&self) -> PullItemView {
        PullItemView { uid: self.uid@, data: self.data@ }
    }
}

impl DeepView for PullEntry {
    type V = PullItemView;

    open spec fn deep_view(&self) -> PullItemView {
        self.view()
    }
}

/// Every entry of a payload file, in file order; the reserved counter record
/// is not an entry and never appears.
pub open spec fn pull_all_spec(s: Seq<EntryView>) -> Seq<PullItemView> {
    s.map_values(
        |e: EntryView| PullItemView { uid: e.uid, data: PullDataView::Payload(e.data) },
    )
}

/// What a pull returns for one requested uid: nothing when it is absent — a
/// missing uid is silently omitted, never an error; the payload stored under
/// it; or, for the reserved uid, the persisted counter.
pub open spec fn pull_one(f: DataFileView, u: Seq<char>) -> Seq<PullItemView> {
    if u == init_key() {
        match f.doc_entry {
            Some(n) => seq![PullItemView { uid: u, data: PullDataView::Counter(n) }],
            None => Seq::empty(),
        }
    } else {
        match lookup(f.entries, u) {
            Some(e) => seq![PullItemView { uid: u, data: PullDataView::Payload(e.data) }],
            None => Seq::empty(),
        }
    }
}

/// What a pull returns for a list of uids, in the list's order.
pub open spec fn pull_uids_spec(f: DataFileView, uids: Seq<Seq<char>>) -> Seq<PullItemView>
    decreases uids.len(),
{
    if uids.len() == 0 {
        Seq::empty()
    } else {
        pull_uids_spec(f, uids.drop_last()) + pull_one(f, uids.last())
    }
}

/// Whether a pull was given no filter at all: no key, time, or date, and a
/// uid list that is absent at either level.
pub open spec fn no_filters(
    uid: Option<Option<Seq<Seq<char>>>>,
    key: Option<Seq<char>>,
    time: Option<Seq<char>>,
    date: Option<Seq<char>>,
) -> bool {
    &&& key is None
    &&& time is None
    &&& date is None
    &&& (uid is None || uid->0 is None)
}

/// The full result of a pull.  The branches are mutually exclusive and tried
/// in order: no filter at all returns every entry; a given uid list is looked
/// up directly; otherwise the index is searched by key/time/date and the
/// matching uids are looked up.  A present-but-absent uid list beside other
/// filters yields the empty result.
pub open spec fn pull_spec(
    f: DataFileView,
    recs: Seq<RecordView>,
    uid: Option<Option<Seq<Seq<char>>>>,
    key: Option<Seq<char>>,
    time: Option<Seq<char>>,
    date: Option<Seq<char>>,
) -> Seq<PullItemView> {
    if no_filters(uid, key, time, date) {
        pull_all_spec(f.entries)
    } else {
        match uid {
            Some(inner) => pull_uids_spec(
                f,
                match inner {
                    Some(l) => l,
                    None => Seq::empty(),
                },
            ),
            None => pull_uids_spec(f, search_spec(recs, key, time, date)),
        }
    }
}

/// The first entry of a payload file stored under a uid, if any.
pub fn find_entry<'a>(entries: &'a Vec<DataEntry>, u: &String) -> (r: Option<&'a DataEntry>)
    ensures
        match r {
            Some(e) => lookup(entries.deep_view(), u@) == Some(e@),
            None => lookup(entries.deep_view(), u@) is None,
        },
{
    let mut i: usize = 0;
    let n = entries.len();
    while i < n
        invariant
            i <= n,
            n == entries@.len(),
            forall|j: int| 0 <= j < i ==> entries.deep_view()[j].uid != u@,
        decreases n - i,
    {
        if entries[i].uid == *u {
            proof {
                lemma_lookup_first_hit(entries.deep_view(), u@, i as int);
            }
            return Some(&entries[i]);
        }
        i = i + 1;
    }
    proof {
        lemma_lookup_none(entries.deep_view(), u@);
    }
    None
}

/// Pulls every entry of a payload file, in file order, skipping the reserved
/// counter record.
pub fn pull_all(content: &DataFile) -> (r: Vec<PullEntry>)
    ensures
        r.deep_view() == pull_all_spec(content@.entries),
{
    let mut out: Vec<PullEntry> = Vec::new();
    let mut i: usize = 0;
    let n = content.entries.len();
    while i < n
        invariant
            i <= n,
            n == content.entries@.len(),
            out@.len() == i,
            out.deep_view() =~= pull_all_spec(content@.entries.take(i as int)),
        decreases n - i,
    {
        let e = &content.entries[i];
        out.push(PullEntry { uid: e.uid.clone(), data: PullData::Payload(clone_strings(&e.data)) });
        proof {
            let pre = content@.entries;
            assert(pre.take(i + 1)[i as int] == pre[i as int]);
            assert forall|j: int| 0 <= j < i implies out.deep_view()[j] == pull_all_spec(
                pre.take(i + 1),
            )[j] by {
                assert(out.deep_view()[j] == pull_all_spec(pre.take(i as int))[j]);
                assert(pre.take(i + 1)[j] == pre.take(i as int)[j]);
            }
            assert(out.deep_view() =~= pull_all_spec(pre.take(i + 1)));
        }
        i = i + 1;
    }
    proof {
        assert(content@.entries.take(n as int) =~= content@.entries);
    }
    out
}

/// Pulls the listed uids from a payload file, in the list's order; uids not
/// found are silently omitted.
pub fn pull_by_uids(content: &DataFile, uids: &Vec<String>) -> (r: Vec<PullEntry>)
    ensures
        r.deep_view() == pull_uids_spec(content@, uids.deep_view()),
{
    let reserved = String::from_str("ox-db_init");
    let mut out: Vec<PullEntry> = Vec::new();
    let mut i: usize = 0;
    let n = uids.len();
    while i < n
        invariant
            i <= n,
            n == uids@.len(),
            reserved@ == init_key(),
            out.deep_view() =~= pull_uids_spec(content@, uids.deep_view().take(i as int)),
        decreases n - i,
    {
        let u = &uids[i];
        proof {
            assert(uids.deep_view().take(i + 1).drop_last() =~= uids.deep_view().take(i as int));
            assert(uids.deep_view().take(i + 1).last() == uids.deep_view()[i as int]);
            assert(uids.deep_view()[i as int] == uids@[i as int]@);
        }
        if *u == reserved {
            if let Some(c) = content.doc_entry {
                out.push(PullEntry { uid: u.clone(), data: PullData::Counter(c) });
            }
        } else {
            match find_entry(&content.entries, u) {
                Some(e) => {
                    out.push(
                        PullEntry {
                            uid: u.clone(),
                            data: PullData::Payload(clone_strings(&e.data)),
                        },
                    );
                },
                None => {},
            }
        }
        proof {
            assert(out.deep_view() =~= pull_uids_spec(content@, uids.deep_view().take(i + 1)));
        }
        i = i + 1;
    }
    proof {
        assert(uids.deep_view().take(n as int) =~= uids.deep_view());
    }
    out
}

impl Log {
    /// Retrieves entries from a loaded payload file, guided by a loaded index
    /// ledger.  The branches are mutually exclusive: with no filter at all,
    /// every entry of the file; with a uid list, those uids directly; else,
    /// the uids the index search finds for key/time/date.
    pub fn pull(
        &self,
        uid: Option<Option<Vec<String>>>,
        key: Option<&String>,
        time: Option<&String>,
        date: Option<&String>,
        content: &DataFile,
        index: &IndexFile,
    ) -> (r: Vec<PullEntry>)
        ensures
            r.deep_view() == pull_spec(
                content@,
                index@.records,
                uid.deep_view(),
                opt_view(key),
                opt_view(time),
                opt_view(date),
            ),
    {
        let all_none = key.is_none() && time.is_none() && date.is_none() && (match &uid {
            None => true,
            Some(inner) => inner.is_none(),
        });
        if all_none {
            return pull_all(content);
        }
        if let Some(inner) = uid {
            let uid_list = match inner {
                Some(l) => l,
                None => Vec::new(),
            };
            let r = pull_by_uids(content, &uid_list);
            proof {
                if uid_list.deep_view().len() == 0 {
                    assert(uid_list.deep_view() =~= Seq::<Seq<char>>::empty());
                }
            }
            return r;
        }
        let uids = search_uid(index, key, time, date);
        pull_by_uids(content, &uids)
    }

    /// The document a pull reads: the given name, or the selected document.
    pub fn resolve_doc<'a>(&'a self, doc: Option<&'a String>) -> (r: &'a String)
        ensures
            r@ == match opt_view(doc) {
                Some(d) => d,
                None => self.doc@,
            },
    {
        match doc {
            Some(d) => d,
            None => &self.doc,
        }
    }
}

/// The payload file a pull reads: the given file name, or the document's own.
pub fn resolve_docfile<'a>(doc_name: &'a String, docfile: Option<&'a String>) -> (r: &'a String)
    ensures
        r@ == match opt_view(docfile) {
            Some(f) => f,
            None => doc_name@,
        },
{
    match docfile {
        Some(f) => f,
        None => doc_name,
    }
}

/// The name of a document's index ledger file, before the format extension.
pub fn index_file_name(doc_name: &str) -> (r: String)
    ensures
        r@ == doc_name@ + ".index"@,
{
    String::from_str(doc_name).concat(".index")
}

/// The name of a document's embedding file, before the format extension.
pub fn vec_file_name(doc_name: &str) -> (r: String)
    ensures
        r@ == doc_name@ + ".ox-vec"@,
{
    String::from_str(doc_name).concat(".ox-vec")
}

} // verus!
