use vstd::prelude::*;
use crate::size_format::{format_size, size_text};

verus! {

/// One uploaded file, as the metadata log keeps it. Created once per
/// successful upload and never changed afterwards.
#[derive(Clone, Debug)]
pub struct FileRecord {
    pub filename: String,
    pub file_id: String,
    /// Local wall-clock time of the upload, as `YYYY-MM-DD HH:MM:SS`.
    pub upload_date: String,
    pub file_size: u64,
}

/// The mathematical content of a [`FileRecord`].
pub struct RecordView {
    pub filename: Seq<char>,
    pub file_id: Seq<char>,
    pub upload_date: Seq<char>,
    pub file_size: nat,
}

impl View for FileRecord {
    type V = RecordView;

    open spec fn view(&self) -> RecordView {
        RecordView {
            filename: self.filename@,
            file_id: self.file_id@,
            upload_date: self.upload_date@,
            file_size: self.file_size as nat,
        }
    }
}

/// The views of a sequence of records.
pub open spec fn records_view(v: Seq<FileRecord>) -> Seq<RecordView> {
    v.map_values(|r: FileRecord| r@)
}

impl FileRecord {
    /// A record with the given fields.
    pub fn new(filename: &str, file_id: &str, upload_date: &str, file_size: u64) -> (r: FileRecord)
        ensures
            r.filename@ == filename@,
            r.file_id@ == file_id@,
            r.upload_date@ == upload_date@,
            r.file_size == file_size,
    {
        FileRecord {
            filename: filename.to_string(),
            file_id: file_id.to_string(),
            upload_date: upload_date.to_string(),
            file_size,
        }
    }

    /// A field-by-field copy.
    pub fn duplicate(&self) -> (r: FileRecord)
        ensures
            r@ == self@,
    {
        FileRecord {
            filename: self.filename.clone(),
            file_id: self.file_id.clone(),
            upload_date: self.upload_date.clone(),
            file_size: self.file_size,
        }
    }
}

/// A record as it is presented: newest first, with the size in human form.
#[derive(Clone, Debug)]
pub struct FileEntry {
    pub filename: String,
    pub file_id: String,
    pub upload_date: String,
    pub size: String,
}

/// The presentation of a record.
pub open spec fn entry_matches(e: FileEntry, r: RecordView) -> bool {
    &&& e.filename@ == r.filename
    &&& e.file_id@ == r.file_id
    &&& e.upload_date@ == r.upload_date
    &&& e.size@ == size_text(r.file_size)
}

/// Relies on chrono's `Local::now` and `DateTime::format`: the local
/// wall-clock time rendered with the pattern `%Y-%m-%d %H:%M:%S`. The
/// result depends on the clock, so nothing is stated of it.
#[verifier::external_body]
fn local_timestamp() -> (r: String) {
    chrono::Local::now().format("%Y-%m-%d %H:%M:%S").to_string()
}

/// The append-only log of uploaded files, in upload order. The owner
/// persists [`MetadataStore::snapshot`] after each insertion and rebuilds
/// the store with [`MetadataStore::from_snapshot`].
pub struct MetadataStore {
    records: Vec<FileRecord>,
}

impl View for MetadataStore {
    type V = Seq<RecordView>;

    closed spec fn view(&self) -> Seq<RecordView> {
        records_view(self.records@)
    }
}

impl MetadataStore {
    /// An empty log.
    pub fn new() -> (s: MetadataStore)
        ensures
            s@ == Seq::<RecordView>::empty(),
    {
        let s = MetadataStore { records: Vec::new() };
        assert(s@ =~= Seq::<RecordView>::empty());
        s
    }

    /// The log held by a decoded snapshot; a snapshot that is missing or
    /// could not be decoded (`None`) gives an empty log.
    pub fn from_snapshot(loaded: Option<Vec<FileRecord>>) -> (s: MetadataStore)
        ensures
            s@ == match loaded {
                Some(v) => records_view(v@),
                None => Seq::<RecordView>::empty(),
            },
    {
        match loaded {
            Some(v) => MetadataStore { records: v },
            None => MetadataStore::new(),
        }
    }

    /// The number of records.
    pub fn len(&self) -> (n: usize)
        ensures
            n == self@.len(),
    {
        self.records.len()
    }

    /// Appends `record` after all earlier ones.
    pub fn insert(&mut self, record: FileRecord)
        ensures
            final(self)@ == old(self)@.push(record@),
    {
        self.records.push(record);
        assert(self@ =~= old(self)@.push(record@));
    }

    /// Appends a record of a file uploaded now, stamped with the local
    /// time.
    pub fn insert_file(&mut self, filename: &str, file_id: &str, file_size: u64)
        ensures
            final(self)@.len() == old(self)@.len() + 1,
            final(self)@.take(old(self)@.len() as int) == old(self)@,
            final(self)@.last().filename == filename@,
            final(self)@.last().file_id == file_id@,
            final(self)@.last().file_size == file_size,
    {
        let upload_date = local_timestamp();
        let record = FileRecord {
            filename: filename.to_string(),
            file_id: file_id.to_string(),
            upload_date,
            file_size,
        };
        self.insert(record);
        assert(final(self)@.take(old(self)@.len() as int) =~= old(self)@);
    }

    /// Copies of all records in insertion order: what is persisted.
    pub fn snapshot(&self) -> (v: Vec<FileRecord>)
        ensures
            records_view(v@) == self@,
    {
        let mut v: Vec<FileRecord> = Vec::new();
        let mut i: usize = 0;
        while i < self.records.len()
            invariant
                i <= self.records@.len(),
                v@.len() == i,
                forall|j: int| 0 <= j < i ==> (#[trigger] v@[j])@ == self.records@[j]@,
            decreases self.records@.len() - i,
        {
            v.push(self.records[i].duplicate());
            i = i + 1;
        }
        assert(records_view(v@) =~= self@);
        v
    }

    /// Copies of all records, most recent first.
    pub fn read_all(&self) -> (v: Vec<FileRecord>)
        ensures
            records_view(v@) == self@.reverse(),
    {
        let mut v: Vec<FileRecord> = Vec::new();
        let n = self.records.len();
        let mut i: usize = n;
        while i > 0
            invariant
                i <= n == self.records@.len(),
                v@.len() == n - i,
                forall|j: int| 0 <= j < v@.len() ==> (#[trigger] v@[j])@ == self.records@[n - 1 - j]@,
            decreases i,
        {
            i = i - 1;
            v.push(self.records[i].duplicate());
        }
        assert(records_view(v@) =~= self@.reverse());
        v
    }

    /// The records as presented, most recent first, each size in human
    /// form.
    pub fn get_all_files(&self) -> (v: Vec<FileEntry>)
        ensures
            v@.len() == self@.len(),
            forall|i: int|
                0 <= i < v@.len() ==> entry_matches(#[trigger] v@[i], self@.reverse()[i]),
    {
        let mut v: Vec<FileEntry> = Vec::new();
        let n = self.records.len();
        let mut i: usize = n;
        while i > 0
            invariant
                i <= n == self.records@.len(),
                v@.len() == n - i,
                forall|j: int|
                    0 <= j < v@.len() ==> entry_matches(#[trigger] v@[j], self@[n - 1 - j]),
            decreases i,
        {
            i = i - 1;
            let r = &self.records[i];
            let e = FileEntry {
                filename: r.filename.clone(),
                file_id: r.file_id.clone(),
                upload_date: r.upload_date.clone(),
                size: format_size(r.file_size),
            };
            v.push(e);
        }
        v
    }
}

/// The log after inserting `records`, one after the other, into `log`.
pub open spec fn insert_all(log: Seq<RecordView>, records: Seq<FileRecord>) -> Seq<RecordView>
    decreases records.len(),
{
    if records.len() == 0 {
        log
    } else {
        insert_all(log, records.drop_last()).push(records.last()@)
    }
}

/// Inserting records into an empty store gives a log that holds them in
/// insertion order. Its snapshot therefore holds them in that order, a
/// store reopened from that snapshot holds the same log, and `read_all` on
/// it returns them most recent first.
pub proof fn lemma_round_trip(records: Seq<FileRecord>)
    ensures
        insert_all(Seq::empty(), records) == records_view(records),
        insert_all(Seq::empty(), records).len() == records.len(),
        forall|i: int|
            0 <= i < records.len() ==> #[trigger] insert_all(Seq::empty(), records).reverse()[i]
                == records[records.len() - 1 - i]@,
    decreases records.len(),
{
    if records.len() > 0 {
        lemma_round_trip(records.drop_last());
        assert(records_view(records.drop_last()).push(records.last()@) =~= records_view(records));
    } else {
        assert(records_view(records) =~= Seq::<RecordView>::empty());
    }
}

} // verus!
