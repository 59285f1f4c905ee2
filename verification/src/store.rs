//! The metadata store: an ordered collection of records, one for each file
//! path that was ever resolved, looked up by path.

use vstd::prelude::*;

verus! {

/// What a record states: the checksum that a path's content had when its
/// modification time, in whole seconds since the epoch, was `last_modified`.
pub struct Record {
    pub path: Seq<char>,
    pub checksum: Seq<char>,
    pub last_modified: u64,
}

/// The stored metadata of one file.
pub struct FileMetadata {
    path: String,
    checksum: String,
    last_modified: u64,
}

impl View for FileMetadata {
    type V = Record;

    closed spec fn view(&self) -> Record {
        Record {
            path: self.path@,
            checksum: self.checksum@,
            last_modified: self.last_modified,
        }
    }
}

impl DeepView for FileMetadata {
    type V = Record;

    open spec fn deep_view(&self) -> Record {
        self@
    }
}

impl FileMetadata {
    /// The record of `path` with the given checksum and modification time.
    pub fn new(path: String, checksum: String, last_modified: u64) -> (record: Self)
        ensures
            record@ == (Record { path: path@, checksum: checksum@, last_modified }),
    {
        FileMetadata { path, checksum, last_modified }
    }

    /// The path that the record is about.
    pub fn path(&self) -> (path: &str)
        ensures
            path@ == self@.path,
    {
        self.path.as_str()
    }

    /// The checksum of the content, in hexadecimal.
    pub fn checksum(&self) -> (checksum: &str)
        ensures
            checksum@ == self@.checksum,
    {
        self.checksum.as_str()
    }

    /// The modification time at which the checksum was taken.
    pub fn last_modified(&self) -> (last_modified: u64)
        ensures
            last_modified == self@.last_modified,
    {
        self.last_modified
    }
}

impl Clone for FileMetadata {
    fn clone(&self) -> (copy: Self)
        ensures
            copy@ == self@,
    {
        FileMetadata {
            path: self.path.clone(),
            checksum: self.checksum.clone(),
            last_modified: self.last_modified,
        }
    }
}

/// Index of the first record at or after `from` that is about `path`.
pub open spec fn index_from(records: Seq<Record>, path: Seq<char>, from: int) -> Option<int>
    decreases records.len() - from,
{
    if from < 0 || from >= records.len() {
        None
    } else if records[from].path == path {
        Some(from)
    } else {
        index_from(records, path, from + 1)
    }
}

/// Index of the first record that is about `path`.
pub open spec fn index_of(records: Seq<Record>, path: Seq<char>) -> Option<int> {
    index_from(records, path, 0)
}

/// No two records are about the same path.
pub open spec fn has_unique_paths(records: Seq<Record>) -> bool {
    forall|i: int, j: int|
        0 <= i < j < records.len() ==> (#[trigger] records[i]).path != (#[trigger] records[j]).path
}

/// `records` after `record` was stored: in the place of the first record about
/// the same path, or at the end where there was none.
pub open spec fn stored(records: Seq<Record>, record: Record) -> Seq<Record> {
    match index_of(records, record.path) {
        Some(i) => records.update(i, record),
        None => records.push(record),
    }
}

/// What `index_from` finds lies at or after `from`, is about `path`, and no
/// record between is; where it finds nothing, no record from `from` on is
/// about `path`.
pub proof fn lemma_index_from(records: Seq<Record>, path: Seq<char>, from: int)
    requires
        0 <= from,
    ensures
        match index_from(records, path, from) {
            Some(i) => {
                &&& from <= i < records.len()
                &&& records[i].path == path
                &&& forall|j: int| from <= j < i ==> records[j].path != path
            },
            None => forall|j: int| from <= j < records.len() ==> records[j].path != path,
        },
    decreases records.len() - from,
{
    if from < records.len() && records[from].path != path {
        lemma_index_from(records, path, from + 1);
    }
}

/// The index of a path is that of the first record about it.
pub proof fn lemma_index_of(records: Seq<Record>, path: Seq<char>)
    ensures
        match index_of(records, path) {
            Some(i) => {
                &&& 0 <= i < records.len()
                &&& records[i].path == path
                &&& forall|j: int| 0 <= j < i ==> records[j].path != path
            },
            None => forall|j: int| 0 <= j < records.len() ==> records[j].path != path,
        },
{
    lemma_index_from(records, path, 0);
}

/// Storing a record keeps every other path where it was, never removes a
/// record, and makes the record the one found for its path.
pub proof fn lemma_stored(records: Seq<Record>, record: Record)
    ensures
        stored(records, record).len() >= records.len(),
        stored(records, record).len() <= records.len() + 1,
        forall|path: Seq<char>|
            path != record.path ==> #[trigger] index_of(stored(records, record), path) == index_of(
                records,
                path,
            ),
        forall|i: int|
            0 <= i < records.len() && records[i].path != record.path ==> #[trigger] stored(
                records,
                record,
            )[i] == records[i],
        index_of(stored(records, record), record.path) matches Some(i) && stored(records, record)[i]
            == record,
{
    let after = stored(records, record);
    lemma_index_of(records, record.path);
    lemma_index_of(after, record.path);
    assert forall|j: int| 0 <= j < after.len() implies (#[trigger] after[j]).path == (if j
        < records.len() {
        records[j].path
    } else {
        record.path
    }) by {}
    assert forall|path: Seq<char>| path != record.path implies #[trigger] index_of(after, path)
        == index_of(records, path) by {
        lemma_index_of(records, path);
        lemma_index_of(after, path);
        match (index_of(records, path), index_of(after, path)) {
            (Some(a), Some(b)) => {
                assert(after[a].path == path);
                assert(after[b].path == path);
                assert(records[b].path == path);
            },
            (Some(a), None) => {
                assert(after[a].path == path);
            },
            (None, Some(b)) => {
                assert(after[b].path == path);
                assert(records[b].path == path);
            },
            (None, None) => {},
        }
    }
    match index_of(records, record.path) {
        Some(i) => {
            assert(after[i] == record);
            assert(after[i].path == record.path);
        },
        None => {
            assert(after[records.len() as int] == record);
            assert(after[records.len() as int].path == record.path);
        },
    }
}

/// Storing a record in a store of unique paths leaves the paths unique.
pub proof fn lemma_stored_keeps_paths_unique(records: Seq<Record>, record: Record)
    requires
        has_unique_paths(records),
    ensures
        has_unique_paths(stored(records, record)),
{
    lemma_index_of(records, record.path);
}

/// The ordered collection of all records.
pub struct MetadataStore {
    records: Vec<FileMetadata>,
}

impl View for MetadataStore {
    type V = Seq<Record>;

    closed spec fn view(&self) -> Seq<Record> {
        self.records.deep_view()
    }
}

impl MetadataStore {
    /// The store that holds nothing.
    pub fn new() -> (store: Self)
        ensures
            store@ == Seq::<Record>::empty(),
    {
        let store = MetadataStore { records: Vec::new() };
        assert(store.records.deep_view() =~= Seq::<Record>::empty());
        store
    }

    /// The store as it was read from its backing file: the records that the
    /// file's content parsed to, in their order, and nothing where the file
    /// was absent or its content did not parse.
    pub fn load(parsed: Option<Vec<FileMetadata>>) -> (store: Self)
        ensures
            store@ == match parsed {
                Some(records) => records.deep_view(),
                None => Seq::<Record>::empty(),
            },
    {
        match parsed {
            Some(records) => MetadataStore { records },
            None => MetadataStore::new(),
        }
    }

    /// All records, in their order, as they are written back.
    pub fn records(&self) -> (records: &Vec<FileMetadata>)
        ensures
            records.deep_view() == self@,
    {
        &self.records
    }

    /// The number of records.
    pub fn len(&self) -> (len: usize)
        ensures
            len == self@.len(),
    {
        self.records.len()
    }

    /// Removes every record.
    pub fn clear(&mut self)
        ensures
            final(self)@ == Seq::<Record>::empty(),
    {
        self.records.clear();
        assert(self.records.deep_view() =~= Seq::<Record>::empty());
    }

    /// Index of the first record about `path`.
    pub fn find(&self, path: &str) -> (found: Option<usize>)
        ensures
            match found {
                Some(i) => i < self@.len() && index_of(self@, path@) == Some(i as int),
                None => index_of(self@, path@) is None,
            },
    {
        let mut i: usize = 0;
        while i < self.records.len()
            invariant
                i <= self.records.len(),
                index_of(self@, path@) == index_from(self@, path@, i as int),
            decreases self.records.len() - i,
        {
            if *self.records[i].path() == *path {
                return Some(i);
            }
            i += 1;
        }
        None
    }

    /// A copy of the record at `index`.
    pub fn get(&self, index: usize) -> (record: FileMetadata)
        requires
            index < self@.len(),
        ensures
            record@ == self@[index as int],
    {
        self.records[index].clone()
    }

    /// Stores `record`: in the place of the first record about the same path,
    /// or at the end where there is none.
    pub fn store(&mut self, record: FileMetadata)
        ensures
            final(self)@ == stored(old(self)@, record@),
    {
        match self.find(record.path()) {
            Some(i) => {
                self.records.set(i, record);
                assert(self.records.deep_view() =~= old(self)@.update(i as int, record@));
            },
            None => {
                self.records.push(record);
                assert(self.records.deep_view() =~= old(self)@.push(record@));
            },
        }
    }
}

} // verus!
