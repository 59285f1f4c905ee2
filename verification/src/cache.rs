//! The metadata cache: which paths need their checksum taken again, and what
//! the store holds afterwards.
//!
//! A record is fresh while the file's modification time is the one that the
//! record was taken at. A fresh record is handed out as it is; anything else
//! has its checksum taken and is stored, in the place of the old record where
//! there was one. Paths that are missing, or are no regular files, are passed
//! over.

use crate::checksum::{checksum, md5_hex};
use crate::store::{
    has_unique_paths, index_of, lemma_index_of, lemma_stored, lemma_stored_keeps_paths_unique,
    stored, FileMetadata, MetadataStore, Record,
};
use vstd::prelude::*;

verus! {

/// A regular file as it was found: its modification time, in whole seconds
/// since the epoch, and its content.
pub struct RegularFile {
    pub modified: u64,
    pub content: Vec<u8>,
}

/// A path and what was found there: a regular file, or nothing of the kind.
pub struct ObservedFile {
    pub path: String,
    pub file: Option<RegularFile>,
}

/// What an [`ObservedFile`] states.
pub struct Observed {
    pub path: Seq<char>,
    pub file: Option<(u64, Seq<u8>)>,
}

impl View for ObservedFile {
    type V = Observed;

    open spec fn view(&self) -> Observed {
        Observed {
            path: self.path@,
            file: match self.file {
                Some(file) => Some((file.modified, file.content@)),
                None => None,
            },
        }
    }
}

impl DeepView for ObservedFile {
    type V = Observed;

    open spec fn deep_view(&self) -> Observed {
        self@
    }
}

/// The store holds a record about `path` that was taken at the modification
/// time `modified`, and the caller does not ask to ignore that.
pub open spec fn is_fresh(
    records: Seq<Record>,
    path: Seq<char>,
    modified: u64,
    ignore_modtime: bool,
) -> bool {
    !ignore_modtime && match index_of(records, path) {
        Some(i) => records[i].last_modified == modified,
        None => false,
    }
}

/// The store after a regular file was resolved, and the record handed out for
/// it: the stored record where that is fresh, else a new record with the
/// content's checksum, which is stored.
pub open spec fn resolved(
    records: Seq<Record>,
    path: Seq<char>,
    modified: u64,
    content: Seq<u8>,
    ignore_modtime: bool,
) -> (Seq<Record>, Record) {
    if is_fresh(records, path, modified, ignore_modtime) {
        (records, records[index_of(records, path)->0])
    } else {
        let record = Record { path, checksum: md5_hex(content), last_modified: modified };
        (stored(records, record), record)
    }
}

/// The store after each of `files` was resolved in turn, and the records
/// handed out, one for each regular file, in the order of `files`.
pub open spec fn resolved_all(records: Seq<Record>, files: Seq<Observed>, ignore_modtime: bool) -> (
    Seq<Record>,
    Seq<Record>,
)
    decreases files.len(),
{
    if files.len() == 0 {
        (records, Seq::<Record>::empty())
    } else {
        let (before, handed) = resolved_all(records, files.drop_last(), ignore_modtime);
        match files.last().file {
            Some((modified, content)) => {
                let (after, record) = resolved(
                    before,
                    files.last().path,
                    modified,
                    content,
                    ignore_modtime,
                );
                (after, handed.push(record))
            },
            None => (before, handed),
        }
    }
}

/// The path and modification time of each regular file among `files`, in
/// their order.
pub open spec fn regular_files(files: Seq<Observed>) -> Seq<(Seq<char>, u64)>
    decreases files.len(),
{
    if files.len() == 0 {
        Seq::<(Seq<char>, u64)>::empty()
    } else {
        match files.last().file {
            Some((modified, _)) => regular_files(files.drop_last()).push(
                (files.last().path, modified),
            ),
            None => regular_files(files.drop_last()),
        }
    }
}

/// The stored record about `path`, where it is fresh.
pub fn fresh_record(
    store: &MetadataStore,
    path: &str,
    modified: u64,
    ignore_modtime: bool,
) -> (found: Option<FileMetadata>)
    ensures
        found is Some <==> is_fresh(store@, path@, modified, ignore_modtime),
        found matches Some(record) ==> record@ == store@[index_of(store@, path@)->0],
{
    if ignore_modtime {
        return None;
    }
    match store.find(path) {
        Some(i) => {
            let record = store.get(i);
            if record.last_modified() == modified {
                Some(record)
            } else {
                None
            }
        },
        None => None,
    }
}

/// Stores the record of `path` with a checksum that was just taken, and hands
/// it out.
pub fn refresh(
    store: &mut MetadataStore,
    path: &str,
    modified: u64,
    checksum: String,
) -> (record: FileMetadata)
    ensures
        record@ == (Record { path: path@, checksum: checksum@, last_modified: modified }),
        final(store)@ == stored(old(store)@, record@),
{
    let record = FileMetadata::new(path.to_owned(), checksum, modified);
    store.store(record.clone());
    record
}

/// Resolves one regular file: hands out its record, fresh from the store or
/// taken anew from `content`.
pub fn resolve(
    store: &mut MetadataStore,
    path: &str,
    modified: u64,
    content: &[u8],
    ignore_modtime: bool,
) -> (record: FileMetadata)
    ensures
        (final(store)@, record@) == resolved(
            old(store)@,
            path@,
            modified,
            content@,
            ignore_modtime,
        ),
{
    match fresh_record(store, path, modified, ignore_modtime) {
        Some(record) => record,
        None => refresh(store, path, modified, checksum(content)),
    }
}

/// Resolves each of `files` in turn and hands out the records, one for each
/// regular file. The store then holds every record it held before, refreshed
/// where it was stale, and the new ones.
pub fn get_metadata(
    store: &mut MetadataStore,
    files: &Vec<ObservedFile>,
    ignore_modtime: bool,
) -> (result: Vec<FileMetadata>)
    ensures
        (final(store)@, result.deep_view()) == resolved_all(
            old(store)@,
            files.deep_view(),
            ignore_modtime,
        ),
{
    let mut result: Vec<FileMetadata> = Vec::new();
    let mut i: usize = 0;
    assert(result.deep_view() =~= Seq::<Record>::empty());
    while i < files.len()
        invariant
            i <= files.len(),
            (store@, result.deep_view()) == resolved_all(
                old(store)@,
                files.deep_view().take(i as int),
                ignore_modtime,
            ),
        decreases files.len() - i,
    {
        let ghost seen = files.deep_view().take(i + 1);
        let ghost handed = result.deep_view();
        assert(seen.drop_last() =~= files.deep_view().take(i as int));
        assert(seen.last() == files[i as int]@);
        match &files[i].file {
            Some(file) => {
                let record = resolve(
                    store,
                    files[i].path.as_str(),
                    file.modified,
                    file.content.as_slice(),
                    ignore_modtime,
                );
                result.push(record);
                assert(result.deep_view() =~= handed.push(record@));
            },
            None => {},
        }
        i += 1;
    }
    assert(files.deep_view().take(i as int) =~= files.deep_view());
    result
}

/// A run over no paths hands nothing out and leaves the store as it was
/// loaded, so that it is written back unchanged.
pub proof fn lemma_no_paths_no_change(records: Seq<Record>, ignore_modtime: bool)
    ensures
        resolved_all(records, Seq::<Observed>::empty(), ignore_modtime) == (
            records,
            Seq::<Record>::empty(),
        ),
{
}

/// Exactly the regular files get a record: the records handed out follow the
/// regular files among `files` one for one, each about its file's path and
/// with its file's modification time. Paths that are missing get none.
pub proof fn lemma_one_record_per_regular_file(
    records: Seq<Record>,
    files: Seq<Observed>,
    ignore_modtime: bool,
)
    ensures
        resolved_all(records, files, ignore_modtime).1.len() == regular_files(files).len(),
        forall|k: int|
            0 <= k < regular_files(files).len() ==> {
                let record = #[trigger] resolved_all(records, files, ignore_modtime).1[k];
                &&& record.path == regular_files(files)[k].0
                &&& record.last_modified == regular_files(files)[k].1
            },
    decreases files.len(),
{
    if files.len() > 0 {
        lemma_one_record_per_regular_file(records, files.drop_last(), ignore_modtime);
        let (before, handed) = resolved_all(records, files.drop_last(), ignore_modtime);
        match files.last().file {
            Some((modified, content)) => {
                lemma_index_of(before, files.last().path);
            },
            None => {},
        }
    }
}

/// Where no path is a regular file, nothing is handed out and the store stays
/// as it was.
pub proof fn lemma_missing_files_are_skipped(
    records: Seq<Record>,
    files: Seq<Observed>,
    ignore_modtime: bool,
)
    requires
        forall|i: int| 0 <= i < files.len() ==> (#[trigger] files[i]).file is None,
    ensures
        resolved_all(records, files, ignore_modtime) == (records, Seq::<Record>::empty()),
    decreases files.len(),
{
    if files.len() > 0 {
        assert(files.last().file is None);
        lemma_missing_files_are_skipped(records, files.drop_last(), ignore_modtime);
    }
}

/// A path without a record gets one with the checksum of its content and its
/// modification time, stored at the end.
pub proof fn lemma_new_path_is_recorded(
    records: Seq<Record>,
    path: Seq<char>,
    modified: u64,
    content: Seq<u8>,
    ignore_modtime: bool,
)
    requires
        index_of(records, path) is None,
    ensures
        ({
            let record = Record { path, checksum: md5_hex(content), last_modified: modified };
            resolved(records, path, modified, content, ignore_modtime) == (
                records.push(record),
                record,
            )
        }),
{
}

/// A fresh record is handed out as it is stored, whatever the file's content
/// is by now, and the store stays as it was.
pub proof fn lemma_fresh_record_is_kept(
    records: Seq<Record>,
    path: Seq<char>,
    modified: u64,
    content: Seq<u8>,
)
    requires
        index_of(records, path) matches Some(i) && records[i].last_modified == modified,
    ensures
        resolved(records, path, modified, content, false) == (
            records,
            records[index_of(records, path)->0],
        ),
{
}

/// A stale record is replaced, in its place, by one with the checksum of the
/// content and the new modification time.
pub proof fn lemma_stale_record_is_replaced(
    records: Seq<Record>,
    path: Seq<char>,
    modified: u64,
    content: Seq<u8>,
    ignore_modtime: bool,
)
    requires
        index_of(records, path) matches Some(i) && records[i].last_modified != modified,
    ensures
        ({
            let record = Record { path, checksum: md5_hex(content), last_modified: modified };
            resolved(records, path, modified, content, ignore_modtime) == (
                records.update(index_of(records, path)->0, record),
                record,
            )
        }),
{
}

/// Where the caller asks to ignore modification times, the checksum is taken
/// from the content whatever the store holds.
pub proof fn lemma_ignore_modtime_recomputes(
    records: Seq<Record>,
    path: Seq<char>,
    modified: u64,
    content: Seq<u8>,
)
    ensures
        resolved(records, path, modified, content, true).1 == (Record {
            path,
            checksum: md5_hex(content),
            last_modified: modified,
        }),
{
}

/// On a store that holds nothing, as after it was cleared or before its first
/// use, every regular file has its checksum taken.
pub proof fn lemma_empty_store_recomputes(
    path: Seq<char>,
    modified: u64,
    content: Seq<u8>,
    ignore_modtime: bool,
)
    ensures
        ({
            let record = Record { path, checksum: md5_hex(content), last_modified: modified };
            resolved(Seq::<Record>::empty(), path, modified, content, ignore_modtime) == (
                seq![record],
                record,
            )
        }),
{
    let record = Record { path, checksum: md5_hex(content), last_modified: modified };
    assert(Seq::<Record>::empty().push(record) =~= seq![record]);
}

/// Resolving a file a second time, with its modification time unchanged,
/// hands out the record of the first time and leaves the store alone.
pub proof fn lemma_second_lookup_is_fresh(
    records: Seq<Record>,
    path: Seq<char>,
    modified: u64,
    content: Seq<u8>,
    later_content: Seq<u8>,
    ignore_modtime: bool,
)
    ensures
        ({
            let (after, record) = resolved(records, path, modified, content, ignore_modtime);
            resolved(after, path, modified, later_content, false) == (after, record)
        }),
{
    let (after, record) = resolved(records, path, modified, content, ignore_modtime);
    lemma_index_of(records, path);
    if !is_fresh(records, path, modified, ignore_modtime) {
        lemma_stored(records, record);
    }
}

/// Resolving a file never removes a record, never moves one, and keeps the
/// records about other paths as they are.
pub proof fn lemma_resolved_keeps_other_records(
    records: Seq<Record>,
    path: Seq<char>,
    modified: u64,
    content: Seq<u8>,
    ignore_modtime: bool,
)
    ensures
        resolved(records, path, modified, content, ignore_modtime).0.len() >= records.len(),
        forall|i: int|
            0 <= i < records.len() && records[i].path != path ==> #[trigger] resolved(
                records,
                path,
                modified,
                content,
                ignore_modtime,
            ).0[i] == records[i],
{
    let record = Record { path, checksum: md5_hex(content), last_modified: modified };
    lemma_stored(records, record);
}

/// A store in which no two records are about the same path stays so.
pub proof fn lemma_paths_stay_unique(
    records: Seq<Record>,
    files: Seq<Observed>,
    ignore_modtime: bool,
)
    requires
        has_unique_paths(records),
    ensures
        has_unique_paths(resolved_all(records, files, ignore_modtime).0),
    decreases files.len(),
{
    if files.len() > 0 {
        lemma_paths_stay_unique(records, files.drop_last(), ignore_modtime);
        let (before, handed) = resolved_all(records, files.drop_last(), ignore_modtime);
        match files.last().file {
            Some((modified, content)) => {
                let record = Record {
                    path: files.last().path,
                    checksum: md5_hex(content),
                    last_modified: modified,
                };
                lemma_stored_keeps_paths_unique(before, record);
            },
            None => {},
        }
    }
}

} // verus!
