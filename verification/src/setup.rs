//! Setting an emulator installation up for the game: which of the game's
//! archives are unpacked, from where, and into which folders.
//!
//! The archives are sought below both releases of the game. Those of the
//! digital release are taken; where the disc release has an archive of the
//! same name, the one that was modified later is taken, and the disc's where
//! neither is later. An archive that only the disc release has is left out.

use crate::dict::{Dict, Entry};
use vstd::prelude::*;

verus! {

/// The number of archives that the game's patches come in.
pub const ARCHIVE_COUNT: usize = 6;

/// The ending of an archive's file name.
pub const ARCHIVE_ENDING: &'static str = ".psarc";

/// Name of the folder that the archive of number `index` is unpacked into.
pub open spec fn folder_of(index: int) -> Seq<char> {
    if index == 0 {
        "patch_01_00"@
    } else if index == 1 {
        "patch_02_00"@
    } else if index == 2 {
        "patch_03_00"@
    } else if index == 3 {
        "patch_04_00"@
    } else if index == 4 {
        "patch_05_00"@
    } else {
        "patch_06_00"@
    }
}

/// File name of the archive of number `index`.
pub open spec fn archive_of(index: int) -> Seq<char> {
    folder_of(index) + ARCHIVE_ENDING@
}

/// Name of the folder that the archive of number `index` is unpacked into.
pub fn folder_name(index: usize) -> (name: &'static str)
    requires
        index < ARCHIVE_COUNT,
    ensures
        name@ == folder_of(index as int),
{
    if index == 0 {
        "patch_01_00"
    } else if index == 1 {
        "patch_02_00"
    } else if index == 2 {
        "patch_03_00"
    } else if index == 3 {
        "patch_04_00"
    } else if index == 4 {
        "patch_05_00"
    } else {
        "patch_06_00"
    }
}

/// File name of the archive of number `index`.
pub fn archive_name(index: usize) -> (name: String)
    requires
        index < ARCHIVE_COUNT,
    ensures
        name@ == archive_of(index as int),
{
    let mut name = String::from_str(folder_name(index));
    name.append(ARCHIVE_ENDING);
    name
}

/// The folders that an installation holds once it is set up.
pub fn required_folders() -> (folders: Vec<String>)
    ensures
        folders.len() == ARCHIVE_COUNT,
        forall|i: int| 0 <= i < ARCHIVE_COUNT ==> (#[trigger] folders[i])@ == folder_of(i),
{
    let mut folders: Vec<String> = Vec::new();
    let mut i: usize = 0;
    while i < ARCHIVE_COUNT
        invariant
            i <= ARCHIVE_COUNT,
            folders.len() == i,
            forall|k: int| 0 <= k < i ==> (#[trigger] folders[k])@ == folder_of(k),
        decreases ARCHIVE_COUNT - i,
    {
        folders.push(String::from_str(folder_name(i)));
        i += 1;
    }
    folders
}

/// The file names of the archives that are unpacked.
pub fn archive_names() -> (names: Vec<String>)
    ensures
        names.len() == ARCHIVE_COUNT,
        forall|i: int| 0 <= i < ARCHIVE_COUNT ==> (#[trigger] names[i])@ == archive_of(i),
{
    let mut names: Vec<String> = Vec::new();
    let mut i: usize = 0;
    while i < ARCHIVE_COUNT
        invariant
            i <= ARCHIVE_COUNT,
            names.len() == i,
            forall|k: int| 0 <= k < i ==> (#[trigger] names[k])@ == archive_of(k),
        decreases ARCHIVE_COUNT - i,
    {
        names.push(archive_name(i));
        i += 1;
    }
    names
}

/// Whether `file_name` is that of one of the archives.
pub fn is_archive_name(file_name: &str) -> (found: bool)
    ensures
        found == (exists|i: int| 0 <= i < ARCHIVE_COUNT && file_name@ == archive_of(i)),
{
    let mut i: usize = 0;
    while i < ARCHIVE_COUNT
        invariant
            i <= ARCHIVE_COUNT,
            forall|k: int| 0 <= k < i ==> file_name@ != archive_of(k),
        decreases ARCHIVE_COUNT - i,
    {
        let name = archive_name(i);
        if *name.as_str() == *file_name {
            return true;
        }
        i += 1;
    }
    false
}

/// An archive as it was found below a release: its file name, its path, and
/// when it was modified, in nanoseconds since the epoch.
pub struct FoundArchive {
    pub name: String,
    pub path: String,
    pub modified: u128,
}

/// What a [`FoundArchive`] states.
pub struct Found {
    pub name: Seq<char>,
    pub path: Seq<char>,
    pub modified: u128,
}

impl View for FoundArchive {
    type V = Found;

    open spec fn view(&self) -> Found {
        Found { name: self.name@, path: self.path@, modified: self.modified }
    }
}

impl DeepView for FoundArchive {
    type V = Found;

    open spec fn deep_view(&self) -> Found {
        self@
    }
}

/// The path of an archive.
pub struct ArchivePath {
    pub path: String,
}

impl Entry for ArchivePath {
    type Model = Seq<char>;

    open spec fn model(&self) -> Seq<char> {
        self.path@
    }

    fn same(&self, other: &Self) -> (same: bool) {
        self.path == other.path
    }

    fn copy(&self) -> (copy: Self) {
        ArchivePath { path: self.path.clone() }
    }
}

/// A path to take an archive from, and when that archive was modified.
pub struct Candidate {
    pub path: String,
    pub modified: u128,
}

impl Entry for Candidate {
    type Model = (Seq<char>, u128);

    open spec fn model(&self) -> (Seq<char>, u128) {
        (self.path@, self.modified)
    }

    fn same(&self, other: &Self) -> (same: bool) {
        self.path == other.path && self.modified == other.modified
    }

    fn copy(&self) -> (copy: Self) {
        Candidate { path: self.path.clone(), modified: self.modified }
    }
}

/// For each file name among `found`, the archive of that name that was found
/// last: its path and when it was modified.
pub open spec fn candidates(found: Seq<Found>) -> Map<Seq<char>, (Seq<char>, u128)>
    decreases found.len(),
{
    if found.len() == 0 {
        Map::empty()
    } else {
        candidates(found.drop_last()).insert(
            found.last().name,
            (found.last().path, found.last().modified),
        )
    }
}

/// For each file name among `found`, the path of the archive of that name
/// that was found last.
pub open spec fn paths(found: Seq<Found>) -> Map<Seq<char>, Seq<char>>
    decreases found.len(),
{
    if found.len() == 0 {
        Map::empty()
    } else {
        paths(found.drop_last()).insert(found.last().name, found.last().path)
    }
}

/// Where each archive is taken from: by file name, the path of the digital
/// release's archive or, where the disc release has one of that name that is
/// not older, the path of that.
pub open spec fn chosen(digital: Seq<Found>, disc: Seq<Found>) -> Map<Seq<char>, Seq<char>>
    decreases disc.len(),
{
    if disc.len() == 0 {
        paths(digital)
    } else {
        let before = chosen(digital, disc.drop_last());
        let other = disc.last();
        if candidates(digital).contains_key(other.name) {
            let own = candidates(digital)[other.name];
            before.insert(
                other.name,
                if own.1 > other.modified {
                    own.0
                } else {
                    other.path
                },
            )
        } else {
            before
        }
    }
}

/// Chooses where each archive is taken from.
pub fn choose_sources(digital: &Vec<FoundArchive>, disc: &Vec<FoundArchive>) -> (sources: Dict<
    ArchivePath,
>)
    ensures
        sources.model() == chosen(digital.deep_view(), disc.deep_view()),
{
    let ghost all_digital = digital.deep_view();
    let ghost all_disc = disc.deep_view();
    let mut own: Dict<Candidate> = Dict::new();
    let mut sources: Dict<ArchivePath> = Dict::new();
    let mut i: usize = 0;
    assert(all_digital.take(0) =~= Seq::<Found>::empty());
    while i < digital.len()
        invariant
            i <= digital.len(),
            all_digital == digital.deep_view(),
            own.model() == candidates(all_digital.take(i as int)),
            sources.model() == paths(all_digital.take(i as int)),
        decreases digital.len() - i,
    {
        proof {
            let seen = all_digital.take(i + 1);
            assert(seen.drop_last() =~= all_digital.take(i as int));
            assert(seen.last() == digital[i as int]@);
        }
        own.insert(
            digital[i].name.clone(),
            Candidate { path: digital[i].path.clone(), modified: digital[i].modified },
        );
        sources.insert(digital[i].name.clone(), ArchivePath { path: digital[i].path.clone() });
        i += 1;
    }
    assert(all_digital.take(i as int) =~= all_digital);
    let mut k: usize = 0;
    assert(all_disc.take(0) =~= Seq::<Found>::empty());
    while k < disc.len()
        invariant
            k <= disc.len(),
            all_disc == disc.deep_view(),
            own.model() == candidates(all_digital),
            sources.model() == chosen(all_digital, all_disc.take(k as int)),
        decreases disc.len() - k,
    {
        proof {
            let seen = all_disc.take(k + 1);
            assert(seen.drop_last() =~= all_disc.take(k as int));
            assert(seen.last() == disc[k as int]@);
        }
        match own.get(disc[k].name.as_str()) {
            Some(candidate) => {
                let path = if candidate.modified > disc[k].modified {
                    candidate.path.clone()
                } else {
                    disc[k].path.clone()
                };
                sources.insert(disc[k].name.clone(), ArchivePath { path });
            },
            None => {},
        }
        k += 1;
    }
    assert(all_disc.take(k as int) =~= all_disc);
    sources
}

/// What is done for one archive: its folder is made, and the archive at
/// `source` is unpacked into it where there is one.
pub struct Extraction {
    pub folder: String,
    pub source: Option<String>,
}

/// The plan is the one for `sources`: one step for each archive, in the order
/// of their numbers, into the archive's folder, from the archive's source.
pub open spec fn is_plan_for(plan: Seq<Extraction>, sources: Map<Seq<char>, Seq<char>>) -> bool {
    &&& plan.len() == ARCHIVE_COUNT
    &&& forall|i: int|
        0 <= i < ARCHIVE_COUNT ==> {
            &&& (#[trigger] plan[i]).folder@ == folder_of(i)
            &&& match plan[i].source {
                Some(path) => sources.contains_key(archive_of(i)) && sources[archive_of(i)]
                    == path@,
                None => !sources.contains_key(archive_of(i)),
            }
        }
}

/// The steps that set an installation up from `sources`.
pub fn extraction_plan(sources: &Dict<ArchivePath>) -> (plan: Vec<Extraction>)
    ensures
        is_plan_for(plan@, sources.model()),
{
    let mut plan: Vec<Extraction> = Vec::new();
    let mut i: usize = 0;
    while i < ARCHIVE_COUNT
        invariant
            i <= ARCHIVE_COUNT,
            plan.len() == i,
            forall|k: int|
                0 <= k < i ==> {
                    &&& (#[trigger] plan[k]).folder@ == folder_of(k)
                    &&& match plan[k].source {
                        Some(path) => sources.model().contains_key(archive_of(k))
                            && sources.model()[archive_of(k)] == path@,
                        None => !sources.model().contains_key(archive_of(k)),
                    }
                },
        decreases ARCHIVE_COUNT - i,
    {
        let name = archive_name(i);
        let source = match sources.get(name.as_str()) {
            Some(found) => Some(found.path.clone()),
            None => None,
        };
        plan.push(Extraction { folder: String::from_str(folder_name(i)), source });
        i += 1;
    }
    plan
}

/// Where the disc release has no archives, those of the digital release are
/// taken.
pub proof fn lemma_digital_alone(digital: Seq<Found>)
    ensures
        chosen(digital, Seq::<Found>::empty()) == paths(digital),
{
}

/// An archive that the digital release lacks is never taken from the disc
/// release: only names of the digital release have a source.
pub proof fn lemma_only_digital_names(digital: Seq<Found>, disc: Seq<Found>)
    ensures
        chosen(digital, disc).dom() =~= paths(digital).dom(),
        paths(digital).dom() =~= candidates(digital).dom(),
    decreases disc.len(), digital.len(),
{
    if disc.len() > 0 {
        lemma_only_digital_names(digital, disc.drop_last());
    } else if digital.len() > 0 {
        lemma_only_digital_names(digital.drop_last(), disc);
    }
}

} // verus!
