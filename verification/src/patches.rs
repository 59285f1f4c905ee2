//! The emulator's patch settings, as far as the game's patch is concerned.
//!
//! The patch file is a mapping from patches, named by the hash of the code
//! they apply to, down through patch names, game titles and title ids to
//! versions, each of which is switched on or off.

use crate::dict::{Dict, Entry};
use vstd::prelude::*;

verus! {

/// Name of the patch in the emulator's patch file: the hash of the code
/// that it applies to.
pub const PATCH_KEY: &'static str = "PPU-a787b532b03b2ebc3970a1d405639b05bec1a506";

/// Name of the patch setting that the game needs.
pub const PATCH_NAME: &'static str = "AddUnitSupport";

/// Title under which the emulator lists the game.
pub const GAME_TITLE_NAME: &'static str = "Gundam Extreme Vs. Full Boost";

/// The key for every version of a release.
pub const ALL_VERSIONS: &'static str = "All";

/// Whether a patch is switched on for a version of a release. The patch file
/// writes this in one of two shapes: a bare truth value, or a mapping with
/// the one key `Enabled`.
#[allow(non_snake_case)]
#[derive(Clone, Copy, PartialEq, Eq, Structural, Debug)]
pub enum GameVersion {
    Bool(bool),
    Struct { Enabled: bool },
}

impl GameVersion {
    /// What the entry says, whatever its shape.
    pub open spec fn enabled(self) -> bool {
        match self {
            GameVersion::Bool(on) => on,
            GameVersion::Struct { Enabled } => Enabled,
        }
    }

    /// Whether the patch is switched on.
    pub fn is_enabled(&self) -> (on: bool)
        ensures
            on == self.enabled(),
    {
        match self {
            GameVersion::Bool(on) => *on,
            GameVersion::Struct { Enabled } => *Enabled,
        }
    }
}

impl Entry for GameVersion {
    type Model = GameVersion;

    open spec fn model(&self) -> GameVersion {
        *self
    }

    fn same(&self, other: &Self) -> (same: bool) {
        *self == *other
    }

    fn copy(&self) -> (copy: Self) {
        *self
    }
}

/// The versions of one release, by their names.
pub struct GameId {
    pub versions: Dict<GameVersion>,
}

/// The releases of one game, by their title ids.
pub struct GameTitle {
    pub ids: Dict<GameId>,
}

/// The games that one patch setting applies to, by their titles.
pub struct Setting {
    pub titles: Dict<GameTitle>,
}

/// The settings of one patch, by their names.
pub struct PpuSpu {
    pub settings: Dict<Setting>,
}

impl Entry for GameId {
    type Model = Map<Seq<char>, GameVersion>;

    open spec fn model(&self) -> Self::Model {
        self.versions.model()
    }

    fn same(&self, other: &Self) -> (same: bool) {
        self.versions.same(&other.versions)
    }

    fn copy(&self) -> (copy: Self) {
        GameId { versions: self.versions.duplicate() }
    }
}

impl Entry for GameTitle {
    type Model = Map<Seq<char>, Map<Seq<char>, GameVersion>>;

    open spec fn model(&self) -> Self::Model {
        self.ids.model()
    }

    fn same(&self, other: &Self) -> (same: bool) {
        self.ids.same(&other.ids)
    }

    fn copy(&self) -> (copy: Self) {
        GameTitle { ids: self.ids.duplicate() }
    }
}

impl Entry for Setting {
    type Model = Map<Seq<char>, Map<Seq<char>, Map<Seq<char>, GameVersion>>>;

    open spec fn model(&self) -> Self::Model {
        self.titles.model()
    }

    fn same(&self, other: &Self) -> (same: bool) {
        self.titles.same(&other.titles)
    }

    fn copy(&self) -> (copy: Self) {
        Setting { titles: self.titles.duplicate() }
    }
}

impl Entry for PpuSpu {
    type Model = Map<Seq<char>, Map<Seq<char>, Map<Seq<char>, Map<Seq<char>, GameVersion>>>>;

    open spec fn model(&self) -> Self::Model {
        self.settings.model()
    }

    fn same(&self, other: &Self) -> (same: bool) {
        self.settings.same(&other.settings)
    }

    fn copy(&self) -> (copy: Self) {
        PpuSpu { settings: self.settings.duplicate() }
    }
}

/// What the patch's entry has to be for the game: the one setting, for the
/// one title, with both releases switched on for all versions, each in the
/// shape `on`.
pub open spec fn activated(on: GameVersion) -> Map<
    Seq<char>,
    Map<Seq<char>, Map<Seq<char>, Map<Seq<char>, GameVersion>>>,
> {
    let versions = Map::<Seq<char>, GameVersion>::empty().insert(ALL_VERSIONS@, on);
    let ids = Map::<Seq<char>, Map<Seq<char>, GameVersion>>::empty().insert(
        "BLJS10250"@,
        versions,
    ).insert("NPJB00512"@, versions);
    let titles = Map::<Seq<char>, Map<Seq<char>, Map<Seq<char>, GameVersion>>>::empty().insert(
        GAME_TITLE_NAME@,
        ids,
    );
    Map::<Seq<char>, Map<Seq<char>, Map<Seq<char>, Map<Seq<char>, GameVersion>>>>::empty().insert(
        PATCH_NAME@,
        titles,
    )
}

/// The patch's entry that switches the game's patch on, in the shape `on`.
pub fn activated_entry(on: GameVersion) -> (entry: PpuSpu)
    ensures
        entry.model() == activated(on),
{
    let mut disc: Dict<GameVersion> = Dict::new();
    disc.insert(String::from_str(ALL_VERSIONS), on);
    let mut digital: Dict<GameVersion> = Dict::new();
    digital.insert(String::from_str(ALL_VERSIONS), on);
    let mut ids: Dict<GameId> = Dict::new();
    ids.insert(String::from_str("BLJS10250"), GameId { versions: disc });
    ids.insert(String::from_str("NPJB00512"), GameId { versions: digital });
    let mut titles: Dict<GameTitle> = Dict::new();
    titles.insert(String::from_str(GAME_TITLE_NAME), GameTitle { ids });
    let mut settings: Dict<Setting> = Dict::new();
    settings.insert(String::from_str(PATCH_NAME), Setting { titles });
    PpuSpu { settings }
}

/// The patch file says that the game's patch is switched on: it has the
/// patch's entry, and that is the activated entry in one of the two shapes.
pub open spec fn is_activated(
    file: Map<
        Seq<char>,
        Map<Seq<char>, Map<Seq<char>, Map<Seq<char>, Map<Seq<char>, GameVersion>>>>,
    >,
) -> bool {
    file.contains_key(PATCH_KEY@) && (file[PATCH_KEY@] == activated(
        GameVersion::Struct { Enabled: true },
    ) || file[PATCH_KEY@] == activated(GameVersion::Bool(true)))
}

/// Whether the patch file says that the game's patch is switched on.
pub fn check_activated(file: &Dict<PpuSpu>) -> (on: bool)
    ensures
        on == is_activated(file.model()),
{
    match file.get(PATCH_KEY) {
        Some(entry) => {
            let structured = activated_entry(GameVersion::Struct { Enabled: true });
            let bare = activated_entry(GameVersion::Bool(true));
            entry.same(&structured) || entry.same(&bare)
        },
        None => false,
    }
}

/// The patch file after the game's patch was activated: an entry that the
/// file has for the patch stays as it is, and where it has none, the
/// activated entry is added.
pub open spec fn with_patch(
    file: Map<
        Seq<char>,
        Map<Seq<char>, Map<Seq<char>, Map<Seq<char>, Map<Seq<char>, GameVersion>>>>,
    >,
) -> Map<Seq<char>, Map<Seq<char>, Map<Seq<char>, Map<Seq<char>, Map<Seq<char>, GameVersion>>>>> {
    if file.contains_key(PATCH_KEY@) {
        file
    } else {
        file.insert(PATCH_KEY@, activated(GameVersion::Struct { Enabled: true }))
    }
}

/// Activates the game's patch in the patch file.
pub fn activate(file: &mut Dict<PpuSpu>)
    ensures
        final(file).model() == with_patch(old(file).model()),
{
    if !file.contains(PATCH_KEY) {
        file.insert(
            String::from_str(PATCH_KEY),
            activated_entry(GameVersion::Struct { Enabled: true }),
        );
    }
}

/// A file in which the patch was activated, and which had no entry for it
/// before, says so.
pub proof fn lemma_activate_activates(
    file: Map<
        Seq<char>,
        Map<Seq<char>, Map<Seq<char>, Map<Seq<char>, Map<Seq<char>, GameVersion>>>>,
    >,
)
    requires
        !file.contains_key(PATCH_KEY@),
    ensures
        is_activated(with_patch(file)),
{
}

/// Activating twice is the same as activating once.
pub proof fn lemma_activate_twice(
    file: Map<
        Seq<char>,
        Map<Seq<char>, Map<Seq<char>, Map<Seq<char>, Map<Seq<char>, GameVersion>>>>,
    >,
)
    ensures
        with_patch(with_patch(file)) == with_patch(file),
{
}

} // verus!
