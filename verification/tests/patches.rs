use moddedboost::dict::{Dict, Entry};
use moddedboost::patches::{
    activate, activated_entry, check_activated, GameId, GameTitle, GameVersion, PpuSpu, Setting,
    ALL_VERSIONS, GAME_TITLE_NAME, PATCH_KEY, PATCH_NAME,
};

fn release(on: GameVersion) -> GameId {
    let mut versions = Dict::new();
    versions.insert(ALL_VERSIONS.to_string(), on);
    GameId { versions }
}

fn entry_with(ids: Vec<(&str, GameVersion)>) -> PpuSpu {
    let mut dict = Dict::new();
    for (id, on) in ids {
        dict.insert(id.to_string(), release(on));
    }
    let mut titles = Dict::new();
    titles.insert(GAME_TITLE_NAME.to_string(), GameTitle { ids: dict });
    let mut settings = Dict::new();
    settings.insert(PATCH_NAME.to_string(), Setting { titles });
    PpuSpu { settings }
}

fn file_with(entry: PpuSpu) -> Dict<PpuSpu> {
    let mut file = Dict::new();
    file.insert(PATCH_KEY.to_string(), entry);
    file
}

#[test]
fn both_shapes_of_the_activated_entry_count() {
    let on = GameVersion::Struct { Enabled: true };
    assert!(check_activated(&file_with(entry_with(vec![("BLJS10250", on), ("NPJB00512", on)]))));
    let bare = GameVersion::Bool(true);
    assert!(check_activated(&file_with(entry_with(vec![("NPJB00512", bare), ("BLJS10250", bare)]))));
}

#[test]
fn mixed_shapes_do_not_count() {
    let file = file_with(entry_with(vec![
        ("BLJS10250", GameVersion::Bool(true)),
        ("NPJB00512", GameVersion::Struct { Enabled: true }),
    ]));
    assert!(!check_activated(&file));
}

#[test]
fn a_switched_off_or_missing_release_does_not_count() {
    let on = GameVersion::Bool(true);
    assert!(!check_activated(&file_with(entry_with(vec![
        ("BLJS10250", on),
        ("NPJB00512", GameVersion::Bool(false)),
    ]))));
    assert!(!check_activated(&file_with(entry_with(vec![("BLJS10250", on)]))));
    assert!(!check_activated(&file_with(entry_with(vec![
        ("BLJS10250", on),
        ("NPJB00512", on),
        ("EXTRA00000", on),
    ]))));
    assert!(!check_activated(&Dict::new()));
}

#[test]
fn a_later_entry_of_a_name_replaces_an_earlier_one() {
    let on = GameVersion::Bool(true);
    let file = file_with(entry_with(vec![
        ("BLJS10250", GameVersion::Bool(false)),
        ("NPJB00512", on),
        ("BLJS10250", on),
    ]));
    assert!(check_activated(&file));
    let mut dict: Dict<GameVersion> = Dict::new();
    dict.insert("a".to_string(), GameVersion::Bool(false));
    dict.insert("a".to_string(), GameVersion::Bool(true));
    assert_eq!(dict.get("a"), Some(&GameVersion::Bool(true)));
    assert_eq!(dict.get("b"), None);
    assert!(dict.contains("a"));
    assert!(!dict.contains("A"));
}

#[test]
fn activating_adds_the_entry_where_there_is_none() {
    let mut file: Dict<PpuSpu> = Dict::new();
    file.insert("PPU-other".to_string(), entry_with(vec![]));
    assert!(!check_activated(&file));
    activate(&mut file);
    assert!(check_activated(&file));
    assert!(file.contains("PPU-other"));
    let added = file.get(PATCH_KEY).expect("added");
    assert!(added.same(&activated_entry(GameVersion::Struct { Enabled: true })));
    assert!(!added.same(&activated_entry(GameVersion::Bool(true))));
}

#[test]
fn activating_keeps_an_entry_that_is_there() {
    let off = entry_with(vec![("BLJS10250", GameVersion::Bool(false))]);
    let mut file = file_with(off.copy());
    activate(&mut file);
    assert!(!check_activated(&file));
    assert!(file.get(PATCH_KEY).expect("kept").same(&off));
    activate(&mut file);
    assert!(file.get(PATCH_KEY).expect("kept").same(&off));
}

#[test]
fn mappings_are_compared_by_content_not_by_order() {
    let a = entry_with(vec![("x", GameVersion::Bool(true)), ("y", GameVersion::Bool(false))]);
    let b = entry_with(vec![("y", GameVersion::Bool(false)), ("x", GameVersion::Bool(true))]);
    let c = entry_with(vec![("x", GameVersion::Bool(true))]);
    assert!(a.same(&b));
    assert!(b.same(&a));
    assert!(!a.same(&c));
    assert!(!c.same(&a));
    assert!(a.copy().same(&a));
    assert!(a.settings.duplicate().same(&b.settings));
}
