use moddedboost::launch::{
    executable_filter, game_argument, launch_commands, lowered_path_passes, path_passes,
    search_root, shell_arguments, ToolCommand,
};
use moddedboost::platform::OS;

fn lines(commands: &Vec<ToolCommand>) -> Vec<(String, Vec<String>)> {
    commands.iter().map(|c| (c.program.clone(), c.args.clone())).collect()
}

#[test]
fn windows_starts_the_emulator_directly() {
    let commands = launch_commands(Some(OS::Windows), "C:\\rpcs3\\rpcs3.exe", "npjb");
    assert_eq!(
        lines(&commands),
        vec![(
            "C:\\rpcs3\\rpcs3.exe".to_string(),
            vec!["--no-gui".to_string(), "%RPCS3_GAMEID%:npjb".to_string()]
        )]
    );
}

#[test]
fn linux_makes_the_emulator_executable_first() {
    let commands = launch_commands(Some(OS::Linux), "/opt/rpcs3.AppImage", "bljs");
    assert_eq!(
        lines(&commands),
        vec![
            ("chmod".to_string(), vec!["+x".to_string(), "/opt/rpcs3.AppImage".to_string()]),
            (
                "/opt/rpcs3.AppImage".to_string(),
                vec!["--no-gui".to_string(), "%RPCS3_GAMEID%:bljs".to_string()]
            ),
        ]
    );
}

#[test]
fn nothing_is_started_elsewhere() {
    assert!(launch_commands(Some(OS::Macos), "/Applications/RPCS3.app", "npjb").is_empty());
    assert!(launch_commands(None, "/bin/rpcs3", "npjb").is_empty());
    assert_eq!(game_argument(""), "%RPCS3_GAMEID%:");
}

#[test]
fn executable_filters_by_release() {
    assert_eq!(executable_filter("npjb"), "npjb00512\\usrdir\\eboot.bin");
    assert_eq!(executable_filter("bljs"), "BLJS10250\\usrdir\\eboot.bin");
    assert_eq!(executable_filter("NPJB"), "");
    assert_eq!(executable_filter(""), "");
}

#[test]
fn search_root_drops_the_emulator_name() {
    assert_eq!(search_root("C:\\rpcs3\\rpcs3.exe"), "C:\\rpcs3\\");
    assert_eq!(search_root("/opt/rpcs3"), "/opt/rpcs3");
    assert_eq!(search_root("rpcs3.exerpcs3.exe"), "");
}

#[test]
fn shell_arguments_need_an_executable() {
    assert_eq!(shell_arguments("C:\\rpcs3.exe", ""), None);
    assert_eq!(
        shell_arguments("C:\\rpcs3.exe", "C:\\game\\eboot.bin"),
        Some(vec!["/C".to_string(), "C:\\rpcs3.exe".to_string(), "C:\\game\\eboot.bin".to_string()])
    );
}

#[test]
fn paths_pass_a_filter_in_lower_case() {
    assert!(path_passes("/Games/NPJB00512/PARAM.SFO", Some("npjb00512/param.sfo")));
    assert!(!path_passes("/Games/NPJB00512/PARAM.SFO", Some("NPJB00512")));
    assert!(path_passes("/anything", None));
    assert!(path_passes("", None));
    assert!(path_passes("/x", Some("")));
    assert!(!path_passes("/games", Some("games.yml")));
    assert!(lowered_path_passes("/a/games.yml", Some("games.yml")));
    assert!(!lowered_path_passes("/a/Games.yml", Some("games.yml")));
}
