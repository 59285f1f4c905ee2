use moddedboost::platform::{
    os_from_extension, os_from_lowered_extension, os_from_name, probes_valid, sfo_tool_name,
    sync_tool_name, sync_tool_path, OS,
};

#[test]
fn an_emulator_is_valid_by_what_starting_it_brought() {
    for made_executable in [false, true] {
        for answers in [false, true] {
            assert_eq!(probes_valid(OS::Windows, made_executable, answers), answers);
            let both = made_executable && answers;
            assert_eq!(probes_valid(OS::Linux, made_executable, answers), both);
            assert!(!probes_valid(OS::Macos, made_executable, answers));
        }
    }
}

#[test]
fn operating_systems_by_name() {
    assert_eq!(os_from_name("windows"), Some(OS::Windows));
    assert_eq!(os_from_name("linux"), Some(OS::Linux));
    assert_eq!(os_from_name("macos"), Some(OS::Macos));
    assert_eq!(os_from_name("freebsd"), None);
    assert_eq!(os_from_name("Linux"), None);
    assert_eq!(os_from_name(""), None);
}

#[test]
fn operating_systems_by_extension() {
    assert_eq!(os_from_extension("exe"), Some(OS::Windows));
    assert_eq!(os_from_extension("EXE"), Some(OS::Windows));
    assert_eq!(os_from_extension("AppImage"), Some(OS::Linux));
    assert_eq!(os_from_extension("app"), Some(OS::Macos));
    assert_eq!(os_from_extension("App"), Some(OS::Macos));
    assert_eq!(os_from_extension("sh"), None);
    assert_eq!(os_from_extension(""), None);
    assert_eq!(os_from_lowered_extension("appimage"), Some(OS::Linux));
    assert_eq!(os_from_lowered_extension("AppImage"), None);
}

#[test]
fn tool_names_by_operating_system() {
    assert_eq!(sync_tool_name(OS::Windows), "rclone-win.exe");
    assert_eq!(sync_tool_name(OS::Linux), "rclone-linux.exe");
    assert_eq!(sync_tool_name(OS::Macos), "rclone-mac.exe");
    assert_eq!(sync_tool_path(OS::Windows), "tools/rclone/rclone-win.exe");
    assert_eq!(sync_tool_path(OS::Linux), "tools/rclone/rclone-linux.exe");
    assert_eq!(sync_tool_path(OS::Macos), "tools/rclone/rclone-mac.exe");
    assert_eq!(sfo_tool_name(OS::Windows), Some("sfo.exe"));
    assert_eq!(sfo_tool_name(OS::Linux), Some("sfo"));
    assert_eq!(sfo_tool_name(OS::Macos), None);
}
