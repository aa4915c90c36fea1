use beans_rs::depends::{
    butler_exists, get_butler_1_location, get_butler_2_location, get_butler_location, get_tmp_dir,
    get_vcredist_location, try_write_deps, Dependency, DependencyFiles, DependencyWrite, Platform,
};

fn files(butler: bool, library_1: bool, library_2: bool) -> DependencyFiles {
    DependencyFiles { butler, library_1, library_2 }
}

#[test]
fn tmp_dir_ends_in_a_separator() {
    assert_eq!(get_tmp_dir("/tmp", Platform::Unix), "/tmp/");
    assert_eq!(get_tmp_dir("/tmp/", Platform::Unix), "/tmp/");
    assert_eq!(get_tmp_dir("C:\\Temp", Platform::Windows), "C:\\Temp\\");
    assert_eq!(get_tmp_dir("C:\\Temp\\", Platform::Windows), "C:\\Temp\\");
    assert_eq!(get_tmp_dir("C:/Temp/", Platform::Windows), "C:/Temp/");
    assert_eq!(get_tmp_dir("", Platform::Unix), "/");
    assert_eq!(get_tmp_dir("", Platform::Windows), "\\");
}

#[test]
fn butler_locations_on_unix() {
    assert_eq!(get_butler_location("/tmp", Platform::Unix), "/tmp/butler");
    assert_eq!(get_butler_1_location("/tmp", Platform::Unix), "/tmp/7z.so");
    assert_eq!(get_butler_2_location("/tmp/", Platform::Unix), "/tmp/libc7zip.so");
}

#[test]
fn butler_locations_on_windows() {
    assert_eq!(get_butler_location("C:\\Temp", Platform::Windows), "C:\\Temp\\butler.exe");
    assert_eq!(get_butler_1_location("C:\\Temp\\", Platform::Windows), "C:\\Temp\\7z.dll");
    assert_eq!(get_butler_2_location("C:\\Temp", Platform::Windows), "C:\\Temp\\c7zip.dll");
}

#[test]
fn butler_exists_needs_all_three_files() {
    assert!(butler_exists(files(true, true, true)));
    assert!(!butler_exists(files(false, true, true)));
    assert!(!butler_exists(files(true, false, true)));
    assert!(!butler_exists(files(true, true, false)));
    assert!(!butler_exists(files(false, false, false)));
}

#[test]
fn try_write_deps_writes_what_is_missing() {
    assert_eq!(
        try_write_deps("/tmp", Platform::Unix, files(false, false, false)),
        vec![
            DependencyWrite { dependency: Dependency::Butler, location: "/tmp/butler".to_string() },
            DependencyWrite { dependency: Dependency::Library1, location: "/tmp/7z.so".to_string() },
            DependencyWrite { dependency: Dependency::Library2, location: "/tmp/libc7zip.so".to_string() },
        ]
    );
    assert_eq!(
        try_write_deps("C:\\Temp\\", Platform::Windows, files(true, false, true)),
        vec![DependencyWrite { dependency: Dependency::Library1, location: "C:\\Temp\\7z.dll".to_string() }]
    );
    assert_eq!(
        try_write_deps("/tmp", Platform::Unix, files(false, true, false)),
        vec![
            DependencyWrite { dependency: Dependency::Butler, location: "/tmp/butler".to_string() },
            DependencyWrite { dependency: Dependency::Library2, location: "/tmp/libc7zip.so".to_string() },
        ]
    );
}

#[test]
fn try_write_deps_leaves_a_complete_engine_alone() {
    assert_eq!(try_write_deps("/tmp", Platform::Unix, files(true, true, true)), vec![]);
}

#[test]
fn vcredist_is_downloaded_to_the_temporary_directory() {
    assert_eq!(get_vcredist_location("C:\\Temp"), "C:\\Temp\\vc_redist.exe");
    assert_eq!(get_vcredist_location("C:\\Temp\\"), "C:\\Temp\\vc_redist.exe");
}
