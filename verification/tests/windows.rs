use roblox_install::windows_path::find_parent;
use roblox_install::{Error, Platform, RobloxStudio};

fn located(content_folder: &str) -> RobloxStudio {
    match RobloxStudio::from_content_folder(content_folder) {
        Ok(studio) => studio,
        Err(error) => panic!("{} was refused: {}", content_folder, error.message()),
    }
}

fn malformed(content_folder: &str) -> bool {
    matches!(
        RobloxStudio::from_content_folder(content_folder),
        Err(Error::MalformedRegistry)
    )
}

#[test]
fn content_folder_four_levels_deep() {
    let studio = located(r"C:\X\Y\Z\content");
    assert_eq!(studio.root_path(), r"C:\X\Y\Z");
    assert_eq!(studio.plugins_path(), r"C:\X\Plugins");
    assert_eq!(studio.application_path(), r"C:\X\Y\Z\RobloxStudioBeta.exe");
    assert_eq!(studio.built_in_plugins_path(), r"C:\X\Y\Z\BuiltInPlugins");
    assert_eq!(studio.exe_path(), r"C:\X\Y\Z\RobloxStudioBeta.exe");
}

#[test]
fn content_folder_of_a_usual_installation() {
    let studio =
        located(r"C:\Users\me\AppData\Local\Roblox\Versions\version-0123456789abcdef\content\");
    assert_eq!(
        studio.root_path(),
        r"C:\Users\me\AppData\Local\Roblox\Versions\version-0123456789abcdef"
    );
    assert_eq!(
        studio.application_path(),
        r"C:\Users\me\AppData\Local\Roblox\Versions\version-0123456789abcdef\RobloxStudioBeta.exe"
    );
    assert_eq!(
        studio.built_in_plugins_path(),
        r"C:\Users\me\AppData\Local\Roblox\Versions\version-0123456789abcdef\BuiltInPlugins"
    );
    assert_eq!(
        studio.plugins_path(),
        r"C:\Users\me\AppData\Local\Roblox\Plugins"
    );
}

#[test]
fn content_folder_directly_under_the_drive_is_malformed() {
    assert!(malformed(r"C:\content"));
}

#[test]
fn content_folder_with_fewer_than_three_names_is_malformed() {
    assert!(malformed(""));
    assert!(malformed(r"C:"));
    assert!(malformed(r"C:\"));
    assert!(malformed(r"C:\a\content"));
    assert!(malformed(r"a\content"));
    assert!(malformed(r"content"));
    assert!(malformed(r"\\server\share\a\content"));
    assert!(malformed(r"\\?\C:\a\content"));
}

#[test]
fn content_folder_three_names_deep_puts_plugins_at_the_drive() {
    let studio = located(r"C:\a\b\content");
    assert_eq!(studio.root_path(), r"C:\a\b");
    assert_eq!(studio.plugins_path(), r"C:\Plugins");
    assert_eq!(studio.application_path(), r"C:\a\b\RobloxStudioBeta.exe");
    assert_eq!(studio.built_in_plugins_path(), r"C:\a\b\BuiltInPlugins");
}

#[test]
fn content_folder_with_forward_slashes() {
    let studio = located("C:/X/Y/Z/content");
    assert_eq!(studio.root_path(), "C:/X/Y/Z");
    assert_eq!(studio.plugins_path(), r"C:/X\Plugins");
    assert_eq!(studio.application_path(), r"C:/X/Y/Z\RobloxStudioBeta.exe");
    assert_eq!(studio.built_in_plugins_path(), r"C:/X/Y/Z\BuiltInPlugins");
}

#[test]
fn content_folder_that_is_relative_gives_relative_paths() {
    let studio = located(r"a\b\content");
    assert_eq!(studio.root_path(), r"a\b");
    assert_eq!(studio.plugins_path(), "Plugins");
    assert_eq!(studio.application_path(), r"a\b\RobloxStudioBeta.exe");
}

#[test]
fn content_folder_on_a_share() {
    let studio = located(r"\\server\share\a\b\content");
    assert_eq!(studio.root_path(), r"\\server\share\a\b");
    assert_eq!(studio.plugins_path(), r"\\server\share\Plugins");
    assert_eq!(
        studio.application_path(),
        r"\\server\share\a\b\RobloxStudioBeta.exe"
    );
}

#[test]
fn content_folder_with_a_verbatim_prefix_is_written_anew() {
    let studio = located(r"\\?\C:\a\\b\c\content");
    assert_eq!(studio.root_path(), r"\\?\C:\a\\b\c");
    assert_eq!(studio.plugins_path(), r"\\?\C:\a\Plugins");
    assert_eq!(
        studio.application_path(),
        r"\\?\C:\a\b\c\RobloxStudioBeta.exe"
    );
    assert_eq!(
        studio.built_in_plugins_path(),
        r"\\?\C:\a\b\c\BuiltInPlugins"
    );
}

#[test]
fn registry_read_that_failed_is_reported_with_its_cause() {
    let cause = std::io::Error::new(std::io::ErrorKind::NotFound, "no such key");
    match RobloxStudio::from_registry(Err(cause)) {
        Err(Error::RegistryError(inner)) => {
            assert_eq!(inner.kind(), std::io::ErrorKind::NotFound);
            assert_eq!(inner.to_string(), "no such key");
        }
        _ => panic!("expected the registry error"),
    }
}

#[test]
fn registry_read_that_succeeded_is_resolved() {
    let studio = match RobloxStudio::from_registry(Ok(String::from(r"C:\X\Y\Z\content"))) {
        Ok(studio) => studio,
        Err(_) => panic!("expected an installation"),
    };
    assert_eq!(studio.root_path(), r"C:\X\Y\Z");
    assert!(matches!(
        RobloxStudio::from_registry(Ok(String::from(r"C:\content"))),
        Err(Error::MalformedRegistry)
    ));
}

#[test]
fn locate_on_windows_goes_by_the_registry() {
    let studio = match RobloxStudio::locate(Platform::Windows(Ok(String::from(
        r"C:\X\Y\Z\content",
    )))) {
        Ok(studio) => studio,
        Err(_) => panic!("expected an installation"),
    };
    assert_eq!(studio.plugins_path(), r"C:\X\Plugins");
    let denied = std::io::Error::from(std::io::ErrorKind::PermissionDenied);
    assert!(matches!(
        RobloxStudio::locate(Platform::Windows(Err(denied))),
        Err(Error::RegistryError(_))
    ));
    assert!(matches!(
        RobloxStudio::locate(Platform::Windows(Ok(String::from(r"C:\content")))),
        Err(Error::MalformedRegistry)
    ));
}

#[test]
fn locating_twice_from_the_same_registry_value_gives_equal_paths() {
    let first = located(r"D:\Games\Roblox\Versions\v1\content");
    let second = located(r"D:\Games\Roblox\Versions\v1\content");
    assert_eq!(first.root_path(), second.root_path());
    assert_eq!(first.application_path(), second.application_path());
    assert_eq!(first.built_in_plugins_path(), second.built_in_plugins_path());
    assert_eq!(first.plugins_path(), second.plugins_path());
}

#[test]
fn parent_drops_the_last_name() {
    assert_eq!(find_parent(r"C:\a\b").as_deref(), Some(r"C:\a"));
    assert_eq!(find_parent(r"C:\a").as_deref(), Some(r"C:\"));
    assert_eq!(find_parent(r"C:a\b").as_deref(), Some(r"C:a"));
    assert_eq!(find_parent(r"C:a").as_deref(), Some(r"C:"));
    assert_eq!(find_parent(r"\a").as_deref(), Some(r"\"));
    assert_eq!(find_parent(r"a\b").as_deref(), Some("a"));
    assert_eq!(find_parent("a").as_deref(), Some(""));
    assert_eq!(find_parent(r"a\..").as_deref(), Some("a"));
    assert_eq!(find_parent("..").as_deref(), Some(""));
}

#[test]
fn parent_ignores_empty_names_and_dots() {
    assert_eq!(find_parent(r"C:\a\b\").as_deref(), Some(r"C:\a"));
    assert_eq!(find_parent(r"C:\a\\\b\\").as_deref(), Some(r"C:\a"));
    assert_eq!(find_parent(r"C:\a\.\b\.").as_deref(), Some(r"C:\a"));
    assert_eq!(find_parent(r"C:\a/./b/").as_deref(), Some(r"C:\a"));
    assert_eq!(find_parent(r"C:\.\a").as_deref(), Some(r"C:\"));
}

#[test]
fn parent_of_a_leading_dot() {
    assert_eq!(find_parent(".").as_deref(), Some(""));
    assert_eq!(find_parent(r".\").as_deref(), Some(""));
    assert_eq!(find_parent(r".\a").as_deref(), Some("."));
    assert_eq!(find_parent(r".\a\b").as_deref(), Some(r".\a"));
    assert_eq!(find_parent(r"C:.").as_deref(), None);
    assert_eq!(find_parent(r"C:.\a").as_deref(), Some("C:."));
}

#[test]
fn parent_of_a_root_or_a_prefix_is_missing() {
    assert_eq!(find_parent(""), None);
    assert_eq!(find_parent(r"\"), None);
    assert_eq!(find_parent("/"), None);
    assert_eq!(find_parent("C:"), None);
    assert_eq!(find_parent(r"C:\"), None);
    assert_eq!(find_parent(r"C:\\"), None);
    assert_eq!(find_parent(r"\\server\share"), None);
    assert_eq!(find_parent(r"\\server\share\"), None);
    assert_eq!(find_parent(r"\\.\COM1"), None);
    assert_eq!(find_parent(r"\\?\C:"), None);
    assert_eq!(find_parent(r"\\?\C:\"), None);
    assert_eq!(find_parent(r"\\?\UNC\server\share"), None);
    assert_eq!(find_parent(r"\\?\pictures"), None);
}

#[test]
fn parent_under_each_kind_of_prefix() {
    assert_eq!(
        find_parent(r"\\server\share\a").as_deref(),
        Some(r"\\server\share\")
    );
    assert_eq!(
        find_parent(r"//server/share/a/b").as_deref(),
        Some(r"//server/share/a")
    );
    assert_eq!(find_parent(r"\\.\COM1\a").as_deref(), Some(r"\\.\COM1\"));
    assert_eq!(find_parent(r"\\?\C:\a").as_deref(), Some(r"\\?\C:\"));
    assert_eq!(find_parent(r"\\?\C:\a\b").as_deref(), Some(r"\\?\C:\a"));
    assert_eq!(
        find_parent(r"\\?\UNC\server\share\a").as_deref(),
        Some(r"\\?\UNC\server\share\")
    );
    assert_eq!(
        find_parent(r"\\?\pictures\a\b").as_deref(),
        Some(r"\\?\pictures\a")
    );
}

#[test]
fn parent_of_a_server_without_a_share_treats_it_as_a_name() {
    assert_eq!(find_parent(r"\\server").as_deref(), Some(r"\"));
    assert_eq!(find_parent(r"\\server\").as_deref(), Some(r"\"));
    assert_eq!(find_parent(r"\\server\\a").as_deref(), Some(r"\\server"));
}

#[test]
fn parent_in_a_verbatim_path_reads_slash_and_dot_as_names() {
    assert_eq!(find_parent(r"\\?\C:\a\.").as_deref(), Some(r"\\?\C:\a"));
    assert_eq!(find_parent(r"\\?\C:\a/b").as_deref(), Some(r"\\?\C:\"));
    assert_eq!(find_parent(r"\\?\C:\a\b/c").as_deref(), Some(r"\\?\C:\a"));
}

#[test]
fn parent_keeps_characters_outside_ascii() {
    assert_eq!(
        find_parent("C:\\Users\\Zo\u{eb}\\Documents").as_deref(),
        Some("C:\\Users\\Zo\u{eb}")
    );
    assert_eq!(
        find_parent("C:\\\u{1f600}\\\u{1f600}").as_deref(),
        Some("C:\\\u{1f600}")
    );
}

#[test]
fn plugins_directly_under_a_root_get_no_second_separator() {
    assert_eq!(located(r"C:\a\b\content").plugins_path(), r"C:\Plugins");
    assert_eq!(located("C:/a/b/content").plugins_path(), "C:/Plugins");
    assert_eq!(
        located(r"\\server\share\a\b\content").plugins_path(),
        r"\\server\share\Plugins"
    );
    assert_eq!(
        located(r"\\.\COM1\a\b\content").plugins_path(),
        r"\\.\COM1\Plugins"
    );
}

#[test]
fn plugins_beside_a_bare_drive_get_no_separator() {
    let studio = located(r"C:a\b\content");
    assert_eq!(studio.root_path(), r"C:a\b");
    assert_eq!(studio.application_path(), r"C:a\b\RobloxStudioBeta.exe");
    assert_eq!(studio.plugins_path(), "C:Plugins");
}

#[test]
fn plugins_beside_a_leading_dot() {
    assert_eq!(located(r".\a\b\content").plugins_path(), r".\Plugins");
    assert_eq!(located(r"C:.\a\b\content").plugins_path(), r"C:.\Plugins");
    assert_eq!(located(r".\a\content").plugins_path(), "Plugins");
}

#[test]
fn verbatim_paths_are_written_with_one_backslash_before_each_name() {
    let studio = located(r"\\?\C:/a\b\content");
    assert_eq!(studio.root_path(), r"\\?\C:/a\b");
    assert_eq!(studio.application_path(), r"\\?\C:\a\b\RobloxStudioBeta.exe");
    assert_eq!(studio.plugins_path(), r"\\?\C:\Plugins");
    let studio = located(r"\\?\UNC\server\share\a\\.\b\content\");
    assert_eq!(studio.root_path(), r"\\?\UNC\server\share\a\\.\b");
    assert_eq!(
        studio.built_in_plugins_path(),
        r"\\?\UNC\server\share\a\.\b\BuiltInPlugins"
    );
    assert_eq!(studio.plugins_path(), r"\\?\UNC\server\share\a\Plugins");
    let studio = located(r"\\?\pictures\a\b\content");
    assert_eq!(studio.plugins_path(), r"\\?\pictures\Plugins");
}

#[test]
fn paths_from_an_absolute_content_folder_are_absolute() {
    let studio = located(r"C:\X\Y\Z\content");
    for path in [
        studio.root_path(),
        studio.application_path(),
        studio.built_in_plugins_path(),
        studio.plugins_path(),
    ] {
        assert!(path.starts_with(r"C:\"));
    }
    let studio = located(r"\\server\share\a\b\content");
    for path in [
        studio.root_path(),
        studio.application_path(),
        studio.built_in_plugins_path(),
        studio.plugins_path(),
    ] {
        assert!(path.starts_with(r"\\server\share\"));
    }
}

#[test]
fn paths_are_never_empty() {
    for content_folder in [r"C:\X\Y\Z\content", r"a\b\content", r".\a\content", "a/b/c"] {
        let studio = located(content_folder);
        assert!(!studio.root_path().is_empty());
        assert!(!studio.application_path().is_empty());
        assert!(!studio.exe_path().is_empty());
        assert!(!studio.built_in_plugins_path().is_empty());
        assert!(!studio.plugins_path().is_empty());
    }
}

#[test]
fn executable_and_built_in_plugins_lie_directly_in_the_root() {
    let studio = located(r"C:\X\Y\Z\content\");
    assert_eq!(
        find_parent(studio.application_path()).as_deref(),
        Some(studio.root_path())
    );
    assert_eq!(
        find_parent(studio.built_in_plugins_path()).as_deref(),
        Some(studio.root_path())
    );
    let versions = find_parent(studio.root_path()).unwrap();
    assert_eq!(find_parent(studio.plugins_path()), find_parent(&versions));
    for content_folder in [r"a\b\content", r"\a\b\content\.", r"C:a\b\c\content", r".\a\content"] {
        let studio = located(content_folder);
        assert_eq!(
            find_parent(studio.application_path()).as_deref(),
            Some(studio.root_path())
        );
        assert_eq!(
            find_parent(studio.built_in_plugins_path()).as_deref(),
            Some(studio.root_path())
        );
    }
}

#[test]
fn root_of_a_verbatim_path_may_read_otherwise_than_the_paths_under_it() {
    let studio = located(r"\\?\C:\a\\b\c\content");
    assert_eq!(studio.root_path(), r"\\?\C:\a\\b\c");
    assert_eq!(
        find_parent(studio.application_path()).as_deref(),
        Some(r"\\?\C:\a\b\c")
    );
}

/// Every text of up to `len` characters over `alphabet`.
fn texts(alphabet: &[char], len: usize) -> Vec<String> {
    let mut all = vec![String::new()];
    let mut last = vec![String::new()];
    for _ in 0..len {
        let mut next = Vec::new();
        for text in &last {
            for c in alphabet {
                let mut longer = text.clone();
                longer.push(*c);
                next.push(longer);
            }
        }
        all.extend(next.iter().cloned());
        last = next;
    }
    all
}

#[test]
fn parent_agrees_with_this_host_on_paths_that_both_read_alike() {
    // Without a prefix and with `/` alone, a Windows path reads as a Unix path does.
    if std::path::MAIN_SEPARATOR != '/' {
        return;
    }
    let mut compared = 0;
    for text in texts(&['/', '.', 'a'], 7) {
        // two separators and a name may open with a share or a device
        if text.starts_with("//") && text.len() > 2 && !text.starts_with("///") {
            continue;
        }
        let expected = std::path::Path::new(&text).parent().and_then(|p| p.to_str());
        assert_eq!(find_parent(&text).as_deref(), expected, "parent of {:?}", text);
        compared += 1;
    }
    assert!(compared > 2000);
}

#[test]
fn parent_of_paths_with_repeated_separators() {
    assert_eq!(find_parent("///foo///").as_deref(), Some("/"));
    assert_eq!(find_parent("///foo///bar").as_deref(), Some("///foo"));
    assert_eq!(find_parent(r"\\\foo\\\bar").as_deref(), Some(r"\\\foo"));
    assert_eq!(find_parent("a//b").as_deref(), Some("a"));
    assert_eq!(find_parent("a/./b").as_deref(), Some("a"));
    assert_eq!(find_parent("foo/../bar").as_deref(), Some("foo/.."));
    assert_eq!(find_parent("foo/./").as_deref(), Some(""));
    assert_eq!(find_parent("/..").as_deref(), Some("/"));
    assert_eq!(find_parent("../").as_deref(), Some(""));
    assert_eq!(find_parent("./.").as_deref(), Some(""));
}

#[test]
fn parent_of_paths_where_slashes_and_backslashes_mix() {
    assert_eq!(find_parent(r"c:\foo.txt").as_deref(), Some(r"c:\"));
    assert_eq!(find_parent("c:/").as_deref(), None);
    assert_eq!(find_parent(r"\\.\foo/bar").as_deref(), Some(r"\\.\foo/"));
    assert_eq!(find_parent(r"\\.\foo\bar/baz").as_deref(), Some(r"\\.\foo\bar"));
    assert_eq!(find_parent(r"//.\foo/bar").as_deref(), Some(r"//.\foo/"));
    assert_eq!(find_parent(r"\\./foo/bar").as_deref(), Some(r"\\./foo/"));
    assert_eq!(find_parent("//./foo/bar").as_deref(), Some("//./foo/"));
    assert_eq!(find_parent(r"\\.\").as_deref(), None);
    assert_eq!(find_parent(r"\\?\").as_deref(), None);
    assert_eq!(find_parent(r"\\?\UNC\").as_deref(), None);
    assert_eq!(find_parent(r"\\?\UNC\server").as_deref(), None);
    assert_eq!(find_parent(r"\\?\foo/bar").as_deref(), None);
    assert_eq!(find_parent(r"\\?\C:/foo/bar").as_deref(), Some(r"\\?\C:/"));
    assert_eq!(find_parent(r"\\?\a\b\").as_deref(), Some(r"\\?\a\"));
    assert_eq!(find_parent(r"\\?\bar\foo.txt").as_deref(), Some(r"\\?\bar\"));
    assert_eq!(find_parent("//?/C:/foo").as_deref(), Some("//?/C:/"));
}

#[test]
fn executable_of_a_verbatim_path_lies_in_the_root_as_both_are_read() {
    let studio = located(r"\\?\C:\a\b\c\content");
    assert_eq!(studio.root_path(), r"\\?\C:\a\b\c");
    assert_eq!(
        find_parent(studio.application_path()).as_deref(),
        Some(studio.root_path())
    );
    assert_eq!(
        find_parent(studio.built_in_plugins_path()).as_deref(),
        Some(studio.root_path())
    );
    // with a repeated separator the root is written otherwise, and names the same folders
    let studio = located(r"\\?\UNC\server\share\a\\b\content");
    assert_eq!(studio.root_path(), r"\\?\UNC\server\share\a\\b");
    assert_eq!(
        studio.application_path(),
        r"\\?\UNC\server\share\a\b\RobloxStudioBeta.exe"
    );
    let above_application = find_parent(studio.application_path()).unwrap();
    assert_eq!(above_application, r"\\?\UNC\server\share\a\b");
    assert_eq!(
        find_parent(&above_application).as_deref(),
        Some(r"\\?\UNC\server\share\a")
    );
    assert_eq!(
        find_parent(studio.root_path()).as_deref(),
        Some(r"\\?\UNC\server\share\a")
    );
}

#[test]
fn verbatim_server_without_a_share_takes_the_first_name_for_one() {
    let studio = located(r"\\?\UNC\server\\a\b\content");
    assert_eq!(studio.root_path(), r"\\?\UNC\server\\a\b");
    assert_eq!(
        studio.application_path(),
        r"\\?\UNC\server\a\b\RobloxStudioBeta.exe"
    );
    // in the root `a` is a folder, in the path of the executable it is the share
    assert_eq!(
        find_parent(r"\\?\UNC\server\\a").as_deref(),
        Some(r"\\?\UNC\server\")
    );
    assert_eq!(find_parent(r"\\?\UNC\server\a").as_deref(), None);
}
