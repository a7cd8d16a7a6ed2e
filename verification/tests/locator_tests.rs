//! Endpoint locator behaviour: candidate prefixes per OS family, suffix-major
//! probe order, and first-existing selection.

use discord_ipc_rust::utils::candidate_paths;
use discord_ipc_rust::utils::first_existing;
use discord_ipc_rust::utils::get_os_pipe_paths;
use discord_ipc_rust::utils::get_pipe_path;
use discord_ipc_rust::utils::OsFamily;

#[test]
fn windows_has_the_single_pipe_prefix() {
    let paths = get_os_pipe_paths(OsFamily::Windows, None);
    assert_eq!(paths, vec!["\\\\?\\pipe\\discord-ipc-".to_string()]);
}

#[test]
fn unix_without_runtime_dir_has_only_tmp() {
    let paths = get_os_pipe_paths(OsFamily::Unix, None);
    assert_eq!(paths, vec!["/tmp/discord-ipc-".to_string()]);
}

#[test]
fn unix_with_runtime_dir_adds_container_and_plain_variants() {
    let paths = get_os_pipe_paths(OsFamily::Unix, Some("/run/user/1000"));
    assert_eq!(
        paths,
        vec![
            "/tmp/discord-ipc-".to_string(),
            "/run/user/1000/app/com.discordapp.Discord/discord-ipc-".to_string(),
            "/run/user/1000/discord-ipc-".to_string(),
        ]
    );
}

#[test]
fn macos_uses_only_the_runtime_dir() {
    assert_eq!(get_os_pipe_paths(OsFamily::Macos, None), Vec::<String>::new());
    assert_eq!(
        get_os_pipe_paths(OsFamily::Macos, Some("/var/tmp")),
        vec!["/var/tmp/discord-ipc-".to_string()]
    );
}

#[test]
fn candidates_walk_suffixes_outermost() {
    let prefixes = vec!["/a-".to_string(), "/b-".to_string()];
    let candidates = candidate_paths(&prefixes);
    assert_eq!(candidates.len(), 20);
    assert_eq!(candidates[0], "/a-0");
    assert_eq!(candidates[1], "/b-0");
    assert_eq!(candidates[2], "/a-1");
    assert_eq!(candidates[3], "/b-1");
    assert_eq!(candidates[18], "/a-9");
    assert_eq!(candidates[19], "/b-9");
}

#[test]
fn candidates_of_one_prefix_count_zero_through_nine() {
    let prefixes = vec!["/p/discord-ipc-".to_string()];
    let candidates = candidate_paths(&prefixes);
    assert_eq!(candidates.len(), 10);
    for (i, c) in candidates.iter().enumerate() {
        assert_eq!(*c, format!("/p/discord-ipc-{}", i));
    }
}

#[test]
fn first_existing_returns_the_first_live_index() {
    let prefixes = vec!["/a-".to_string(), "/b-".to_string()];
    let candidates = candidate_paths(&prefixes);
    // Only suffix 3 exists, for both prefixes: indexes 6 and 7.
    let mut present = vec![false; 20];
    present[6] = true;
    present[7] = true;
    assert_eq!(first_existing(&candidates, &present), Some(6));
    assert_eq!(candidates[6], "/a-3");
}

#[test]
fn first_existing_finds_suffix_three_regardless_of_prefix() {
    let prefixes = vec!["/a-".to_string(), "/b-".to_string()];
    let candidates = candidate_paths(&prefixes);
    // Only suffix 3 of the second prefix exists: index 7.
    let mut present = vec![false; 20];
    present[7] = true;
    assert_eq!(first_existing(&candidates, &present), Some(7));
    assert_eq!(candidates[7], "/b-3");
}

#[test]
fn first_existing_prefers_lower_suffixes() {
    let prefixes = vec!["/a-".to_string(), "/b-".to_string()];
    let candidates = candidate_paths(&prefixes);
    // Suffix 1 of prefix b beats suffix 3 of prefix a: index 3 before 6.
    let mut present = vec![false; 20];
    present[3] = true;
    present[6] = true;
    assert_eq!(first_existing(&candidates, &present), Some(3));
    assert_eq!(candidates[3], "/b-1");
}

#[test]
fn first_existing_reports_exhaustion() {
    let candidates = vec!["/x-0".to_string()];
    assert_eq!(first_existing(&candidates, &vec![false]), None);
}

#[test]
fn get_pipe_path_returns_none_when_nothing_exists() {
    let prefixes = vec!["/nonexistent-dir-for-this-test/discord-ipc-".to_string()];
    assert_eq!(get_pipe_path(&prefixes), None);
}
