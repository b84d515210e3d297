use std::path::{Path, PathBuf};

use test_utilities::path::derive_database_path;

#[test]
fn database_path_is_the_db_entry_of_the_directory() {
    assert_eq!(derive_database_path("/tmp/fixture_a1B2c3"), "/tmp/fixture_a1B2c3/db");
}

#[test]
fn database_path_puts_no_second_separator() {
    assert_eq!(derive_database_path("/tmp/fixture_a1B2c3/"), "/tmp/fixture_a1B2c3/db");
    assert_eq!(derive_database_path("/"), "/db");
}

#[test]
fn database_path_keeps_separators_that_are_already_there() {
    assert_eq!(derive_database_path("/tmp//"), "/tmp//db");
    assert_eq!(derive_database_path("//"), "//db");
}

#[test]
fn database_path_of_the_empty_directory_is_the_bare_name() {
    assert_eq!(derive_database_path(""), "db");
}

#[test]
fn database_path_of_a_relative_directory() {
    assert_eq!(derive_database_path("scratch"), "scratch/db");
    assert_eq!(derive_database_path("."), "./db");
}

#[test]
fn database_path_counts_characters_not_bytes() {
    assert_eq!(derive_database_path("/tmp/données"), "/tmp/données/db");
    assert_eq!(derive_database_path("/tmp/é"), "/tmp/é/db");
    assert_eq!(derive_database_path("日本"), "日本/db");
}

#[test]
fn database_path_is_not_the_directory() {
    for dir in ["", "/", "/tmp/x", "/tmp/x/", "db", "/db"] {
        let path = derive_database_path(dir);
        assert_ne!(path, dir);
        assert!(path.starts_with(dir));
        assert!(path.ends_with("db"));
        assert!(path.len() > dir.len());
    }
}

#[test]
fn database_path_agrees_with_joining_the_name_to_the_directory() {
    for dir in ["", "/", "/tmp", "/tmp/", "/tmp/x", "relative/dir", "/tmp/é"] {
        let derived = PathBuf::from(derive_database_path(dir));
        assert_eq!(derived, Path::new(dir).join("db"));
    }
}

#[test]
fn different_directories_have_different_database_paths() {
    let dirs = ["", "/", "/tmp", "/tmp/a", "/tmp/b", "/tmp/a/db", "/tmp/ab", "a", "b"];
    for (i, a) in dirs.iter().enumerate() {
        for (j, b) in dirs.iter().enumerate() {
            if i != j {
                assert_ne!(derive_database_path(a), derive_database_path(b));
            }
        }
    }
}

#[test]
fn two_spellings_of_one_directory_share_the_database_path() {
    assert_eq!(derive_database_path("/tmp/a"), derive_database_path("/tmp/a/"));
    assert_ne!(derive_database_path("/tmp/a/"), derive_database_path("/tmp/a//"));
}
