use git_shade::copy::{plan_dir_copy, plan_file_copy, relative_files, CopyStep, WalkEntry};
use git_shade::error::ShadeError;
use std::path::{Path, PathBuf};

fn text(path: &Path) -> String {
    path.to_str().unwrap().to_string()
}

#[test]
fn test_copy_file_preserve_structure() {
    let temp = PathBuf::from("/tmp/work");
    let src_base = temp.join("src");
    let dest_base = temp.join("dest");

    let src_file = src_base.join("config/database.yml");

    let step = plan_file_copy(&text(&src_file), &text(&src_base), &text(&dest_base)).unwrap();
    let dest_file = PathBuf::from(&step.destination);

    assert_eq!(dest_file, dest_base.join("config/database.yml"));
    assert_eq!(step.source, text(&src_file));
    assert_eq!(step.directory, Some(text(&dest_base.join("config"))));
}

#[test]
fn test_copy_dir_preserve_structure() {
    let temp = PathBuf::from("/tmp/work");
    let src_base = temp.join("src");
    let dest_base = temp.join("dest");

    let secrets_dir = src_base.join("secrets");
    let entries = vec![
        WalkEntry { path: text(&secrets_dir), is_file: false },
        WalkEntry { path: text(&secrets_dir.join("api.key")), is_file: true },
        WalkEntry { path: text(&secrets_dir.join("oauth.json")), is_file: true },
    ];

    let copied = plan_dir_copy(&entries, &text(&src_base), &text(&dest_base)).unwrap();

    assert_eq!(copied.len(), 2);
    assert_eq!(PathBuf::from(&copied[0].destination), dest_base.join("secrets/api.key"));
    assert_eq!(PathBuf::from(&copied[1].destination), dest_base.join("secrets/oauth.json"));
}

#[test]
fn a_nested_file_lands_at_the_same_place_below_the_destination() {
    let step = plan_file_copy("srcBase/x/y.txt", "srcBase", "destBase").unwrap();
    assert_eq!(step.source, "srcBase/x/y.txt");
    assert_eq!(step.destination, "destBase/x/y.txt");
    assert_eq!(step.directory, Some("destBase/x".to_string()));
}

#[test]
fn plan_file_copy_names_source_destination_and_directory() {
    let step = plan_file_copy("/src/base/x/y.txt", "/src/base", "/dest/base").unwrap();
    assert_eq!(
        step,
        CopyStep {
            source: "/src/base/x/y.txt".to_string(),
            destination: "/dest/base/x/y.txt".to_string(),
            directory: Some("/dest/base/x".to_string()),
        }
    );
}

#[test]
fn plan_file_copy_of_a_file_at_the_top_creates_the_base() {
    let step = plan_file_copy("/src/base/y.txt", "/src/base", "/dest/base").unwrap();
    assert_eq!(step.destination, "/dest/base/y.txt");
    assert_eq!(step.directory, Some("/dest/base".to_string()));
}

#[test]
fn plan_file_copy_refuses_a_source_outside_the_base() {
    let planned = plan_file_copy("/elsewhere/y.txt", "/src/base", "/dest/base");
    assert_eq!(planned, Err(ShadeError::Other("Failed to calculate relative path".to_string())));
    let sibling = plan_file_copy("/src/based/y.txt", "/src/base", "/dest/base");
    assert_eq!(sibling, Err(ShadeError::Other("Failed to calculate relative path".to_string())));
}

fn entry(path: &str, is_file: bool) -> WalkEntry {
    WalkEntry { path: path.to_string(), is_file }
}

#[test]
fn plan_dir_copy_has_one_step_per_file_and_none_per_directory() {
    let entries = vec![
        entry("/p/secrets", false),
        entry("/p/secrets/api.key", true),
        entry("/p/secrets/deep", false),
        entry("/p/secrets/deep/oauth.json", true),
        entry("/p/secrets/deep/empty", false),
        entry("/p/secrets/z", true),
    ];
    let steps = plan_dir_copy(&entries, "/p", "/shade/p").unwrap();
    assert_eq!(steps.len(), 3);
    assert_eq!(steps[0].source, "/p/secrets/api.key");
    assert_eq!(steps[0].destination, "/shade/p/secrets/api.key");
    assert_eq!(steps[1].source, "/p/secrets/deep/oauth.json");
    assert_eq!(steps[1].destination, "/shade/p/secrets/deep/oauth.json");
    assert_eq!(steps[1].directory, Some("/shade/p/secrets/deep".to_string()));
    assert_eq!(steps[2].destination, "/shade/p/secrets/z");
}

#[test]
fn plan_dir_copy_of_nothing_or_of_directories_only_is_empty() {
    assert_eq!(plan_dir_copy(&vec![], "/p", "/s").unwrap(), vec![]);
    let only_dirs = vec![entry("/p/a", false), entry("/p/a/b", false)];
    assert_eq!(plan_dir_copy(&only_dirs, "/p", "/s").unwrap(), vec![]);
}

#[test]
fn plan_dir_copy_fails_on_a_file_outside_the_base_but_not_on_a_directory() {
    let stray_dir = vec![entry("/q", false), entry("/p/a", true)];
    assert_eq!(plan_dir_copy(&stray_dir, "/p", "/s").unwrap().len(), 1);
    let stray_file = vec![entry("/p/a", true), entry("/q/b", true)];
    assert_eq!(
        plan_dir_copy(&stray_file, "/p", "/s"),
        Err(ShadeError::Other("Failed to calculate relative path".to_string()))
    );
}

#[test]
fn relative_files_lists_files_below_the_base() {
    let entries = vec![
        entry("/shade/p", false),
        entry("/shade/p/a", true),
        entry("/shade/p/dir", false),
        entry("/shade/p/dir/b", true),
        entry("/other/c", true),
    ];
    assert_eq!(relative_files(&entries, "/shade/p"), vec!["a".to_string(), "dir/b".to_string()]);
    assert_eq!(relative_files(&vec![], "/shade/p"), Vec::<String>::new());
}
