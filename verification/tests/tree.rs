//! Tests of the repository tree listing shapes and their filters.

use layouts_rs::TreeObject;
use layouts_rs::TreeResponse;

fn entry(path: &str, type_: &str) -> TreeObject {
    TreeObject {
        path: path.to_string(),
        mode: "100644".to_string(),
        type_: type_.to_string(),
        size: Some(10),
        sha: "0000".to_string(),
        url: "https://example.invalid/x".to_string(),
    }
}

#[test]
fn files_keeps_blob_paths_in_order() {
    let resp = TreeResponse {
        sha: "abc".to_string(),
        url: "https://example.invalid/tree".to_string(),
        tree: vec![
            entry("keyboards", "tree"),
            entry("keyboards/en_US.json", "blob"),
            entry("README.md", "blob"),
            entry("leds", "tree"),
            entry("leds/led.json", "blob"),
        ],
    };
    assert_eq!(
        resp.files(),
        vec![
            "keyboards/en_US.json".to_string(),
            "README.md".to_string(),
            "leds/led.json".to_string(),
        ]
    );
}

#[test]
fn files_of_empty_tree_is_empty() {
    let resp = TreeResponse {
        sha: "abc".to_string(),
        url: "u".to_string(),
        tree: vec![],
    };
    assert!(resp.files().is_empty());
}
