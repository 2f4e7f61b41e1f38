use std::io::Write;

use gemini::codegen::{included_entries, should_include, LibTree};
use zip::write::SimpleFileOptions;

#[test]
fn includes_the_compiled_apis() {
    assert!(should_include("googleapis-master/google/cloud/aiplatform/v1/prediction_service.proto"));
    assert!(should_include("googleapis-master/google/api/annotations.proto"));
    assert!(should_include("googleapis-master/google/ai/generativelanguage/v1/content.proto"));
    assert!(should_include("googleapis-master/google/type/date.proto"));
    assert!(!should_include("googleapis-master/google/cloud/vision/v1/image.proto"));
    assert!(!should_include("googleapis-master/README.md"));
}

#[test]
fn renders_module_tree() {
    let leaf = LibTree {
        name: "v1".to_string(),
        generated_file: Some("/google.api.rs".to_string()),
        children: vec![],
    };
    let other = LibTree { name: "x".to_string(), generated_file: None, children: vec![] };
    let tree = LibTree {
        name: "google".to_string(),
        generated_file: None,
        children: vec![("v1".to_string(), leaf), ("x".to_string(), other)],
    };
    let text = tree.render("include");
    let ind = "\n            ";
    let leaf_text = format!(
        "pub mod v1 {{{ind}include!(concat!(env!(\"OUT_DIR\"), \"/google.api.rs\"));{ind}{ind}}}"
    );
    let other_text = format!("pub mod x {{{ind}{ind}{ind}}}");
    assert_eq!(text, format!("pub mod google {{{ind}{ind}{leaf_text}\n{other_text}{ind}}}"));
}

fn archive() -> Vec<u8> {
    let mut w = zip::ZipWriter::new(std::io::Cursor::new(Vec::new()));
    let o = SimpleFileOptions::default();
    w.add_directory("googleapis-master/google/api/", o).unwrap();
    w.start_file("googleapis-master/google/api/http.proto", o).unwrap();
    w.write_all(b"syntax = \"proto3\";").unwrap();
    w.start_file("googleapis-master/google/ads/ads.proto", o).unwrap();
    w.write_all(b"left out").unwrap();
    w.start_file("googleapis-master/google/type/date.proto", o).unwrap();
    w.write_all(&[0u8, 1, 2, 255]).unwrap();
    w.finish().unwrap().into_inner()
}

#[test]
fn archive_keeps_included_entries_in_order() {
    let es = included_entries(&archive()).unwrap();
    assert_eq!(es.len(), 3);
    assert_eq!(es[0].name, "googleapis-master/google/api/");
    assert_eq!(es[0].data, None);
    assert_eq!(es[1].name, "googleapis-master/google/api/http.proto");
    assert_eq!(es[1].data.as_deref(), Some(&b"syntax = \"proto3\";"[..]));
    assert_eq!(es[2].name, "googleapis-master/google/type/date.proto");
    assert_eq!(es[2].data.as_deref(), Some(&[0u8, 1, 2, 255][..]));
}

#[test]
fn bytes_that_are_no_archive_are_refused() {
    assert!(included_entries(b"not a zip archive").is_err());
    assert!(included_entries(&[]).is_err());
}
