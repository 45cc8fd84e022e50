//! Discovering protobuf packages in a directory listing.

use isolate_host::proto_build::find_proto_packages;
use isolate_host::proto_build::generated_root_file_lines;

#[test]
fn proto_files_give_their_stems_in_listing_order() {
    let packages = find_proto_packages(vec![
        "searchlight.proto".to_string(),
        "README.md".to_string(),
        "common.proto".to_string(),
        "notes.txt".to_string(),
    ]);
    assert_eq!(packages, vec!["searchlight".to_string(), "common".to_string()]);
}

#[test]
fn short_and_near_miss_names_are_not_proto_files() {
    let packages = find_proto_packages(vec![
        "proto".to_string(),
        ".proto".to_string(),
        "a.protox".to_string(),
        "b.Proto".to_string(),
    ]);
    // a bare ".proto" has no stem; none of these name a package
    assert_eq!(packages, Vec::<String>::new());
}

#[test]
fn generated_root_file_text_is_fixed_by_its_inputs() {
    let lines = generated_root_file_lines(
        vec!["never_type".to_string()],
        vec!["document_id".to_string()],
        vec!["common".to_string(), "searchlight".to_string()],
    );
    let contents = lines.concat();
    assert_eq!(
        contents,
        "// @generated - do not modify. Modify build.rs instead.\n\
         #![feature(never_type)]\n\
         #![allow(clippy::match_single_binding)]\n\
         pub mod document_id;\n\
         pub mod common {\n    include!(concat!(env!(\"OUT_DIR\"), \"/common.rs\"));\n}\n\
         pub mod searchlight {\n    include!(concat!(env!(\"OUT_DIR\"), \"/searchlight.rs\"));\n}\n\
         \npub const FILE_DESCRIPTOR_BYTES: &[u8] =\n    include_bytes!(concat!(env!(\"OUT_DIR\"), \"/descriptors.bin\"));\n"
    );

    // no features, no modules, no packages: marker, lint, and descriptor only
    let bare = generated_root_file_lines(vec![], vec![], vec![]).concat();
    assert_eq!(
        bare,
        "// @generated - do not modify. Modify build.rs instead.\n\
         #![allow(clippy::match_single_binding)]\n\
         \npub const FILE_DESCRIPTOR_BYTES: &[u8] =\n    include_bytes!(concat!(env!(\"OUT_DIR\"), \"/descriptors.bin\"));\n"
    );
}
