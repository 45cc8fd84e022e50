//! The computation inside the protobuf build step: which files of a
//! directory listing are protobuf sources, and the package names they
//! define. Reading directories and driving the code generator are left to
//! the caller.

use vstd::prelude::*;

verus! {

/// A file name with a nonempty stem and the `.proto` extension.
pub open spec fn is_proto_file_name(name: Seq<char>) -> bool {
    &&& name.len() > 6
    &&& name[name.len() - 6] == '.'
    &&& name[name.len() - 5] == 'p'
    &&& name[name.len() - 4] == 'r'
    &&& name[name.len() - 3] == 'o'
    &&& name[name.len() - 2] == 't'
    &&& name[name.len() - 1] == 'o'
}

/// The package names defined by a directory listing: the stem of every
/// `.proto` file — its name with the extension cut off — in listing order.
pub open spec fn proto_packages(names: Seq<String>) -> Seq<Seq<char>>
    decreases names.len(),
{
    if names.len() == 0 {
        Seq::empty()
    } else {
        let rest = proto_packages(names.drop_last());
        if is_proto_file_name(names.last()@) {
            rest.push(names.last()@.take(names.last()@.len() - 6))
        } else {
            rest
        }
    }
}

/// Whether one file name is a protobuf source.
fn is_proto_file(name: &String) -> (r: bool)
    ensures
        r == is_proto_file_name(name@),
{
    let len = name.as_str().unicode_len();
    if len <= 6 {
        return false;
    }
    let s = name.as_str();
    s.get_char(len - 6) == '.' && s.get_char(len - 5) == 'p' && s.get_char(len - 4) == 'r'
        && s.get_char(len - 3) == 'o' && s.get_char(len - 2) == 't' && s.get_char(len - 1) == 'o'
}

/// Picks the protobuf sources out of a directory listing and returns their
/// package names: the file stems, in listing order.
pub fn find_proto_packages(names: Vec<String>) -> (r: Vec<String>)
    ensures
        r@.map_values(|s: String| s@) == proto_packages(names@),
{
    let ghost orig = names@;
    let mut rest = names;
    let mut out: Vec<String> = Vec::new();
    proof {
        assert(orig.take(0) =~= Seq::<String>::empty());
        assert(out@.map_values(|s: String| s@) =~= proto_packages(orig.take(0)));
    }
    while rest.len() > 0
        invariant
            rest@.len() <= orig.len(),
            rest@ == orig.skip(orig.len() - rest@.len()),
            out@.map_values(|s: String| s@) == proto_packages(orig.take(orig.len() - rest@.len())),
        decreases rest@.len(),
    {
        let ghost done = orig.len() - rest@.len();
        let name = rest.remove(0);
        proof {
            assert(name == orig[done]);
            assert(rest@ =~= orig.skip(done + 1));
            assert(orig.take(done + 1).drop_last() =~= orig.take(done));
            assert(orig.take(done + 1).last() == name);
        }
        if is_proto_file(&name) {
            let len = name.as_str().unicode_len();
            let stem = name.as_str().substring_char(0, len - 6).to_owned();
            out.push(stem);
            proof {
                assert(out@.map_values(|s: String| s@) =~= proto_packages(orig.take(done + 1)));
            }
        } else {
            proof {
                assert(out@.map_values(|s: String| s@) =~= proto_packages(orig.take(done + 1)));
            }
        }
    }
    proof {
        assert(orig.take(orig.len() as int) =~= orig);
    }
    out
}

/// The line enabling one compiler feature in the generated root file.
pub open spec fn feature_line(feature: Seq<char>) -> Seq<char> {
    "#![feature("@ + feature + ")]\n"@
}

/// The line declaring one handwritten module in the generated root file.
pub open spec fn module_line(module: Seq<char>) -> Seq<char> {
    "pub mod "@ + module + ";\n"@
}

/// The block exposing one generated protobuf package in the root file.
pub open spec fn package_block(package: Seq<char>) -> Seq<char> {
    "pub mod "@ + package + " {\n    include!(concat!(env!(\"OUT_DIR\"), \"/"@ + package
        + ".rs\"));\n}\n"@
}

/// The text of the generated crate root, piece by piece: the marker header,
/// one line per compiler feature, the lint allowance, one declaration per
/// handwritten module, one block per protobuf package, and the descriptor
/// constant. Concatenated in order, the pieces are the whole file, so
/// regeneration is deterministic in its inputs.
pub fn generated_root_file_lines(
    features: Vec<String>,
    modules: Vec<String>,
    packages: Vec<String>,
) -> (r: Vec<String>)
    ensures
        r@.len() == 3 + features@.len() + modules@.len() + packages@.len(),
        r@[0]@ == "// @generated - do not modify. Modify build.rs instead.\n"@,
        forall|i: int|
            0 <= i < features@.len() ==> (#[trigger] r@[1 + i])@ == feature_line(features@[i]@),
        r@[1 + features@.len() as int]@ == "#![allow(clippy::match_single_binding)]\n"@,
        forall|i: int|
            0 <= i < modules@.len() ==> (#[trigger] r@[2 + features@.len() + i])@ == module_line(
                modules@[i]@,
            ),
        forall|i: int|
            0 <= i < packages@.len() ==> (#[trigger] r@[2 + features@.len() + modules@.len() + i])@
                == package_block(packages@[i]@),
        r@.last()@
            == "\npub const FILE_DESCRIPTOR_BYTES: &[u8] =\n    include_bytes!(concat!(env!(\"OUT_DIR\"), \"/descriptors.bin\"));\n"@,
{
    let mut r: Vec<String> = Vec::new();
    r.push("// @generated - do not modify. Modify build.rs instead.\n".to_owned());
    let mut i: usize = 0;
    while i < features.len()
        invariant
            0 <= i <= features@.len(),
            r@.len() == 1 + i,
            r@[0]@ == "// @generated - do not modify. Modify build.rs instead.\n"@,
            forall|k: int|
                0 <= k < i ==> (#[trigger] r@[1 + k])@ == feature_line(features@[k]@),
        decreases features@.len() - i,
    {
        let mut line = "#![feature(".to_owned();
        line.append(features[i].as_str());
        line.append(")]\n");
        proof {
            assert(line@ =~= feature_line(features@[i as int]@));
        }
        r.push(line);
        i = i + 1;
    }
    r.push("#![allow(clippy::match_single_binding)]\n".to_owned());
    let ghost after_features = 2 + features@.len() as int;
    let mut i: usize = 0;
    while i < modules.len()
        invariant
            0 <= i <= modules@.len(),
            r@.len() == after_features + i,
            after_features == 2 + features@.len(),
            r@[0]@ == "// @generated - do not modify. Modify build.rs instead.\n"@,
            forall|k: int|
                0 <= k < features@.len() ==> (#[trigger] r@[1 + k])@ == feature_line(
                    features@[k]@,
                ),
            r@[1 + features@.len() as int]@ == "#![allow(clippy::match_single_binding)]\n"@,
            forall|k: int|
                0 <= k < i ==> (#[trigger] r@[after_features + k])@ == module_line(modules@[k]@),
        decreases modules@.len() - i,
    {
        let mut line = "pub mod ".to_owned();
        line.append(modules[i].as_str());
        line.append(";\n");
        proof {
            assert(line@ =~= module_line(modules@[i as int]@));
        }
        r.push(line);
        i = i + 1;
    }
    let ghost after_modules = after_features + modules@.len() as int;
    let mut i: usize = 0;
    while i < packages.len()
        invariant
            0 <= i <= packages@.len(),
            r@.len() == after_modules + i,
            after_features == 2 + features@.len(),
            after_modules == after_features + modules@.len(),
            r@[0]@ == "// @generated - do not modify. Modify build.rs instead.\n"@,
            forall|k: int|
                0 <= k < features@.len() ==> (#[trigger] r@[1 + k])@ == feature_line(
                    features@[k]@,
                ),
            r@[1 + features@.len() as int]@ == "#![allow(clippy::match_single_binding)]\n"@,
            forall|k: int|
                0 <= k < modules@.len() ==> (#[trigger] r@[after_features + k])@ == module_line(
                    modules@[k]@,
                ),
            forall|k: int|
                0 <= k < i ==> (#[trigger] r@[after_modules + k])@ == package_block(
                    packages@[k]@,
                ),
        decreases packages@.len() - i,
    {
        let mut line = "pub mod ".to_owned();
        line.append(packages[i].as_str());
        line.append(" {\n    include!(concat!(env!(\"OUT_DIR\"), \"/");
        line.append(packages[i].as_str());
        line.append(".rs\"));\n}\n");
        proof {
            assert(line@ =~= package_block(packages@[i as int]@));
        }
        r.push(line);
        i = i + 1;
    }
    r.push(
        "\npub const FILE_DESCRIPTOR_BYTES: &[u8] =\n    include_bytes!(concat!(env!(\"OUT_DIR\"), \"/descriptors.bin\"));\n".to_owned(),
    );
    r
}

} // verus!
