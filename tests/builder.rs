use proc_use::builder::{resolve, CanonicalFile, EmitMode, FileError, UseBuilder};

fn file(path: &str) -> CanonicalFile {
    CanonicalFile { path: path.to_string(), is_regular_file: true }
}

fn directory(path: &str) -> CanonicalFile {
    CanonicalFile { path: path.to_string(), is_regular_file: false }
}

fn texts(b: &UseBuilder) -> (String, String, String) {
    (b.emit(EmitMode::ModulesOnly), b.emit(EmitMode::ImportsOnly), b.emit(EmitMode::All))
}

#[test]
fn resolve_names_module_after_stem() {
    let d = resolve(&file("/work/external/foo.rs"), None).unwrap();
    assert_eq!(d.name, "foo");
    assert_eq!(d.canonical_path, "/work/external/foo.rs");
}

#[test]
fn resolve_prefers_alias() {
    let d = resolve(&file("/work/external/foo.rs"), Some("bar".to_string())).unwrap();
    assert_eq!(d.name, "bar");
    assert_eq!(d.canonical_path, "/work/external/foo.rs");
}

#[test]
fn resolve_rejects_other_extension() {
    let e = resolve(&file("/work/external/foo.txt"), None).err().unwrap();
    assert_eq!(e, FileError::NotRustFile("/work/external/foo.txt".to_string()));
}

#[test]
fn resolve_rejects_missing_extension() {
    let e = resolve(&file("/work/external/foo"), None).err().unwrap();
    assert_eq!(e, FileError::NotRustFile("/work/external/foo".to_string()));
}

#[test]
fn resolve_rejects_path_without_file_name() {
    let e = resolve(&file("/"), None).err().unwrap();
    assert_eq!(e, FileError::NotRegularFile("/".to_string()));
    let e = resolve(&file("/"), Some("x".to_string())).err().unwrap();
    assert_eq!(e, FileError::NotRustFile("/".to_string()));
}

#[test]
fn new_builder_emits_nothing() {
    let b = UseBuilder::new();
    assert_eq!(texts(&b), (String::new(), String::new(), String::new()));
}

#[test]
fn end_to_end_module_with_wildcard_import() {
    let mut b = UseBuilder::new();
    b.use_file(file("/work/external/foo.rs"), "*".to_string()).unwrap();
    assert_eq!(
        b.emit(EmitMode::All),
        "#[path = \"/work/external/foo.rs\"]\nmod foo;\n#[allow(unused_imports)]\nuse foo::*;"
    );
    b.warn_unused();
    assert_eq!(b.emit(EmitMode::All), "#[path = \"/work/external/foo.rs\"]\nmod foo;\nuse foo::*;");
}

#[test]
fn alias_replaces_stem_in_declaration() {
    let mut b = UseBuilder::new();
    b.mod_file_alias(file("/work/external/foo.rs"), "bar").unwrap();
    let mods = b.emit(EmitMode::ModulesOnly);
    assert_eq!(mods, "#[path = \"/work/external/foo.rs\"]\nmod bar;");
    assert!(!mods.contains("mod foo;"));
}

#[test]
fn aliased_import_uses_alias() {
    let mut b = UseBuilder::new();
    b.warn_unused();
    b.use_file_alias(file("/work/external/foo.rs"), "{a, b}".to_string(), "bar").unwrap();
    assert_eq!(b.emit(EmitMode::ImportsOnly), "use bar::{a, b};");
}

#[test]
fn all_is_modules_then_imports() {
    let mut b = UseBuilder::new();
    b.use_file(file("/w/a.rs"), "*".to_string()).unwrap();
    b.mod_file(file("/w/b.rs")).unwrap();
    b.use_crate("std::fmt".to_string());
    let (mods, uses, all) = texts(&b);
    assert_eq!(mods, "#[path = \"/w/a.rs\"]\nmod a;\n#[path = \"/w/b.rs\"]\nmod b;");
    assert_eq!(
        uses,
        "#[allow(unused_imports)]\nuse a::*;\n#[allow(unused_imports)]\nuse std::fmt;"
    );
    assert_eq!(all, format!("{}\n{}", mods, uses));
}

#[test]
fn all_without_modules_is_imports() {
    let mut b = UseBuilder::new();
    b.use_crate("std::fmt".to_string());
    let (mods, uses, all) = texts(&b);
    assert_eq!(mods, "");
    assert_eq!(all, uses);
}

#[test]
fn modules_without_imports_end_with_line_break() {
    let mut b = UseBuilder::new();
    b.mod_file(file("/w/a.rs")).unwrap();
    assert_eq!(b.emit(EmitMode::All), "#[path = \"/w/a.rs\"]\nmod a;\n");
}

#[test]
fn suppression_toggle_marks_every_import() {
    let mut b = UseBuilder::new();
    b.use_crate("x::y".to_string());
    b.use_crate("z".to_string());
    b.allow_unused();
    assert_eq!(
        b.emit(EmitMode::ImportsOnly),
        "#[allow(unused_imports)]\nuse x::y;\n#[allow(unused_imports)]\nuse z;"
    );
    b.warn_unused();
    assert_eq!(b.emit(EmitMode::ImportsOnly), "use x::y;\nuse z;");
}

#[test]
fn same_calls_give_same_text() {
    let run = || {
        let mut b = UseBuilder::new();
        b.use_file(file("/w/a.rs"), "f".to_string()).unwrap();
        b.mod_file_alias(file("/w/b.rs"), "c").unwrap();
        b.use_crate("std::io".to_string());
        texts(&b)
    };
    assert_eq!(run(), run());
}

#[test]
fn failed_add_leaves_builder_unchanged() {
    let mut b = UseBuilder::new();
    b.use_file(file("/w/a.rs"), "*".to_string()).unwrap();
    let before = texts(&b);
    assert_eq!(
        b.use_file(file("/w/a.txt"), "*".to_string()),
        Err(FileError::NotRustFile("/w/a.txt".to_string()))
    );
    assert_eq!(texts(&b), before);
}

#[test]
fn matches_declare_one_module_each() {
    let mut b = UseBuilder::new();
    let files = vec![file("/w/src/util/a.rs"), file("/w/src/util/b.rs")];
    b.add_matches(files, None, None).unwrap();
    assert_eq!(
        b.emit(EmitMode::ModulesOnly),
        "#[path = \"/w/src/util/a.rs\"]\nmod a;\n#[path = \"/w/src/util/b.rs\"]\nmod b;"
    );
    assert_eq!(b.emit(EmitMode::ImportsOnly), "");
}

#[test]
fn matches_with_import() {
    let mut b = UseBuilder::new();
    b.warn_unused();
    let files = vec![file("/w/a.rs"), file("/w/b.rs")];
    b.add_matches(files, Some("*".to_string()), None).unwrap();
    assert_eq!(b.emit(EmitMode::ImportsOnly), "use a::*;\nuse b::*;");
}

#[test]
fn matches_fail_as_a_whole() {
    let mut b = UseBuilder::new();
    let files = vec![file("/w/a.rs"), file("/w/b.txt"), file("/")];
    assert_eq!(
        b.add_matches(files, None, None),
        Err(FileError::NotRustFile("/w/b.txt".to_string()))
    );
    assert_eq!(b.emit(EmitMode::All), "");
}

#[test]
fn one_alias_for_many_matches_is_rejected() {
    let mut b = UseBuilder::new();
    let files = vec![file("/w/a.rs"), file("/w/b.rs")];
    assert_eq!(
        b.add_matches(files, None, Some("c".to_string())),
        Err(FileError::SharedAlias(2))
    );
    assert_eq!(b.emit(EmitMode::All), "");
    b.add_matches(vec![file("/w/a.rs")], None, Some("c".to_string())).unwrap();
    assert_eq!(b.emit(EmitMode::ModulesOnly), "#[path = \"/w/a.rs\"]\nmod c;");
}

#[test]
fn empty_match_list_adds_nothing() {
    let mut b = UseBuilder::new();
    b.add_matches(Vec::new(), Some("*".to_string()), Some("c".to_string())).unwrap();
    assert_eq!(b.emit(EmitMode::All), "");
}

#[test]
fn resolve_rejects_directory_named_like_source_file() {
    let e = resolve(&directory("/work/external/x.rs"), None).err().unwrap();
    assert_eq!(e, FileError::NotRegularFile("/work/external/x.rs".to_string()));
    let e = resolve(&directory("/work/external/x.rs"), Some("y".to_string())).err().unwrap();
    assert_eq!(e, FileError::NotRegularFile("/work/external/x.rs".to_string()));
}

#[test]
fn builder_rejects_directory_and_stays_unchanged() {
    let mut b = UseBuilder::new();
    assert_eq!(
        b.use_file(directory("/w/d.rs"), "*".to_string()),
        Err(FileError::NotRegularFile("/w/d.rs".to_string()))
    );
    let files = vec![file("/w/a.rs"), directory("/w/d.rs")];
    assert_eq!(
        b.add_matches(files, None, None),
        Err(FileError::NotRegularFile("/w/d.rs".to_string()))
    );
    assert_eq!(b.emit(EmitMode::All), "");
}
