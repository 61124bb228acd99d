use vstd::prelude::*;

use crate::path::{extension_of, file_extension, file_stem, opt_view, stem_of};
use crate::text::{join_lines, joined, views};

verus! {

/// A module declaration for the file at `path` under the name `name`.
pub open spec fn mod_decl(path: Seq<char>, name: Seq<char>) -> Seq<char> {
    "#[path = \""@ + path + "\"]\nmod "@ + name + ";"@
}

/// An import of `pattern` out of the module `name`.
pub open spec fn use_decl(name: Seq<char>, pattern: Seq<char>) -> Seq<char> {
    "use "@ + name + "::"@ + pattern + ";"@
}

/// An import of `pattern` with no module declared for it.
pub open spec fn crate_use_decl(pattern: Seq<char>) -> Seq<char> {
    "use "@ + pattern + ";"@
}

/// An import declaration preceded by the marker that silences the unused
/// import lint.
pub open spec fn allow_marked(decl: Seq<char>) -> Seq<char> {
    "#[allow(unused_imports)]\n"@ + decl
}

/// The module name for the file at `path`: the alias when one is given,
/// the file's stem otherwise.
pub open spec fn module_name(path: Seq<char>, alias: Option<Seq<char>>) -> Option<Seq<char>> {
    match alias {
        Some(a) => Some(a),
        None => stem_of(path),
    }
}

/// Whether the file at `path` can be declared as a module: it is a regular
/// file, it has a name, and it carries the Rust source extension.
pub open spec fn resolves(path: Seq<char>, regular: bool, alias: Option<Seq<char>>) -> bool {
    &&& regular
    &&& module_name(path, alias) is Some
    &&& extension_of(path) == Some("rs"@)
}

/// Why a file cannot be declared as a module.
#[derive(Debug, PartialEq, Eq)]
pub enum FileError {
    /// The path is not a regular file, or has no final component to name a
    /// module after.
    NotRegularFile(String),
    /// The file does not carry the `rs` extension.
    NotRustFile(String),
    /// One alias was given for several files, which would all be declared
    /// under the same name.
    SharedAlias(usize),
}

/// `e` is the error that resolving the file at `path` gives.
pub open spec fn fails_with(
    e: FileError,
    path: Seq<char>,
    regular: bool,
    alias: Option<Seq<char>>,
) -> bool {
    if !regular || module_name(path, alias) is None {
        e matches FileError::NotRegularFile(p) && p@ == path
    } else {
        e matches FileError::NotRustFile(p) && p@ == path
    }
}

/// A file as found on disk: its absolute path, and whether it is a regular
/// file (not a directory or another kind of entry).
pub struct CanonicalFile {
    pub path: String,
    pub is_regular_file: bool,
}

/// The paths of a list of files.
pub open spec fn paths(files: Seq<CanonicalFile>) -> Seq<Seq<char>> {
    files.map_values(|f: CanonicalFile| f.path@)
}

/// A file resolved to the path it is read from and the module name it is
/// declared under.
pub struct ModuleDescriptor {
    pub canonical_path: String,
    pub name: String,
}

/// Resolves `file` to a module descriptor. The module is named `alias` when
/// one is given, after the file's stem otherwise; the file must be a regular
/// file, have a name, and carry the `rs` extension.
pub fn resolve(file: &CanonicalFile, alias: Option<String>) -> (r: Result<ModuleDescriptor, FileError>)
    ensures
        r is Ok <==> resolves(file.path@, file.is_regular_file, opt_view(alias)),
        r matches Ok(d) ==> d.canonical_path@ == file.path@ && module_name(
            file.path@,
            opt_view(alias),
        ) == Some(d.name@),
        r matches Err(e) ==> fails_with(e, file.path@, file.is_regular_file, opt_view(alias)),
{
    let path = file.path.as_str();
    if !file.is_regular_file {
        return Err(FileError::NotRegularFile(path.to_owned()));
    }
    let name = match alias {
        Some(a) => Some(a),
        None => file_stem(path),
    };
    match name {
        None => Err(FileError::NotRegularFile(path.to_owned())),
        Some(name) => {
            let is_rs = match file_extension(path) {
                Some(ext) => ext == String::from_str("rs"),
                None => false,
            };
            if is_rs {
                Ok(ModuleDescriptor { canonical_path: path.to_owned(), name })
            } else {
                Err(FileError::NotRustFile(path.to_owned()))
            }
        },
    }
}

/// What a builder holds: the module declarations and the import declarations
/// in the order they were added, and whether imports are rendered with the
/// marker that silences the unused import lint.
pub struct BuilderState {
    pub mods: Seq<Seq<char>>,
    pub uses: Seq<Seq<char>>,
    pub allow_unused: bool,
}

/// `s` after declaring the file at `path` as the module `name`, together with
/// an import of `pattern` out of it when one is given.
pub open spec fn with_module(
    s: BuilderState,
    path: Seq<char>,
    name: Seq<char>,
    pattern: Option<Seq<char>>,
) -> BuilderState {
    BuilderState {
        mods: s.mods.push(mod_decl(path, name)),
        uses: match pattern {
            Some(p) => s.uses.push(use_decl(name, p)),
            None => s.uses,
        },
        allow_unused: s.allow_unused,
    }
}

/// `s` after adding the file at `path`, which resolves under `alias`.
pub open spec fn with_file(
    s: BuilderState,
    path: Seq<char>,
    pattern: Option<Seq<char>>,
    alias: Option<Seq<char>>,
) -> BuilderState {
    with_module(s, path, module_name(path, alias).unwrap(), pattern)
}

/// `s` after adding each of `files` in turn.
pub open spec fn with_files(
    s: BuilderState,
    files: Seq<Seq<char>>,
    pattern: Option<Seq<char>>,
    alias: Option<Seq<char>>,
) -> BuilderState
    decreases files.len(),
{
    if files.len() == 0 {
        s
    } else {
        with_file(with_files(s, files.drop_last(), pattern, alias), files.last(), pattern, alias)
    }
}

/// Which declarations a rendering holds.
#[derive(Debug, Clone, Copy, PartialEq, Eq)]
pub enum EmitMode {
    ModulesOnly,
    ImportsOnly,
    All,
}

/// Each import declaration with the unused import marker in front.
pub open spec fn marked_lines(uses: Seq<Seq<char>>) -> Seq<Seq<char>> {
    uses.map_values(|u: Seq<char>| allow_marked(u))
}

/// The module declarations, one per line.
pub open spec fn mods_text(s: BuilderState) -> Seq<char> {
    joined(s.mods, "\n"@)
}

/// The import declarations, one per line, each with the unused import marker
/// in front when the state asks for it.
pub open spec fn uses_text(s: BuilderState) -> Seq<char> {
    if s.allow_unused {
        joined(marked_lines(s.uses), "\n"@)
    } else {
        joined(s.uses, "\n"@)
    }
}

/// The module declarations and then the block of imports, one per line.
pub open spec fn all_text(s: BuilderState) -> Seq<char> {
    joined(s.mods.push(uses_text(s)), "\n"@)
}

/// The rendering of `s` in the given mode.
pub open spec fn emitted(s: BuilderState, mode: EmitMode) -> Seq<char> {
    match mode {
        EmitMode::ModulesOnly => mods_text(s),
        EmitMode::ImportsOnly => uses_text(s),
        EmitMode::All => all_text(s),
    }
}

/// Accumulates module and import declarations for files outside the crate's
/// own module tree.
pub struct UseBuilder {
    mod_stmts: Vec<String>,
    use_stmts: Vec<String>,
    unused: bool,
}

impl View for UseBuilder {
    type V = BuilderState;

    closed spec fn view(&self) -> BuilderState {
        BuilderState {
            mods: views(self.mod_stmts@),
            uses: views(self.use_stmts@),
            allow_unused: self.unused,
        }
    }
}

fn mod_decl_text(path: &str, name: &str) -> (r: String)
    ensures
        r@ == mod_decl(path@, name@),
{
    let mut s = String::from_str("#[path = \"");
    s.append(path);
    s.append("\"]\nmod ");
    s.append(name);
    s.append(";");
    s
}

fn use_decl_text(name: &str, pattern: &str) -> (r: String)
    ensures
        r@ == use_decl(name@, pattern@),
{
    let mut s = String::from_str("use ");
    s.append(name);
    s.append("::");
    s.append(pattern);
    s.append(";");
    s
}

impl UseBuilder {
    /// A builder with no declarations, which marks imports as allowed to go
    /// unused.
    pub fn new() -> (r: Self)
        ensures
            r@ == (BuilderState { mods: seq![], uses: seq![], allow_unused: true }),
    {
        let r = UseBuilder { mod_stmts: Vec::new(), use_stmts: Vec::new(), unused: true };
        proof {
            assert(r@.mods =~= seq![]);
            assert(r@.uses =~= seq![]);
        }
        r
    }

    fn push_module(&mut self, d: &ModuleDescriptor, pattern: &Option<String>)
        ensures
            final(self)@ == with_module(
                old(self)@,
                d.canonical_path@,
                d.name@,
                opt_view(*pattern),
            ),
    {
        let m = mod_decl_text(d.canonical_path.as_str(), d.name.as_str());
        self.mod_stmts.push(m);
        match pattern {
            Some(p) => {
                let u = use_decl_text(d.name.as_str(), p.as_str());
                self.use_stmts.push(u);
            },
            None => {},
        }
        proof {
            let o = old(self)@;
            let n = self@;
            assert(n.mods =~= o.mods.push(mod_decl(d.canonical_path@, d.name@)));
            match pattern {
                Some(p) => assert(n.uses =~= o.uses.push(use_decl(d.name@, p@))),
                None => assert(n.uses =~= o.uses),
            }
        }
    }

    fn file(&mut self, file: CanonicalFile, use_stmt: Option<String>, alias: Option<String>) -> (r: Result<(), FileError>)
        ensures
            r is Ok <==> resolves(file.path@, file.is_regular_file, opt_view(alias)),
            r is Ok ==> final(self)@ == with_file(old(self)@, file.path@, opt_view(use_stmt), opt_view(alias)),
            r matches Err(e) ==> final(self)@ == old(self)@ && fails_with(e, file.path@, file.is_regular_file, opt_view(alias)),
    {
        match resolve(&file, alias) {
            Ok(d) => {
                self.push_module(&d, &use_stmt);
                Ok(())
            },
            Err(e) => Err(e),
        }
    }

    /// Declares the file at `file` (an absolute path) as a module named after
    /// its stem. On an error the builder is left as it was.
    pub fn mod_file(&mut self, file: CanonicalFile) -> (r: Result<(), FileError>)
        ensures
            r is Ok <==> resolves(file.path@, file.is_regular_file, None),
            r is Ok ==> final(self)@ == with_file(old(self)@, file.path@, None, None),
            r matches Err(e) ==> final(self)@ == old(self)@ && fails_with(e, file.path@, file.is_regular_file, None),
    {
        self.file(file, None, None)
    }

    /// Declares the file at `file` as a module named after its stem, and
    /// imports `use_stmt` out of it.
    pub fn use_file(&mut self, file: CanonicalFile, use_stmt: String) -> (r: Result<(), FileError>)
        ensures
            r is Ok <==> resolves(file.path@, file.is_regular_file, None),
            r is Ok ==> final(self)@ == with_file(old(self)@, file.path@, Some(use_stmt@), None),
            r matches Err(e) ==> final(self)@ == old(self)@ && fails_with(e, file.path@, file.is_regular_file, None),
    {
        self.file(file, Some(use_stmt), None)
    }

    /// Declares the file at `file` as a module named `alias`, whatever its
    /// stem.
    pub fn mod_file_alias(&mut self, file: CanonicalFile, alias: &str) -> (r: Result<(), FileError>)
        ensures
            r is Ok <==> resolves(file.path@, file.is_regular_file, Some(alias@)),
            r is Ok ==> final(self)@ == with_file(old(self)@, file.path@, None, Some(alias@)),
            r matches Err(e) ==> final(self)@ == old(self)@ && fails_with(e, file.path@, file.is_regular_file, Some(alias@)),
    {
        self.file(file, None, Some(alias.to_owned()))
    }

    /// Declares the file at `file` as a module named `alias`, and imports
    /// `use_stmt` out of it.
    pub fn use_file_alias(&mut self, file: CanonicalFile, use_stmt: String, alias: &str) -> (r: Result<(), FileError>)
        ensures
            r is Ok <==> resolves(file.path@, file.is_regular_file, Some(alias@)),
            r is Ok ==> final(self)@ == with_file(old(self)@, file.path@, Some(use_stmt@), Some(alias@)),
            r matches Err(e) ==> final(self)@ == old(self)@ && fails_with(e, file.path@, file.is_regular_file, Some(alias@)),
    {
        self.file(file, Some(use_stmt), Some(alias.to_owned()))
    }

    /// Imports `use_stmt` with no module declared for it, as for a crate
    /// that is already in scope.
    pub fn use_crate(&mut self, use_stmt: String)
        ensures
            final(self)@ == (BuilderState { uses: old(self)@.uses.push(crate_use_decl(use_stmt@)), ..old(self)@ }),
    {
        let mut s = String::from_str("use ");
        s.append(use_stmt.as_str());
        s.append(";");
        self.use_stmts.push(s);
        proof {
            assert(self@.mods =~= old(self)@.mods);
            assert(self@.uses =~= old(self)@.uses.push(crate_use_decl(use_stmt@)));
        }
    }

    /// Adds each of `files` (the absolute paths that a glob pattern matched)
    /// in order, importing `use_stmt` out of each when one is given and
    /// naming each `alias` when one is given. Either every file is added or,
    /// on an error, none is: the error is that of the first file that does
    /// not resolve, or `SharedAlias` when one alias is given for more than
    /// one file.
    pub fn add_matches(&mut self, files: Vec<CanonicalFile>, use_stmt: Option<String>, alias: Option<String>) -> (r: Result<(), FileError>)
        ensures
            r is Ok <==> (alias is None || files.len() <= 1) && forall|i: int|
                0 <= i < files.len() ==> resolves(#[trigger] files@[i].path@, files@[i].is_regular_file, opt_view(alias)),
            r is Ok ==> final(self)@ == with_files(old(self)@, paths(files@), opt_view(use_stmt), opt_view(alias)),
            r matches Err(e) ==> final(self)@ == old(self)@,
            r matches Err(e) ==> (e is SharedAlias <==> (alias is Some && files.len() > 1)),
            r matches Err(e) ==> !(e is SharedAlias) ==> exists|i: int|
                0 <= i < files.len() && fails_with(e, #[trigger] files@[i].path@, files@[i].is_regular_file, opt_view(alias)) && forall|j: int|
                    0 <= j < i ==> resolves(#[trigger] files@[j].path@, files@[j].is_regular_file, opt_view(alias)),
    {
        if alias.is_some() && files.len() > 1 {
            return Err(FileError::SharedAlias(files.len()));
        }
        let mut found: Vec<ModuleDescriptor> = Vec::new();
        let mut i: usize = 0;
        while i < files.len()
            invariant
                i <= files.len(),
                found.len() == i,
                !(alias is Some && files.len() > 1),
                forall|j: int| 0 <= j < i ==> resolves(#[trigger] files@[j].path@, files@[j].is_regular_file, opt_view(alias)),
                forall|j: int|
                    0 <= j < i ==> (#[trigger] found@[j]).canonical_path@ == files@[j].path@ && module_name(
                        files@[j].path@,
                        opt_view(alias),
                    ) == Some(found@[j].name@),
            decreases files.len() - i,
        {
            match resolve(&files[i], alias.clone()) {
                Ok(d) => found.push(d),
                Err(e) => return Err(e),
            }
            i = i + 1;
        }
        let ghost start = self@;
        let ghost fs = paths(files@);
        let mut k: usize = 0;
        while k < found.len()
            invariant
                k <= found.len(),
                found.len() == files.len(),
                fs == paths(files@),
                forall|j: int|
                    0 <= j < found.len() ==> (#[trigger] found@[j]).canonical_path@ == files@[j].path@ && module_name(
                        files@[j].path@,
                        opt_view(alias),
                    ) == Some(found@[j].name@),
                self@ == with_files(start, fs.take(k as int), opt_view(use_stmt), opt_view(alias)),
            decreases found.len() - k,
        {
            self.push_module(&found[k], &use_stmt);
            proof {
                assert(fs.take(k + 1).drop_last() =~= fs.take(k as int));
            }
            k = k + 1;
        }
        proof {
            assert(fs.take(k as int) =~= fs);
        }
        Ok(())
    }

    /// Marks every import as allowed to go unused when rendered.
    pub fn allow_unused(&mut self)
        ensures
            final(self)@ == (BuilderState { allow_unused: true, ..old(self)@ }),
    {
        self.unused = true;
    }

    /// Renders imports without the unused import marker, so that the lint
    /// reports imports that go unused.
    pub fn warn_unused(&mut self)
        ensures
            final(self)@ == (BuilderState { allow_unused: false, ..old(self)@ }),
    {
        self.unused = false;
    }

    /// The declarations as text, in the given mode.
    pub fn emit(&self, mode: EmitMode) -> (r: String)
        ensures
            r@ == emitted(self@, mode),
    {
        match mode {
            EmitMode::ModulesOnly => join_lines(&self.mod_stmts, "\n"),
            EmitMode::ImportsOnly => self.imports_text(),
            EmitMode::All => {
                let mut parts: Vec<String> = self.mod_stmts.clone();
                let imports = self.imports_text();
                parts.push(imports);
                proof {
                    assert(views(parts@) =~= self@.mods.push(uses_text(self@)));
                }
                join_lines(&parts, "\n")
            },
        }
    }

    fn imports_text(&self) -> (r: String)
        ensures
            r@ == uses_text(self@),
    {
        if self.unused {
            let mut marked: Vec<String> = Vec::new();
            let mut i: usize = 0;
            while i < self.use_stmts.len()
                invariant
                    i <= self.use_stmts.len(),
                    views(marked@) =~= marked_lines(self@.uses.take(i as int)),
                decreases self.use_stmts.len() - i,
            {
                let mut m = String::from_str("#[allow(unused_imports)]\n");
                m.append(self.use_stmts[i].as_str());
                let ghost before = marked@;
                marked.push(m);
                proof {
                    assert(views(marked@) =~= views(before).push(m@));
                    assert(self@.uses.take(i + 1) =~= self@.uses.take(i as int).push(self@.uses[i as int]));
                }
                i = i + 1;
            }
            proof {
                assert(self@.uses.take(i as int) =~= self@.uses);
            }
            join_lines(&marked, "\n")
        } else {
            join_lines(&self.use_stmts, "\n")
        }
    }
}

/// The full rendering is the module rendering, a line break, and the import
/// rendering; with no module declared it is the import rendering alone.
pub proof fn lemma_all_is_modules_then_imports(s: BuilderState)
    ensures
        emitted(s, EmitMode::All) == if s.mods.len() == 0 {
            emitted(s, EmitMode::ImportsOnly)
        } else {
            emitted(s, EmitMode::ModulesOnly) + "\n"@ + emitted(s, EmitMode::ImportsOnly)
        },
{
    let parts = s.mods.push(uses_text(s));
    assert(parts.drop_last() =~= s.mods);
    assert(parts.last() == uses_text(s));
}

/// With the marker on, each import line is rendered as that line with the
/// marker in front; with it off, the same lines are rendered bare.
pub proof fn lemma_suppression_toggle(s: BuilderState)
    ensures
        emitted(BuilderState { allow_unused: true, ..s }, EmitMode::ImportsOnly) == joined(
            marked_lines(s.uses),
            "\n"@,
        ),
        emitted(BuilderState { allow_unused: false, ..s }, EmitMode::ImportsOnly) == joined(
            s.uses,
            "\n"@,
        ),
        forall|i: int|
            0 <= i < s.uses.len() ==> #[trigger] marked_lines(s.uses)[i]
                == "#[allow(unused_imports)]\n"@ + s.uses[i],
{
}

/// A file added under an alias is declared under the alias and never under
/// its stem, when the two differ.
pub proof fn lemma_alias_precedence(
    s: BuilderState,
    path: Seq<char>,
    pattern: Option<Seq<char>>,
    alias: Seq<char>,
)
    requires
        stem_of(path) is Some,
        stem_of(path).unwrap() != alias,
    ensures
        with_file(s, path, pattern, Some(alias)).mods.last() == mod_decl(path, alias),
        with_file(s, path, pattern, Some(alias)).mods.last() != mod_decl(
            path,
            stem_of(path).unwrap(),
        ),
{
    let stem = stem_of(path).unwrap();
    let pre = "#[path = \""@ + path + "\"]\nmod "@;
    let end = ";"@;
    assert(mod_decl(path, alias) == pre + alias + end);
    assert(mod_decl(path, stem) == pre + stem + end);
    if alias.len() == stem.len() {
        assert(exists|k: int| 0 <= k < alias.len() && alias[k] != stem[k]) by {
            if forall|k: int| 0 <= k < alias.len() ==> alias[k] == stem[k] {
                assert(alias =~= stem);
            }
        }
        let k = choose|k: int| 0 <= k < alias.len() && alias[k] != stem[k];
        assert((pre + alias + end)[pre.len() + k] == alias[k]);
        assert((pre + stem + end)[pre.len() + k] == stem[k]);
    } else {
        assert((pre + alias + end).len() != (pre + stem + end).len());
    }
}

/// Adding files without an alias declares one module per file, in order,
/// each named after its file's stem.
pub proof fn lemma_files_named_by_stems(
    s: BuilderState,
    files: Seq<Seq<char>>,
    pattern: Option<Seq<char>>,
)
    requires
        forall|i: int| 0 <= i < files.len() ==> (#[trigger] stem_of(files[i])) is Some,
    ensures
        with_files(s, files, pattern, None).mods == s.mods + files.map_values(
            |f: Seq<char>| mod_decl(f, stem_of(f).unwrap()),
        ),
    decreases files.len(),
{
    let named = files.map_values(|f: Seq<char>| mod_decl(f, stem_of(f).unwrap()));
    if files.len() == 0 {
        assert(s.mods + named =~= s.mods);
    } else {
        let rest = files.drop_last();
        assert forall|i: int| 0 <= i < rest.len() implies (#[trigger] stem_of(rest[i])) is Some by {
            assert(rest[i] == files[i]);
        }
        lemma_files_named_by_stems(s, rest, pattern);
        let rest_named = rest.map_values(|f: Seq<char>| mod_decl(f, stem_of(f).unwrap()));
        assert(named =~= rest_named.push(mod_decl(files.last(), stem_of(files.last()).unwrap())));
        assert(s.mods + named =~= (s.mods + rest_named).push(
            mod_decl(files.last(), stem_of(files.last()).unwrap()),
        ));
    }
}

/// Adding a regular Rust file declares it under its stem when no alias is
/// given and under the alias, verbatim, otherwise; an import, when asked
/// for, names the same module; the marker policy is kept.
pub proof fn lemma_module_named_by_stem_or_alias(
    s: BuilderState,
    path: Seq<char>,
    pattern: Option<Seq<char>>,
    alias: Option<Seq<char>>,
)
    requires
        resolves(path, true, alias),
    ensures
        ({
            let name = match alias {
                Some(a) => a,
                None => stem_of(path).unwrap(),
            };
            let n = with_file(s, path, pattern, alias);
            &&& n.mods == s.mods.push(mod_decl(path, name))
            &&& n.uses == match pattern {
                Some(p) => s.uses.push(use_decl(name, p)),
                None => s.uses,
            }
            &&& n.allow_unused == s.allow_unused
        }),
{
}

/// A path that is not a regular file, or that does not carry the `rs`
/// extension, never resolves, whatever the alias; the error names the path.
pub proof fn lemma_rejected_files(path: Seq<char>, regular: bool, alias: Option<Seq<char>>, e: FileError)
    requires
        !regular || extension_of(path) != Some("rs"@),
    ensures
        !resolves(path, regular, alias),
        fails_with(e, path, regular, alias) && !regular ==> (e matches FileError::NotRegularFile(p)
            && p@ == path),
        fails_with(e, path, regular, alias) && regular ==> (e matches FileError::NotRustFile(p) && p@
            == path) || (e matches FileError::NotRegularFile(p) && p@ == path && module_name(path, alias) is None),
{
}

} // verus!
