use vstd::prelude::*;

use crate::builder::{fails_with, mod_decl, resolve, resolves, use_decl, CanonicalFile, FileError};
use crate::path::stem_of;
use crate::text::{join_lines, joined, views};

verus! {

/// The statement that declares the file at `path` as the module `name`,
/// closed by a line break.
pub open spec fn module_stmt(path: Seq<char>, name: Seq<char>) -> Seq<char> {
    mod_decl(path, name) + "\n"@
}

/// The statement that declares the file at `path` as the module `name` and
/// imports `pattern` out of it.
pub open spec fn module_use_stmt(path: Seq<char>, name: Seq<char>, pattern: Seq<char>) -> Seq<char> {
    mod_decl(path, name) + "\n"@ + use_decl(name, pattern)
}

/// Collects statements, each declaring a module, importing out of one, or
/// both, into a single list for a build script to write out.
pub struct UseBuilder {
    stmts: Vec<String>,
}

impl View for UseBuilder {
    type V = Seq<Seq<char>>;

    closed spec fn view(&self) -> Seq<Seq<char>> {
        views(self.stmts@)
    }
}

impl UseBuilder {
    /// A builder with no statements.
    pub fn new() -> (r: Self)
        ensures
            r@ == Seq::<Seq<char>>::empty(),
    {
        let r = UseBuilder { stmts: Vec::new() };
        proof {
            assert(r@ =~= Seq::<Seq<char>>::empty());
        }
        r
    }

    fn push_stmt(&mut self, stmt: String)
        ensures
            final(self)@ == old(self)@.push(stmt@),
    {
        self.stmts.push(stmt);
        proof {
            assert(self@ =~= old(self)@.push(stmt@));
        }
    }

    /// Declares the file at `file` (an absolute path) as a module named after
    /// its stem. On an error the builder is left as it was.
    pub fn mod_file(&mut self, file: CanonicalFile) -> (r: Result<(), FileError>)
        ensures
            r is Ok <==> resolves(file.path@, file.is_regular_file, None),
            r is Ok ==> final(self)@ == old(self)@.push(module_stmt(file.path@, stem_of(file.path@).unwrap())),
            r matches Err(e) ==> final(self)@ == old(self)@ && fails_with(e, file.path@, file.is_regular_file, None),
    {
        match resolve(&file, None) {
            Ok(d) => {
                let mut s = String::from_str("#[path = \"");
                s.append(d.canonical_path.as_str());
                s.append("\"]\nmod ");
                s.append(d.name.as_str());
                s.append(";\n");
                proof {
                    reveal_strlit(";\n");
                    reveal_strlit(";");
                    reveal_strlit("\n");
                    assert(";\n"@ =~= ";"@ + "\n"@);
                    assert(s@ =~= module_stmt(d.canonical_path@, d.name@));
                }
                self.push_stmt(s);
                Ok(())
            },
            Err(e) => Err(e),
        }
    }

    /// Declares the file at `file` as a module named after its stem, and
    /// imports `use_stmt` out of it, in one statement.
    pub fn use_file(&mut self, file: CanonicalFile, use_stmt: String) -> (r: Result<(), FileError>)
        ensures
            r is Ok <==> resolves(file.path@, file.is_regular_file, None),
            r is Ok ==> final(self)@ == old(self)@.push(
                module_use_stmt(file.path@, stem_of(file.path@).unwrap(), use_stmt@),
            ),
            r matches Err(e) ==> final(self)@ == old(self)@ && fails_with(e, file.path@, file.is_regular_file, None),
    {
        match resolve(&file, None) {
            Ok(d) => {
                let mut s = String::from_str("#[path = \"");
                s.append(d.canonical_path.as_str());
                s.append("\"]\nmod ");
                s.append(d.name.as_str());
                s.append(";\nuse ");
                s.append(d.name.as_str());
                s.append("::");
                s.append(use_stmt.as_str());
                s.append(";");
                proof {
                    reveal_strlit(";\nuse ");
                    reveal_strlit(";");
                    reveal_strlit("\n");
                    reveal_strlit("use ");
                    assert(";\nuse "@ =~= ";"@ + "\n"@ + "use "@);
                    assert(s@ =~= module_use_stmt(d.canonical_path@, d.name@, use_stmt@));
                }
                self.push_stmt(s);
                Ok(())
            },
            Err(e) => Err(e),
        }
    }

    /// Imports `use_stmt` with no module declared for it.
    pub fn use_crate(&mut self, use_stmt: String)
        ensures
            final(self)@ == old(self)@.push("use "@ + use_stmt@ + ";"@),
    {
        let mut s = String::from_str("use ");
        s.append(use_stmt.as_str());
        s.append(";");
        self.push_stmt(s);
    }

    /// The statements as text, one per line.
    pub fn contents(&self) -> (r: String)
        ensures
            r@ == joined(self@, "\n"@),
    {
        join_lines(&self.stmts, "\n")
    }
}

} // verus!
