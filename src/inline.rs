use vstd::prelude::*;

use crate::path::{extension_of, file_extension, file_stem, opt_view, stem_of};

verus! {

/// The bracket pair that encloses a group of tokens.
#[derive(Debug, Clone, Copy, PartialEq, Eq)]
pub enum Delimiter {
    Parenthesis,
    Brace,
    Bracket,
    Invisible,
}

/// Whether a punctuation character is joined to the one that follows it, as
/// the two characters of `::` are.
#[derive(Debug, Clone, Copy, PartialEq, Eq)]
pub enum Spacing {
    Alone,
    Joint,
}

/// One token tree of the annotation syntax, as the host compiler hands it
/// over: an identifier or literal carries its source text. The last field of
/// each is the token's location, an id that the caller maps back to a place
/// in the source.
#[derive(Debug, PartialEq, Eq)]
pub enum Token {
    Ident(String, usize),
    Punct(char, Spacing, usize),
    Literal(String, usize),
    Group(Delimiter, Vec<Token>, usize),
}

/// The location of a token.
pub open spec fn loc_of(t: Token) -> usize {
    match t {
        Token::Ident(_, l) => l,
        Token::Punct(_, _, l) => l,
        Token::Literal(_, l) => l,
        Token::Group(_, _, l) => l,
    }
}

pub open spec fn is_punct(t: Token, c: char) -> bool {
    t matches Token::Punct(p, _, _) && p == c
}

pub open spec fn is_ident(t: Token, s: Seq<char>) -> bool {
    t matches Token::Ident(i, _) && i@ == s
}

pub open spec fn is_group(t: Token, d: Delimiter) -> bool {
    t matches Token::Group(g, _, _) && g == d
}

/// A string literal written between plain double quotes.
pub open spec fn is_quoted(t: Token) -> bool {
    t matches Token::Literal(s, _) && s@.len() >= 2 && s@[0] == '"' && s@.last() == '"'
}

/// `out` is the attribute group `t` with a leading `mod` keyword replaced by
/// the `__mod` identifier at the keyword's location. With `sole`, only a
/// keyword that is the group's whole content is replaced. Any other token is
/// left as it is.
pub open spec fn renamed(t: Token, out: Token, sole: bool) -> bool {
    match t {
        Token::Group(Delimiter::Bracket, v, l) => {
            if v@.len() >= 1 && (!sole || v@.len() == 1) && is_ident(v@[0], "mod"@) {
                &&& out matches Token::Group(d, w, l2)
                &&& d == Delimiter::Bracket
                &&& l2 == l
                &&& w@.len() == v@.len()
                &&& is_ident(w@[0], "__mod"@)
                &&& loc_of(w@[0]) == loc_of(v@[0])
                &&& w@.skip(1) == v@.skip(1)
            } else {
                out == t
            }
        },
        _ => out == t,
    }
}

/// `#` and a bracket group: an outer attribute.
pub open spec fn attr_start(ts: Seq<Token>) -> bool {
    ts.len() >= 2 && is_punct(ts[0], '#') && is_group(ts[1], Delimiter::Bracket)
}

/// `#`, `!` and a bracket group: an inner attribute.
pub open spec fn inner_attr_start(ts: Seq<Token>) -> bool {
    &&& ts.len() >= 3
    &&& is_punct(ts[0], '#')
    &&& is_punct(ts[1], '!')
    &&& is_group(ts[2], Delimiter::Bracket)
}

/// The first token inside a group.
pub open spec fn group_head(t: Token) -> Token {
    match t {
        Token::Group(_, v, _) => v@[0],
        _ => t,
    }
}

/// `mod` and a parenthesised group that holds one quoted string literal.
pub open spec fn path_call(ts: Seq<Token>) -> bool {
    &&& ts.len() >= 2
    &&& is_ident(ts[0], "mod"@)
    &&& ts[1] matches Token::Group(d, v, _)
    &&& d == Delimiter::Parenthesis
    &&& v@.len() == 1
    &&& is_quoted(v@[0])
}

/// `out` is the item `const r#mod: _ = lit`, its new tokens at location
/// `at`.
pub open spec fn path_const(out: Seq<Token>, lit: Token, at: usize) -> bool {
    &&& out.len() == 6
    &&& is_ident(out[0], "const"@) && loc_of(out[0]) == at
    &&& is_ident(out[1], "r#mod"@) && loc_of(out[1]) == at
    &&& out[2] == Token::Punct(':', Spacing::Alone, at)
    &&& is_ident(out[3], "_"@) && loc_of(out[3]) == at
    &&& out[4] == Token::Punct('=', Spacing::Alone, at)
    &&& out[5] == lit
}

/// `out` is `ts` rewritten from left to right: the `mod` keyword that opens
/// an attribute becomes `__mod`, and each `mod("path")` becomes
/// `const r#mod: _ = "path"` at the location of the keyword; every other
/// token stays where it was.
pub open spec fn desugared(ts: Seq<Token>, out: Seq<Token>) -> bool
    decreases ts.len(),
{
    if ts.len() == 0 {
        out.len() == 0
    } else if attr_start(ts) {
        &&& out.len() >= 2
        &&& out[0] == ts[0]
        &&& renamed(ts[1], out[1], false)
        &&& desugared(ts.skip(2), out.skip(2))
    } else if inner_attr_start(ts) {
        &&& out.len() >= 3
        &&& out[0] == ts[0]
        &&& out[1] == ts[1]
        &&& renamed(ts[2], out[2], true)
        &&& desugared(ts.skip(3), out.skip(3))
    } else if path_call(ts) {
        &&& out.len() >= 6
        &&& path_const(out.take(6), group_head(ts[1]), loc_of(ts[0]))
        &&& desugared(ts.skip(2), out.skip(6))
    } else {
        &&& out.len() >= 1
        &&& out[0] == ts[0]
        &&& desugared(ts.skip(1), out.skip(1))
    }
}

fn punct_is(t: &Token, c: char) -> (r: bool)
    ensures
        r == is_punct(*t, c),
{
    match t {
        Token::Punct(p, _, _) => *p == c,
        _ => false,
    }
}

fn ident_is(t: &Token, s: &str) -> (r: bool)
    ensures
        r == is_ident(*t, s@),
{
    match t {
        Token::Ident(i, _) => *i == s.to_owned(),
        _ => false,
    }
}

fn bracketed(t: &Token) -> (r: bool)
    ensures
        r == is_group(*t, Delimiter::Bracket),
{
    match t {
        Token::Group(Delimiter::Bracket, _, _) => true,
        _ => false,
    }
}

fn quoted(t: &Token) -> (r: bool)
    ensures
        r == is_quoted(*t),
{
    match t {
        Token::Literal(s, _) => {
            let n = s.as_str().unicode_len();
            n >= 2 && s.as_str().get_char(0) == '"' && s.as_str().get_char(n - 1) == '"'
        },
        _ => false,
    }
}

fn single_quoted_arg(t: &Token) -> (r: bool)
    ensures
        r == (t matches Token::Group(d, v, _) && d == Delimiter::Parenthesis && v@.len() == 1
            && is_quoted(v@[0])),
{
    match t {
        Token::Group(Delimiter::Parenthesis, v, _) => v.len() == 1 && quoted(&v[0]),
        _ => false,
    }
}

fn token_loc(t: &Token) -> (r: usize)
    ensures
        r == loc_of(*t),
{
    match t {
        Token::Ident(_, l) => *l,
        Token::Punct(_, _, l) => *l,
        Token::Literal(_, l) => *l,
        Token::Group(_, _, l) => *l,
    }
}

fn rename_keyword(t: Token, sole: bool) -> (r: Token)
    ensures
        renamed(t, r, sole),
{
    match t {
        Token::Group(Delimiter::Bracket, mut v, l) => {
            if v.len() >= 1 && (!sole || v.len() == 1) && ident_is(&v[0], "mod") {
                let ghost before = v@;
                let keyword = v.remove(0);
                let at = token_loc(&keyword);
                v.insert(0, Token::Ident(String::from_str("__mod"), at));
                proof {
                    assert(v@.skip(1) =~= before.skip(1));
                }
                Token::Group(Delimiter::Bracket, v, l)
            } else {
                Token::Group(Delimiter::Bracket, v, l)
            }
        },
        other => other,
    }
}

/// Rewrites the annotation syntax so that one parser reads both of its
/// forms: the `mod` keyword that opens an attribute (`#[mod]`,
/// `#[mod("path")]`, or `#![mod]` alone) becomes the identifier `__mod`, and
/// `mod("path")` becomes the item `const r#mod: _ = "path"`. All other tokens
/// are kept, in order.
pub fn desugar(tokens: Vec<Token>) -> (r: Vec<Token>)
    ensures
        desugared(tokens@, r@),
{
    let ghost ts = tokens@;
    let mut rest = tokens;
    let mut out: Vec<Token> = Vec::new();
    assert(ts.skip(0) =~= ts);
    while rest.len() > 0
        invariant
            rest@.len() <= ts.len(),
            rest@ == ts.skip(ts.len() - rest@.len()),
            forall|tail: Seq<Token>| #[trigger] desugared(rest@, tail) ==> desugared(ts, out@ + tail),
        decreases rest.len(),
    {
        let ghost old_rest = rest@;
        let ghost old_out = out@;
        if rest.len() >= 2 && punct_is(&rest[0], '#') && bracketed(&rest[1]) {
            let hash = rest.remove(0);
            let group = rest.remove(0);
            out.push(hash);
            out.push(rename_keyword(group, false));
            proof {
                assert forall|tail: Seq<Token>| #[trigger] desugared(rest@, tail) implies desugared(
                    ts,
                    out@ + tail,
                ) by {
                    let t2 = out@.skip(old_out.len() as int) + tail;
                    assert(old_rest.skip(2) =~= rest@);
                    assert(t2.skip(2) =~= tail);
                    assert(desugared(old_rest, t2));
                    assert(old_out + t2 =~= out@ + tail);
                }
            }
        } else if rest.len() >= 3 && punct_is(&rest[0], '#') && punct_is(&rest[1], '!') && bracketed(
            &rest[2],
        ) {
            let hash = rest.remove(0);
            let bang = rest.remove(0);
            let group = rest.remove(0);
            out.push(hash);
            out.push(bang);
            out.push(rename_keyword(group, true));
            proof {
                assert forall|tail: Seq<Token>| #[trigger] desugared(rest@, tail) implies desugared(
                    ts,
                    out@ + tail,
                ) by {
                    let t2 = out@.skip(old_out.len() as int) + tail;
                    assert(old_rest.skip(3) =~= rest@);
                    assert(t2.skip(3) =~= tail);
                    assert(!attr_start(old_rest));
                    assert(desugared(old_rest, t2));
                    assert(old_out + t2 =~= out@ + tail);
                }
            }
        } else if rest.len() >= 2 && ident_is(&rest[0], "mod") && single_quoted_arg(&rest[1]) {
            let keyword = rest.remove(0);
            let at = token_loc(&keyword);
            let group = rest.remove(0);
            let lit = match group {
                Token::Group(_, mut v, _) => v.remove(0),
                other => other,
            };
            out.push(Token::Ident(String::from_str("const"), at));
            out.push(Token::Ident(String::from_str("r#mod"), at));
            out.push(Token::Punct(':', Spacing::Alone, at));
            out.push(Token::Ident(String::from_str("_"), at));
            out.push(Token::Punct('=', Spacing::Alone, at));
            out.push(lit);
            proof {
                assert forall|tail: Seq<Token>| #[trigger] desugared(rest@, tail) implies desugared(
                    ts,
                    out@ + tail,
                ) by {
                    let t2 = out@.skip(old_out.len() as int) + tail;
                    assert(old_rest.skip(2) =~= rest@);
                    assert(t2.skip(6) =~= tail);
                    assert(t2.take(6) =~= out@.skip(old_out.len() as int));
                    assert(!attr_start(old_rest));
                    assert(!inner_attr_start(old_rest));
                    assert(desugared(old_rest, t2));
                    assert(old_out + t2 =~= out@ + tail);
                }
            }
        } else {
            let t = rest.remove(0);
            out.push(t);
            proof {
                assert forall|tail: Seq<Token>| #[trigger] desugared(rest@, tail) implies desugared(
                    ts,
                    out@ + tail,
                ) by {
                    let t2 = out@.skip(old_out.len() as int) + tail;
                    assert(old_rest.skip(1) =~= rest@);
                    assert(t2.skip(1) =~= tail);
                    assert(desugared(old_rest, t2));
                    assert(old_out + t2 =~= out@ + tail);
                }
            }
        }
        proof {
            assert(rest@ =~= ts.skip(ts.len() - rest@.len()));
        }
    }
    proof {
        assert(desugared(rest@, Seq::<Token>::empty()));
        assert(out@ + Seq::<Token>::empty() =~= out@);
    }
    out
}

/// Whether `text` parses as one module item.
pub uninterp spec fn parses_as_mod_item(text: Seq<char>) -> bool;

/// Relies on `syn::parse_str::<syn::ItemMod>`: it reports whether the text
/// is one module item, which depends on the text alone.
#[verifier::external_body]
fn mod_item_parses(text: &str) -> (r: bool)
    ensures
        r == parses_as_mod_item(text@),
{
    syn::parse_str::<syn::ItemMod>(text).is_ok()
}

/// Whether `name` can name a module: `mod <name>;` parses as a module item.
pub open spec fn parses_as_module(name: Seq<char>) -> bool {
    parses_as_mod_item("mod "@ + name + ";"@)
}

fn is_module_name(name: &str) -> (r: bool)
    ensures
        r == parses_as_module(name@),
{
    let mut text = String::from_str("mod ");
    text.append(name);
    text.append(";");
    mod_item_parses(text.as_str())
}

/// The argument of an attribute, as the parser classified it.
#[derive(Debug, PartialEq, Eq)]
pub enum AttrArg {
    /// No argument: `#[mod]`.
    Empty,
    /// A parenthesised string literal, by its value: `#[mod("a/b.rs")]`.
    Str(String),
    /// A parenthesised expression that is not a string literal.
    NotString,
    /// Tokens that are no parenthesised expression.
    Malformed,
}

/// An attribute on an import item: the segments of its path and the
/// location of that path, its argument and the location of the argument.
#[derive(Debug, PartialEq, Eq)]
pub struct Attribute {
    pub segments: Vec<String>,
    pub path_loc: usize,
    pub arg: AttrArg,
    pub arg_loc: usize,
}

/// The tree of an import item, as far as the expansion reads it. The last
/// field of each is the tree's location.
#[derive(Debug, PartialEq, Eq)]
pub enum UseTree {
    /// A tree that starts with a name, by that name: `name::...`, `name`,
    /// or `name as other`.
    Named(String, usize),
    /// A braced group of trees: `{a::x, b}`.
    Group(Vec<UseTree>, usize),
    /// A glob, `*`, which starts with no name.
    Glob(usize),
}

/// One parsed item of the annotation syntax, with the locations of the
/// parts that an error can point at.
#[derive(Debug, PartialEq, Eq)]
pub enum Item {
    /// `use ...;` with its attributes.
    Use { attrs: Vec<Attribute>, tree: UseTree, loc: usize },
    /// `const name: ty = expr;`: how many attributes it has, whether its
    /// visibility is inherited, its name, whether its type is `_`, and the
    /// value of its initializer when that is a string literal with no
    /// attributes.
    Const {
        loc: usize,
        attr_count: usize,
        inherited: bool,
        name: String,
        name_loc: usize,
        inferred: bool,
        value: Option<String>,
        value_loc: usize,
    },
    /// Any other item.
    Other(usize),
}

/// A module to declare: its name, and the path of its file when that is not
/// the default one.
#[derive(Debug, PartialEq, Eq)]
pub struct ModDecl {
    pub name: String,
    pub path: Option<String>,
}

/// Why the annotation syntax was rejected.
#[derive(Debug, PartialEq, Eq)]
pub enum ExpandError {
    /// An import item carries more than one attribute.
    AttributeCount(usize),
    /// The attribute's path has other than one segment.
    SegmentCount(usize),
    /// The attribute is not the module annotation; its name.
    UnexpectedAttribute(String),
    /// The annotation's argument is not a string literal.
    NotStringLiteral,
    /// The annotation's argument does not parse.
    MalformedArgument,
    /// An annotated import tree does not start with a name to declare.
    NoLeadingName,
    /// The module name does not form a module item.
    InvalidModuleName(String),
    /// The path given to `mod(...)` names no Rust file.
    NotRustFile(String),
    /// The path given to `mod(...)` has no final component.
    NotRegularFile(String),
    /// A `const r#mod` item without the shape that `mod(...)` gives.
    MalformedPathConst,
    /// An item that is neither an import nor `mod(...)`.
    UnexpectedItem,
}

/// An error and the location of the part it is about.
#[derive(Debug, PartialEq, Eq)]
pub struct Fault {
    pub error: ExpandError,
    pub at: usize,
}

/// The error of the item at position `item`, and the location of the part
/// of that item it is about.
#[derive(Debug, PartialEq, Eq)]
pub struct ItemError {
    pub item: usize,
    pub error: ExpandError,
    pub at: usize,
}

/// The declarations that the annotation syntax stands for: the modules, and
/// the positions of the import items, which are kept with their attributes
/// removed and come after the modules.
#[derive(Debug, PartialEq, Eq)]
pub struct Expansion {
    pub mods: Vec<ModDecl>,
    pub uses: Vec<usize>,
}

/// What the attributes of an import item ask for.
pub enum Mark {
    Absent,
    Bare,
    Path(Seq<char>),
    Invalid,
}

/// The annotation read from the attributes of an import item: none, the
/// module annotation alone, or with a path; anything else is invalid.
pub open spec fn mark_of(attrs: Seq<Attribute>) -> Mark {
    if attrs.len() == 0 {
        Mark::Absent
    } else if attrs.len() > 1 || attrs[0].segments@.len() != 1 || attrs[0].segments@[0]@
        != "__mod"@ {
        Mark::Invalid
    } else {
        match attrs[0].arg {
            AttrArg::Empty => Mark::Bare,
            AttrArg::Str(p) => Mark::Path(p@),
            _ => Mark::Invalid,
        }
    }
}

/// `f` is the fault for the attributes of the import item at `loc`, when
/// their mark is invalid: a surplus of attributes points at the item, a bad
/// path or name at the attribute's path, a bad argument at the argument.
pub open spec fn mark_fails_with(attrs: Seq<Attribute>, loc: usize, f: Fault) -> bool {
    if attrs.len() > 1 {
        f == Fault { error: ExpandError::AttributeCount(attrs.len() as usize), at: loc }
    } else if attrs[0].segments@.len() != 1 {
        f == Fault {
            error: ExpandError::SegmentCount(attrs[0].segments@.len() as usize),
            at: attrs[0].path_loc,
        }
    } else if attrs[0].segments@[0]@ != "__mod"@ {
        &&& f.error matches ExpandError::UnexpectedAttribute(n)
        &&& n@ == attrs[0].segments@[0]@
        &&& f.at == attrs[0].path_loc
    } else if attrs[0].arg is NotString {
        f == Fault { error: ExpandError::NotStringLiteral, at: attrs[0].arg_loc }
    } else {
        f == Fault { error: ExpandError::MalformedArgument, at: attrs[0].arg_loc }
    }
}

/// The name a tree starts with, if any.
pub open spec fn lead(t: UseTree) -> Option<Seq<char>> {
    match t {
        UseTree::Named(i, _) => Some(i@),
        _ => None,
    }
}

/// The location of a tree.
pub open spec fn tree_loc(t: UseTree) -> usize {
    match t {
        UseTree::Named(_, l) => l,
        UseTree::Group(_, l) => l,
        UseTree::Glob(l) => l,
    }
}

/// The trees that each declare a module under a bare annotation: the trees
/// of a braced group, or the tree alone.
pub open spec fn members(t: UseTree) -> Seq<UseTree> {
    match t {
        UseTree::Group(v, _) => v@,
        _ => seq![t],
    }
}

/// A tree starts with a name that can name a module.
pub open spec fn member_ok(m: UseTree) -> bool {
    lead(m) is Some && parses_as_module(lead(m).unwrap())
}

/// `f` is the fault of a tree that cannot declare a module, at the tree.
pub open spec fn member_fails_with(m: UseTree, f: Fault) -> bool {
    &&& f.at == tree_loc(m)
    &&& if lead(m) is None {
        f.error == ExpandError::NoLeadingName
    } else {
        f.error matches ExpandError::InvalidModuleName(n) && n@ == lead(m).unwrap()
    }
}

/// A module declaration by its name and optional path.
pub open spec fn decl_view(d: ModDecl) -> (Seq<char>, Option<Seq<char>>) {
    (d.name@, opt_view(d.path))
}

/// A `const` item of the shape that `mod(...)` is rewritten to.
pub open spec fn is_path_marker(attr_count: usize, inherited: bool, name: Seq<char>) -> bool {
    attr_count == 0 && inherited && name == "r#mod"@
}

/// Whether the item is accepted.
pub open spec fn item_ok(item: Item) -> bool {
    match item {
        Item::Use { attrs, tree, .. } => match mark_of(attrs@) {
            Mark::Absent => true,
            Mark::Bare => forall|j: int| 0 <= j < members(tree).len() ==> member_ok(
                #[trigger] members(tree)[j],
            ),
            Mark::Path(_) => member_ok(tree),
            Mark::Invalid => false,
        },
        Item::Const { attr_count, inherited, name, inferred, value, .. } => {
            &&& is_path_marker(attr_count, inherited, name@)
            &&& inferred
            &&& value is Some
            &&& stem_of(value.unwrap()@) is Some
            &&& extension_of(value.unwrap()@) == Some("rs"@)
            &&& parses_as_module(stem_of(value.unwrap()@).unwrap())
        },
        Item::Other(_) => false,
    }
}

/// The modules that an accepted item declares.
pub open spec fn item_mods(item: Item) -> Seq<(Seq<char>, Option<Seq<char>>)> {
    match item {
        Item::Use { attrs, tree, .. } => match mark_of(attrs@) {
            Mark::Bare => members(tree).map_values(
                |m: UseTree| (lead(m).unwrap(), None::<Seq<char>>),
            ),
            Mark::Path(p) => seq![(lead(tree).unwrap(), Some(p))],
            _ => seq![],
        },
        Item::Const { value, .. } => seq![
            (stem_of(value.unwrap()@).unwrap(), Some(value.unwrap()@)),
        ],
        Item::Other(_) => seq![],
    }
}

/// `f` is the fault of a rejected item.
pub open spec fn item_fails_with(item: Item, f: Fault) -> bool {
    match item {
        Item::Use { attrs, tree, loc } => match mark_of(attrs@) {
            Mark::Invalid => mark_fails_with(attrs@, loc, f),
            Mark::Path(_) => member_fails_with(tree, f),
            Mark::Bare => exists|j: int|
                0 <= j < members(tree).len() && !member_ok(#[trigger] members(tree)[j])
                    && member_fails_with(members(tree)[j], f) && forall|k: int|
                    0 <= k < j ==> member_ok(#[trigger] members(tree)[k]),
            Mark::Absent => false,
        },
        Item::Const { loc, attr_count, inherited, name, name_loc, inferred, value, value_loc } => {
            if !is_path_marker(attr_count, inherited, name@) {
                f == Fault { error: ExpandError::UnexpectedItem, at: loc }
            } else if !inferred || value is None {
                f == Fault { error: ExpandError::MalformedPathConst, at: name_loc }
            } else if stem_of(value.unwrap()@) is None {
                f.error matches ExpandError::NotRegularFile(p) && p@ == value.unwrap()@ && f.at
                    == value_loc
            } else if extension_of(value.unwrap()@) != Some("rs"@) {
                f.error matches ExpandError::NotRustFile(p) && p@ == value.unwrap()@ && f.at
                    == value_loc
            } else {
                f.error matches ExpandError::InvalidModuleName(n) && n@ == stem_of(
                    value.unwrap()@,
                ).unwrap() && f.at == value_loc
            }
        },
        Item::Other(loc) => f == Fault { error: ExpandError::UnexpectedItem, at: loc },
    }
}

/// The modules that the items declare, in order.
pub open spec fn all_mods(items: Seq<Item>) -> Seq<(Seq<char>, Option<Seq<char>>)>
    decreases items.len(),
{
    if items.len() == 0 {
        seq![]
    } else {
        all_mods(items.drop_last()) + item_mods(items.last())
    }
}

/// The positions of the import items, in order.
pub open spec fn use_positions(items: Seq<Item>) -> Seq<usize>
    decreases items.len(),
{
    if items.len() == 0 {
        seq![]
    } else if items.last() is Use {
        use_positions(items.drop_last()).push((items.len() - 1) as usize)
    } else {
        use_positions(items.drop_last())
    }
}

/// What an import item's attributes ask for.
pub enum Annotation {
    Absent,
    Bare,
    Path(String),
}

/// The mark that an annotation stands for.
pub open spec fn mark_view(a: Annotation) -> Mark {
    match a {
        Annotation::Absent => Mark::Absent,
        Annotation::Bare => Mark::Bare,
        Annotation::Path(p) => Mark::Path(p@),
    }
}

/// Reads the attributes of the import item at `loc`: none, `#[__mod]`, or
/// `#[__mod("path")]`. More than one attribute, a path of other than one
/// segment, another name, or an argument that is no string literal is an
/// error, at the part it is about.
pub fn annotation(attrs: &Vec<Attribute>, loc: usize) -> (r: Result<Annotation, Fault>)
    ensures
        r is Err <==> mark_of(attrs@) is Invalid,
        r matches Ok(a) ==> mark_view(a) == mark_of(attrs@),
        r matches Err(f) ==> mark_fails_with(attrs@, loc, f),
{
    if attrs.len() == 0 {
        return Ok(Annotation::Absent);
    }
    if attrs.len() > 1 {
        return Err(Fault { error: ExpandError::AttributeCount(attrs.len()), at: loc });
    }
    let attr = &attrs[0];
    if attr.segments.len() != 1 {
        return Err(
            Fault { error: ExpandError::SegmentCount(attr.segments.len()), at: attr.path_loc },
        );
    }
    if attr.segments[0] != String::from_str("__mod") {
        return Err(
            Fault {
                error: ExpandError::UnexpectedAttribute(attr.segments[0].clone()),
                at: attr.path_loc,
            },
        );
    }
    match &attr.arg {
        AttrArg::Empty => Ok(Annotation::Bare),
        AttrArg::Str(p) => Ok(Annotation::Path(p.clone())),
        AttrArg::NotString => Err(Fault { error: ExpandError::NotStringLiteral, at: attr.arg_loc }),
        AttrArg::Malformed => Err(Fault { error: ExpandError::MalformedArgument, at: attr.arg_loc }),
    }
}

fn member_decl(m: &UseTree, path: Option<String>) -> (r: Result<ModDecl, Fault>)
    ensures
        r is Ok <==> member_ok(*m),
        r matches Ok(d) ==> d.name@ == lead(*m).unwrap() && opt_view(d.path) == opt_view(path),
        r matches Err(f) ==> member_fails_with(*m, f),
{
    match m {
        UseTree::Named(name, at) => {
            if is_module_name(name.as_str()) {
                Ok(ModDecl { name: name.clone(), path })
            } else {
                Err(Fault { error: ExpandError::InvalidModuleName(name.clone()), at: *at })
            }
        },
        UseTree::Group(_, at) => Err(Fault { error: ExpandError::NoLeadingName, at: *at }),
        UseTree::Glob(at) => Err(Fault { error: ExpandError::NoLeadingName, at: *at }),
    }
}

fn bare_decls(tree: &UseTree) -> (r: Result<Vec<ModDecl>, Fault>)
    ensures
        r is Ok <==> forall|j: int| 0 <= j < members(*tree).len() ==> member_ok(#[trigger] members(*tree)[j]),
        r matches Ok(v) ==> v@.map_values(|d: ModDecl| decl_view(d)) == members(*tree).map_values(
            |m: UseTree| (lead(m).unwrap(), None::<Seq<char>>),
        ),
        r matches Err(f) ==> exists|j: int|
            0 <= j < members(*tree).len() && !member_ok(#[trigger] members(*tree)[j])
                && member_fails_with(members(*tree)[j], f) && forall|k: int|
                0 <= k < j ==> member_ok(#[trigger] members(*tree)[k]),
{
    let mut out: Vec<ModDecl> = Vec::new();
    match tree {
        UseTree::Group(v, _) => {
            let ghost ms = members(*tree);
            let mut j: usize = 0;
            while j < v.len()
                invariant
                    j <= v.len(),
                    ms == v@,
                    ms == members(*tree),
                    out@.map_values(|d: ModDecl| decl_view(d)) == ms.take(j as int).map_values(
                        |m: UseTree| (lead(m).unwrap(), None::<Seq<char>>),
                    ),
                    forall|k: int| 0 <= k < j ==> member_ok(#[trigger] ms[k]),
                decreases v.len() - j,
            {
                match member_decl(&v[j], None) {
                    Err(f) => {
                        proof {
                            assert(!member_ok(ms[j as int]));
                        }
                        return Err(f);
                    },
                    Ok(d) => {
                        let ghost before = out@;
                        out.push(d);
                        proof {
                            assert(out@.map_values(|d: ModDecl| decl_view(d)) =~= before.map_values(
                                |d: ModDecl| decl_view(d),
                            ).push(decl_view(out@.last())));
                            assert(ms.take(j + 1) =~= ms.take(j as int).push(ms[j as int]));
                            assert(ms.take(j + 1).map_values(
                                |m: UseTree| (lead(m).unwrap(), None::<Seq<char>>),
                            ) =~= ms.take(j as int).map_values(
                                |m: UseTree| (lead(m).unwrap(), None::<Seq<char>>),
                            ).push((lead(ms[j as int]).unwrap(), None::<Seq<char>>)));
                        }
                    },
                }
                j = j + 1;
            }
            proof {
                assert(ms.take(j as int) =~= ms);
            }
            Ok(out)
        },
        _ => {
            match member_decl(tree, None) {
                Err(f) => {
                    proof {
                        assert(members(*tree)[0] == *tree);
                    }
                    Err(f)
                },
                Ok(d) => {
                    out.push(d);
                    proof {
                        assert(out@.map_values(|d: ModDecl| decl_view(d)) =~= members(
                            *tree,
                        ).map_values(|m: UseTree| (lead(m).unwrap(), None::<Seq<char>>)));
                    }
                    Ok(out)
                },
            }
        },
    }
}

fn path_const_decl(value: &String, at: usize) -> (r: Result<ModDecl, Fault>)
    ensures
        r is Ok <==> (stem_of(value@) is Some && extension_of(value@) == Some("rs"@)
            && parses_as_module(stem_of(value@).unwrap())),
        r matches Ok(d) ==> decl_view(d) == (stem_of(value@).unwrap(), Some(value@)),
        r matches Err(f) ==> f.at == at && if stem_of(value@) is None {
            f.error matches ExpandError::NotRegularFile(p) && p@ == value@
        } else if extension_of(value@) != Some("rs"@) {
            f.error matches ExpandError::NotRustFile(p) && p@ == value@
        } else {
            f.error matches ExpandError::InvalidModuleName(n) && n@ == stem_of(value@).unwrap()
        },
{
    match file_stem(value.as_str()) {
        None => Err(Fault { error: ExpandError::NotRegularFile(value.clone()), at }),
        Some(stem) => {
            let is_rs = match file_extension(value.as_str()) {
                Some(ext) => ext == String::from_str("rs"),
                None => false,
            };
            if !is_rs {
                Err(Fault { error: ExpandError::NotRustFile(value.clone()), at })
            } else if !is_module_name(stem.as_str()) {
                Err(Fault { error: ExpandError::InvalidModuleName(stem), at })
            } else {
                Ok(ModDecl { name: stem, path: Some(value.clone()) })
            }
        },
    }
}

fn item_decls(item: &Item) -> (r: Result<Vec<ModDecl>, Fault>)
    ensures
        r is Ok <==> item_ok(*item),
        r matches Ok(v) ==> v@.map_values(|d: ModDecl| decl_view(d)) == item_mods(*item),
        r matches Err(f) ==> item_fails_with(*item, f),
{
    match item {
        Item::Use { attrs, tree, loc } => match annotation(attrs, *loc) {
            Err(f) => Err(f),
            Ok(Annotation::Absent) => {
                let v: Vec<ModDecl> = Vec::new();
                proof {
                    assert(v@.map_values(|d: ModDecl| decl_view(d)) =~= item_mods(*item));
                }
                Ok(v)
            },
            Ok(Annotation::Bare) => bare_decls(tree),
            Ok(Annotation::Path(p)) => match member_decl(tree, Some(p)) {
                Err(f) => Err(f),
                Ok(d) => {
                    let mut v: Vec<ModDecl> = Vec::new();
                    v.push(d);
                    proof {
                        assert(v@.map_values(|d: ModDecl| decl_view(d)) =~= item_mods(*item));
                    }
                    Ok(v)
                },
            },
        },
        Item::Const { loc, attr_count, inherited, name, name_loc, inferred, value, value_loc } => {
            if !(*attr_count == 0 && *inherited && *name == String::from_str("r#mod")) {
                return Err(Fault { error: ExpandError::UnexpectedItem, at: *loc });
            }
            match value {
                Some(path) if *inferred => match path_const_decl(path, *value_loc) {
                    Ok(d) => {
                        let mut v: Vec<ModDecl> = Vec::new();
                        v.push(d);
                        proof {
                            assert(v@.map_values(|d: ModDecl| decl_view(d)) =~= item_mods(*item));
                        }
                        Ok(v)
                    },
                    Err(f) => Err(f),
                },
                _ => Err(Fault { error: ExpandError::MalformedPathConst, at: *name_loc }),
            }
        },
        Item::Other(loc) => Err(Fault { error: ExpandError::UnexpectedItem, at: *loc }),
    }
}

/// Expands parsed items of the annotation syntax, in order. An import item
/// with no attribute declares nothing; with `#[__mod]` it declares a module
/// named after the name its tree starts with, or one for each tree of a
/// braced group; with `#[__mod("path")]` it declares the module named after
/// the name its tree starts with, read from `path`. A
/// `const r#mod: _ = "path"` item declares the module named after the file's
/// stem, read from `path`. Any other item, or a malformed one, stops the
/// expansion with nothing declared and the error of the first such item, at
/// the part of it that the error is about.
pub fn expand(items: &Vec<Item>) -> (r: Result<Expansion, ItemError>)
    ensures
        r is Ok <==> forall|i: int| 0 <= i < items.len() ==> item_ok(#[trigger] items@[i]),
        r matches Ok(x) ==> x.mods@.map_values(|d: ModDecl| decl_view(d)) == all_mods(items@)
            && x.uses@ == use_positions(items@),
        r matches Err(e) ==> {
            &&& e.item < items.len()
            &&& !item_ok(items@[e.item as int])
            &&& item_fails_with(items@[e.item as int], Fault { error: e.error, at: e.at })
            &&& forall|k: int| 0 <= k < e.item ==> item_ok(#[trigger] items@[k])
        },
{
    let mut mods: Vec<ModDecl> = Vec::new();
    let mut uses: Vec<usize> = Vec::new();
    let mut i: usize = 0;
    while i < items.len()
        invariant
            i <= items.len(),
            forall|k: int| 0 <= k < i ==> item_ok(#[trigger] items@[k]),
            mods@.map_values(|d: ModDecl| decl_view(d)) == all_mods(items@.take(i as int)),
            uses@ == use_positions(items@.take(i as int)),
        decreases items.len() - i,
    {
        let item = &items[i];
        match item_decls(item) {
            Err(f) => return Err(ItemError { item: i, error: f.error, at: f.at }),
            Ok(mut found) => {
                let ghost before = mods@;
                let ghost added = found@;
                mods.append(&mut found);
                proof {
                    assert(items@.take(i + 1).drop_last() =~= items@.take(i as int));
                    assert(mods@ =~= before + added);
                    assert(mods@.map_values(|d: ModDecl| decl_view(d)) =~= before.map_values(
                        |d: ModDecl| decl_view(d),
                    ) + added.map_values(|d: ModDecl| decl_view(d)));
                }
            },
        }
        if matches!(item, Item::Use { .. }) {
            uses.push(i);
        }
        i = i + 1;
    }
    proof {
        assert(items@.take(i as int) =~= items@);
    }
    Ok(Expansion { mods, uses })
}

/// An import item that carries two attributes is rejected, with the number
/// of attributes as the error, at the item; an expansion that meets it thus
/// declares nothing.
pub proof fn lemma_two_attributes_rejected(attrs: Vec<Attribute>, tree: UseTree, loc: usize)
    requires
        attrs@.len() == 2,
    ensures
        !item_ok(Item::Use { attrs, tree, loc }),
        forall|f: Fault|
            item_fails_with(Item::Use { attrs, tree, loc }, f) <==> f == (Fault {
                error: ExpandError::AttributeCount(2),
                at: loc,
            }),
{
}

} // verus!
