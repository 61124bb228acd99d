use proc_use::inline::{
    annotation, desugar, expand, AttrArg, Attribute, Delimiter, ExpandError, Fault, Item,
    ItemError, ModDecl, Spacing, Token, UseTree,
};

fn ident(s: &str, at: usize) -> Token {
    Token::Ident(s.to_string(), at)
}

fn punct(c: char, at: usize) -> Token {
    Token::Punct(c, Spacing::Alone, at)
}

fn lit(s: &str, at: usize) -> Token {
    Token::Literal(s.to_string(), at)
}

fn group(d: Delimiter, v: Vec<Token>, at: usize) -> Token {
    Token::Group(d, v, at)
}

fn named(s: &str, at: usize) -> UseTree {
    UseTree::Named(s.to_string(), at)
}

fn use_item(attrs: Vec<Attribute>, tree: UseTree, loc: usize) -> Item {
    Item::Use { attrs, tree, loc }
}

fn attr(segments: &[&str], arg: AttrArg) -> Attribute {
    Attribute {
        segments: segments.iter().map(|s| s.to_string()).collect(),
        path_loc: 70,
        arg,
        arg_loc: 71,
    }
}

fn module_attr(arg: AttrArg) -> Attribute {
    attr(&["__mod"], arg)
}

fn path_const(value: &str) -> Item {
    Item::Const {
        loc: 80,
        attr_count: 0,
        inherited: true,
        name: "r#mod".to_string(),
        name_loc: 81,
        inferred: true,
        value: Some(value.to_string()),
        value_loc: 82,
    }
}

fn decl(name: &str, path: Option<&str>) -> ModDecl {
    ModDecl { name: name.to_string(), path: path.map(|p| p.to_string()) }
}

#[test]
fn desugar_renames_attribute_keyword_in_place() {
    let input = vec![
        punct('#', 0),
        group(Delimiter::Bracket, vec![ident("mod", 1)], 2),
        ident("use", 3),
        ident("foo", 4),
    ];
    let expected = vec![
        punct('#', 0),
        group(Delimiter::Bracket, vec![ident("__mod", 1)], 2),
        ident("use", 3),
        ident("foo", 4),
    ];
    assert_eq!(desugar(input), expected);
}

#[test]
fn desugar_renames_keyword_with_path_argument() {
    let arg = || group(Delimiter::Parenthesis, vec![lit("\"../external/bar.rs\"", 3)], 4);
    let input = vec![punct('#', 0), group(Delimiter::Bracket, vec![ident("mod", 1), arg()], 2)];
    let expected =
        vec![punct('#', 0), group(Delimiter::Bracket, vec![ident("__mod", 1), arg()], 2)];
    assert_eq!(desugar(input), expected);
}

#[test]
fn desugar_inner_attribute_needs_sole_keyword() {
    let input = vec![
        punct('#', 0),
        punct('!', 1),
        group(Delimiter::Bracket, vec![ident("mod", 2)], 3),
        punct('#', 4),
        punct('!', 5),
        group(Delimiter::Bracket, vec![ident("mod", 6), ident("x", 7)], 8),
    ];
    let expected = vec![
        punct('#', 0),
        punct('!', 1),
        group(Delimiter::Bracket, vec![ident("__mod", 2)], 3),
        punct('#', 4),
        punct('!', 5),
        group(Delimiter::Bracket, vec![ident("mod", 6), ident("x", 7)], 8),
    ];
    assert_eq!(desugar(input), expected);
}

#[test]
fn desugar_rewrites_path_call_at_keyword_location() {
    let input = vec![
        ident("mod", 5),
        group(Delimiter::Parenthesis, vec![lit("\"../bar.rs\"", 6)], 7),
        punct(';', 8),
    ];
    let expected = vec![
        ident("const", 5),
        ident("r#mod", 5),
        punct(':', 5),
        ident("_", 5),
        punct('=', 5),
        lit("\"../bar.rs\"", 6),
        punct(';', 8),
    ];
    assert_eq!(desugar(input), expected);
}

#[test]
fn desugar_leaves_other_groups_alone() {
    let input = || {
        vec![
            ident("mod", 0),
            group(
                Delimiter::Parenthesis,
                vec![lit("\"a.rs\"", 1), punct(',', 2), lit("\"b.rs\"", 3)],
                4,
            ),
            ident("mod", 5),
            group(Delimiter::Parenthesis, vec![lit("42", 6)], 7),
            ident("mod", 8),
            ident("foo", 9),
            punct(';', 10),
            punct('#', 11),
        ]
    };
    assert_eq!(desugar(input()), input());
}

#[test]
fn desugar_empty_input() {
    assert_eq!(desugar(Vec::new()), Vec::new());
}

#[test]
fn expand_bare_annotation_declares_leading_segment() {
    let items = vec![use_item(vec![module_attr(AttrArg::Empty)], named("foo", 1), 0)];
    let x = expand(&items).unwrap();
    assert_eq!(x.mods, vec![decl("foo", None)]);
    assert_eq!(x.uses, vec![0]);
}

#[test]
fn expand_single_name_and_rename_declare_their_name() {
    let items = vec![
        use_item(vec![module_attr(AttrArg::Empty)], named("foo", 1), 0),
        use_item(vec![module_attr(AttrArg::Str("../q.rs".to_string()))], named("qux", 3), 2),
    ];
    let x = expand(&items).unwrap();
    assert_eq!(x.mods, vec![decl("foo", None), decl("qux", Some("../q.rs"))]);
}

#[test]
fn expand_path_annotation_declares_module_with_path() {
    let items = vec![
        use_item(vec![module_attr(AttrArg::Empty)], named("foo", 1), 0),
        use_item(
            vec![module_attr(AttrArg::Str("../external/bar.rs".to_string()))],
            named("bar", 3),
            2,
        ),
    ];
    let x = expand(&items).unwrap();
    assert_eq!(x.mods, vec![decl("foo", None), decl("bar", Some("../external/bar.rs"))]);
    assert_eq!(x.uses, vec![0, 1]);
}

#[test]
fn expand_unannotated_import_declares_nothing() {
    let items = vec![use_item(Vec::new(), named("std", 1), 0)];
    let x = expand(&items).unwrap();
    assert_eq!(x.mods, Vec::new());
    assert_eq!(x.uses, vec![0]);
}

#[test]
fn expand_group_declares_each_member() {
    let tree = UseTree::Group(vec![named("a", 2), named("b", 3)], 1);
    let items = vec![use_item(vec![module_attr(AttrArg::Empty)], tree, 0)];
    let x = expand(&items).unwrap();
    assert_eq!(x.mods, vec![decl("a", None), decl("b", None)]);
}

#[test]
fn expand_tree_without_leading_name_is_an_error() {
    let items = vec![use_item(vec![module_attr(AttrArg::Empty)], UseTree::Glob(9), 0)];
    assert_eq!(
        expand(&items),
        Err(ItemError { item: 0, error: ExpandError::NoLeadingName, at: 9 })
    );
    let tree = UseTree::Group(vec![named("a", 2), UseTree::Glob(3)], 1);
    let items = vec![use_item(vec![module_attr(AttrArg::Empty)], tree, 0)];
    assert_eq!(
        expand(&items),
        Err(ItemError { item: 0, error: ExpandError::NoLeadingName, at: 3 })
    );
    let tree = UseTree::Group(vec![named("a", 2)], 1);
    let items = vec![use_item(vec![module_attr(AttrArg::Str("a.rs".to_string()))], tree, 0)];
    assert_eq!(
        expand(&items),
        Err(ItemError { item: 0, error: ExpandError::NoLeadingName, at: 1 })
    );
}

#[test]
fn expand_two_attributes_is_an_error() {
    let attrs = vec![module_attr(AttrArg::Empty), attr(&["allow"], AttrArg::Malformed)];
    let items = vec![
        use_item(vec![module_attr(AttrArg::Str("p.rs".to_string()))], named("p", 1), 0),
        use_item(attrs, named("foo", 3), 2),
    ];
    assert_eq!(
        expand(&items),
        Err(ItemError { item: 1, error: ExpandError::AttributeCount(2), at: 2 })
    );
}

#[test]
fn expand_attribute_errors_point_at_their_part() {
    let items = vec![use_item(vec![attr(&["a", "__mod"], AttrArg::Empty)], named("f", 1), 0)];
    assert_eq!(
        expand(&items),
        Err(ItemError { item: 0, error: ExpandError::SegmentCount(2), at: 70 })
    );
    let items = vec![use_item(vec![attr(&["allow"], AttrArg::Empty)], named("f", 1), 0)];
    assert_eq!(
        expand(&items),
        Err(ItemError {
            item: 0,
            error: ExpandError::UnexpectedAttribute("allow".to_string()),
            at: 70
        })
    );
    let items = vec![use_item(vec![module_attr(AttrArg::NotString)], named("f", 1), 0)];
    assert_eq!(
        expand(&items),
        Err(ItemError { item: 0, error: ExpandError::NotStringLiteral, at: 71 })
    );
    let items = vec![use_item(vec![module_attr(AttrArg::Malformed)], named("f", 1), 0)];
    assert_eq!(
        expand(&items),
        Err(ItemError { item: 0, error: ExpandError::MalformedArgument, at: 71 })
    );
}

#[test]
fn annotation_reads_attributes() {
    assert!(matches!(annotation(&Vec::new(), 0), Ok(proc_use::inline::Annotation::Absent)));
    assert!(matches!(
        annotation(&vec![module_attr(AttrArg::Empty)], 0),
        Ok(proc_use::inline::Annotation::Bare)
    ));
    match annotation(&vec![module_attr(AttrArg::Str("x.rs".to_string()))], 0) {
        Ok(proc_use::inline::Annotation::Path(p)) => assert_eq!(p, "x.rs"),
        _ => panic!("expected a path annotation"),
    }
    let two = vec![module_attr(AttrArg::Empty), module_attr(AttrArg::Empty)];
    assert_eq!(
        annotation(&two, 5).err(),
        Some(Fault { error: ExpandError::AttributeCount(2), at: 5 })
    );
}

#[test]
fn expand_path_const_declares_module_named_after_stem() {
    let items = vec![path_const("../external/bar.rs"), use_item(Vec::new(), named("bar", 1), 0)];
    let x = expand(&items).unwrap();
    assert_eq!(x.mods, vec![decl("bar", Some("../external/bar.rs"))]);
    assert_eq!(x.uses, vec![1]);
}

#[test]
fn expand_path_const_errors() {
    let items = vec![path_const("../external/bar.txt")];
    assert_eq!(
        expand(&items),
        Err(ItemError {
            item: 0,
            error: ExpandError::NotRustFile("../external/bar.txt".to_string()),
            at: 82
        })
    );
    let items = vec![path_const("")];
    assert_eq!(
        expand(&items),
        Err(ItemError { item: 0, error: ExpandError::NotRegularFile("".to_string()), at: 82 })
    );
    let items = vec![path_const("../x/1abc.rs")];
    assert_eq!(
        expand(&items),
        Err(ItemError {
            item: 0,
            error: ExpandError::InvalidModuleName("1abc".to_string()),
            at: 82
        })
    );
    let malformed = Item::Const {
        loc: 80,
        attr_count: 0,
        inherited: true,
        name: "r#mod".to_string(),
        name_loc: 81,
        inferred: false,
        value: Some("a.rs".to_string()),
        value_loc: 82,
    };
    assert_eq!(
        expand(&vec![malformed]),
        Err(ItemError { item: 0, error: ExpandError::MalformedPathConst, at: 81 })
    );
}

#[test]
fn expand_rejects_other_items_at_their_position() {
    let other_const = Item::Const {
        loc: 80,
        attr_count: 0,
        inherited: false,
        name: "r#mod".to_string(),
        name_loc: 81,
        inferred: true,
        value: Some("a.rs".to_string()),
        value_loc: 82,
    };
    let items = vec![use_item(Vec::new(), named("a", 1), 0), other_const];
    assert_eq!(
        expand(&items),
        Err(ItemError { item: 1, error: ExpandError::UnexpectedItem, at: 80 })
    );
    assert_eq!(
        expand(&vec![Item::Other(4)]),
        Err(ItemError { item: 0, error: ExpandError::UnexpectedItem, at: 4 })
    );
}

#[test]
fn expand_rejects_invalid_module_name() {
    let items = vec![use_item(vec![module_attr(AttrArg::Empty)], named("1abc", 6), 0)];
    assert_eq!(
        expand(&items),
        Err(ItemError {
            item: 0,
            error: ExpandError::InvalidModuleName("1abc".to_string()),
            at: 6
        })
    );
}
