//! Reading source text: the calls into the parser, and what they hand back
//! in plain values. A syntax tree itself stays closed; it is kept for those
//! who walk it.
use swc_common::comments::SingleThreadedComments;
use swc_common::BytePos;
use swc_common::Globals;
use swc_common::Mark;
use swc_common::Spanned;
use swc_common::GLOBALS;
use swc_ecma_ast::EsVersion;
use swc_ecma_ast::ImportSpecifier;
use swc_ecma_ast::ModuleDecl;
use swc_ecma_ast::ModuleItem;
use swc_ecma_ast::Program;
use swc_ecma_parser::error::Error as ParserError;
use swc_ecma_parser::lexer::Lexer;
use swc_ecma_parser::Parser;
use swc_ecma_parser::StringInput;
use swc_ecma_parser::Syntax;
use swc_ecma_parser::TsSyntax;
use swc_ecma_transforms_base::resolver;
use swc_ecma_visit::VisitMutWith;
use vstd::prelude::*;
use vstd::utf8::encode_utf8;
use crate::diagnostics::Span;

verus! {

/// The syntax tree of a source text, as the parser builds it.
#[verifier::external_type_specification]
#[verifier::external_body]
pub struct ExProgram(swc_ecma_ast::Program);

/// The comments that the parser collects, by the position they belong to.
#[verifier::external_type_specification]
#[verifier::external_body]
pub struct ExComments(swc_common::comments::SingleThreadedComments);

/// What is wrong with the syntax of a source text, and where.
#[derive(Debug, PartialEq, Eq)]
pub struct SyntaxError {
    pub span: Span,
    pub msg: String,
}

impl Clone for SyntaxError {
    fn clone(&self) -> (copy: Self)
        ensures
            copy == *self,
    {
        SyntaxError { span: self.span, msg: self.msg.clone() }
    }
}

/// A [`SyntaxError`] as mathematical values.
pub struct SyntaxErrorView {
    pub span: Span,
    pub msg: Seq<char>,
}

impl DeepView for SyntaxError {
    type V = SyntaxErrorView;

    open spec fn deep_view(&self) -> SyntaxErrorView {
        SyntaxErrorView { span: self.span, msg: self.msg@ }
    }
}

/// A name that an import binds.
#[derive(Debug, Clone, PartialEq, Eq)]
pub enum ImportName {
    /// `import { imported as local }`; without `as` nothing is `imported`
    /// under another name.
    Named { local: String, imported: Option<String> },
    /// `import local`.
    Default { local: String },
    /// `import * as local`.
    Namespace { local: String },
}

/// An [`ImportName`] as mathematical values.
pub enum ImportNameView {
    Named { local: Seq<char>, imported: Option<Seq<char>> },
    Default { local: Seq<char> },
    Namespace { local: Seq<char> },
}

impl DeepView for ImportName {
    type V = ImportNameView;

    open spec fn deep_view(&self) -> ImportNameView {
        match self {
            ImportName::Named { local, imported } => ImportNameView::Named {
                local: local@,
                imported: imported.deep_view(),
            },
            ImportName::Default { local } => ImportNameView::Default { local: local@ },
            ImportName::Namespace { local } => ImportNameView::Namespace { local: local@ },
        }
    }
}

/// What an import declaration says besides the names it binds.
#[derive(Debug, Clone, PartialEq, Eq)]
pub struct ImportHead {
    pub span: Span,
    pub src: String,
    pub type_only: bool,
    /// The number of names that the declaration binds.
    pub names: usize,
}

/// An import declaration: the names it binds and the path it takes them
/// from.
#[derive(Debug, Clone, PartialEq, Eq)]
pub struct ImportDecl {
    pub span: Span,
    pub src: String,
    pub type_only: bool,
    pub names: Vec<ImportName>,
}

/// An [`ImportDecl`] as mathematical values.
pub struct ImportDeclView {
    pub span: Span,
    pub src: Seq<char>,
    pub type_only: bool,
    pub names: Seq<ImportNameView>,
}

impl DeepView for ImportDecl {
    type V = ImportDeclView;

    open spec fn deep_view(&self) -> ImportDeclView {
        ImportDeclView {
            span: self.span,
            src: self.src@,
            type_only: self.type_only,
            names: self.names.deep_view(),
        }
    }
}

/// The comments that stand before a position, in the order written.
#[derive(Debug, Clone, PartialEq, Eq)]
pub struct CommentGroup {
    pub pos: u32,
    pub texts: Vec<String>,
}

impl DeepView for CommentGroup {
    type V = (u32, Seq<Seq<char>>);

    open spec fn deep_view(&self) -> (u32, Seq<Seq<char>>) {
        (self.pos, self.texts.deep_view())
    }
}

/// What parsing a source text gives: the errors that the lexer met before
/// the parser began, the syntax tree or the error that stopped the parser,
/// and the comments.
pub struct Parsed {
    pub early_errors: Vec<SyntaxError>,
    pub ast: Result<swc_ecma_ast::Program, SyntaxError>,
    pub comments: SingleThreadedComments,
}

/// What the parser makes of a source text, as mathematical values: the
/// errors that the lexer met before the parser began, and either the items
/// of the body of the syntax tree or the error that stopped the parser.
pub struct ParsedView {
    pub early_errors: Seq<SyntaxErrorView>,
    pub outcome: Result<Seq<Option<ImportDeclView>>, SyntaxErrorView>,
}

/// The items of the body of a syntax tree, in order: for an import
/// declaration of a module what it declares, for any other item nothing.
pub uninterp spec fn module_items(ast: swc_ecma_ast::Program) -> Seq<Option<ImportDeclView>>;

/// The comments that a store of comments holds before each position that
/// has any: their texts, in the order written.
pub uninterp spec fn comments_held(comments: SingleThreadedComments) -> Map<u32, Seq<Seq<char>>>;

/// The span of a syntax tree.
pub uninterp spec fn tree_span(ast: swc_ecma_ast::Program) -> Span;

/// Whether `groups` lists the comments of `held`, each position once, in
/// some order.
pub open spec fn lists_comments(groups: Seq<(u32, Seq<Seq<char>>)>, held: Map<u32, Seq<Seq<char>>>) -> bool {
    &&& forall|i: int, j: int| 0 <= i < j < groups.len() ==> (#[trigger] groups[i]).0 != (#[trigger] groups[j]).0
    &&& forall|i: int| 0 <= i < groups.len() ==> held.contains_pair((#[trigger] groups[i]).0, groups[i].1)
    &&& forall|pos: u32| #[trigger]
        held.dom().contains(pos) ==> exists|i: int| 0 <= i < groups.len() && (#[trigger] groups[i]).0 == pos
}

/// What the parser makes of the text `src` as a TypeScript module with
/// decorators, as ES2022, when positions count from `start`; `tsx` and
/// `dts` say whether the text holds TSX and whether it holds declarations
/// only.
pub uninterp spec fn parsed_source(src: Seq<char>, start: u32, tsx: bool, dts: bool) -> ParsedView;

/// Parses `src` as a TypeScript module with decorators, as ES2022, with
/// `Lexer::new`, `Parser::new_from`, `Parser::take_errors` and
/// `Parser::parse_module`. Positions count from `start`. Of each error the
/// span and the message are kept. The claim is that the parser makes of
/// the same text the same: the errors, and the items of the tree or the
/// error that stopped it, are those of [`parsed_source`]. Nothing is
/// claimed of the comments.
#[verifier::external_body]
pub(crate) fn parse_module(src: &str, start: u32, tsx: bool, dts: bool) -> (parsed: Parsed)
    requires
        start + encode_utf8(src@).len() <= u32::MAX,
    ensures
        parsed.early_errors.deep_view() == parsed_source(src@, start, tsx, dts).early_errors,
        parsed_source(src@, start, tsx, dts).outcome == match parsed.ast {
            Ok(ast) => Ok::<Seq<Option<ImportDeclView>>, SyntaxErrorView>(module_items(ast)),
            Err(e) => Err::<Seq<Option<ImportDeclView>>, SyntaxErrorView>(e.deep_view()),
        },
{
    let comments = SingleThreadedComments::default();
    let syntax = Syntax::Typescript(TsSyntax { tsx, dts, decorators: true, ..Default::default() });
    let input = StringInput::new(src, BytePos(start), BytePos(start + src.len() as u32));
    let mut parser = Parser::new_from(Lexer::new(syntax, EsVersion::Es2022, input, Some(&comments)));
    let plain = |e: ParserError| SyntaxError {
        span: Span { lo: e.span().lo.0, hi: e.span().hi.0 },
        msg: e.into_kind().msg().to_string(),
    };
    let early_errors = parser.take_errors().into_iter().map(plain).collect();
    let ast = parser.parse_module().map(Program::Module).map_err(plain);
    Parsed { early_errors, ast, comments }
}

/// Runs the pass of `swc_ecma_transforms_base::resolver` over a syntax
/// tree with `VisitMutWith::visit_mut_with`; the pass tells apart the
/// identifiers that are spelled alike. It runs under the `GLOBALS` that are
/// set or else under new ones. The pass writes the syntax contexts of
/// identifiers and blocks and nothing else, so the claim is that the items
/// of the body stay what they were.
#[verifier::external_body]
pub(crate) fn resolve_identifiers(ast: swc_ecma_ast::Program) -> (resolved: swc_ecma_ast::Program)
    ensures
        module_items(resolved) == module_items(ast),
{
    let mut ast = ast;
    let mut run = || ast.visit_mut_with(&mut resolver(Mark::new(), Mark::new(), true));
    if GLOBALS.is_set() {
        run()
    } else {
        GLOBALS.set(&Globals::new(), run)
    }
    ast
}

/// Builds a `swc_ecma_ast::Module` without a body, at position `pos`, as
/// a `Program`. The claim is that its body has no items.
#[verifier::external_body]
pub(crate) fn empty_module(pos: u32) -> (ast: swc_ecma_ast::Program)
    ensures
        module_items(ast).len() == 0,
{
    Program::Module(
        swc_ecma_ast::Module {
            span: swc_common::Span::new(BytePos(pos), BytePos(pos)),
            body: Vec::new(),
            shebang: None,
        },
    )
}

/// The length of the `body` of a `Program`, be it a `Module` or a
/// `Script`. The claim is that this is the number of its items.
#[verifier::external_body]
pub(crate) fn body_len(ast: &swc_ecma_ast::Program) -> (n: usize)
    ensures
        n == module_items(*ast).len(),
{
    match ast {
        Program::Module(module) => module.body.len(),
        Program::Script(script) => script.body.len(),
    }
}

/// Reads item `i` of the `body` of a `Program`. If the program is a
/// `Module` and the item an `ImportDecl`, the claim is that its `span`,
/// the text of its `src`, its `type_only` and the number of its
/// `specifiers` are those of the item; else, that the item is none.
#[verifier::external_body]
pub(crate) fn body_import(ast: &swc_ecma_ast::Program, i: usize) -> (import: Option<ImportHead>)
    requires
        i < module_items(*ast).len(),
    ensures
        match import {
            Some(head) => module_items(*ast)[i as int] matches Some(decl) && decl.span == head.span
                && decl.src == head.src@ && decl.type_only == head.type_only && decl.names.len()
                == head.names,
            None => module_items(*ast)[i as int] is None,
        },
{
    match ast.as_module().map(|module| &module.body[i]) {
        Some(ModuleItem::ModuleDecl(ModuleDecl::Import(imp))) => Some(
            ImportHead {
                span: Span { lo: imp.span.lo.0, hi: imp.span.hi.0 },
                src: imp.src.value.to_string_lossy().into_owned(),
                type_only: imp.type_only,
                names: imp.specifiers.len(),
            },
        ),
        _ => None,
    }
}

/// Reads specifier `j` of the `ImportDecl` that is item `i` of the `body`
/// of a `Module`. The claim is that the kind of the `ImportSpecifier`, the
/// text of its `local` name and, where it is written, the text of its
/// `imported` name, read with `ModuleExportName::atom`, are those of the
/// item's name `j`.
#[verifier::external_body]
pub(crate) fn import_name(ast: &swc_ecma_ast::Program, i: usize, j: usize) -> (name: ImportName)
    requires
        i < module_items(*ast).len(),
        module_items(*ast)[i as int] matches Some(decl) && j < decl.names.len(),
    ensures
        name.deep_view() == module_items(*ast)[i as int]->0.names[j as int],
{
    let imp = ast.as_module().unwrap().body[i].as_module_decl().unwrap().as_import().unwrap();
    match &imp.specifiers[j] {
        ImportSpecifier::Named(named) => ImportName::Named {
            local: named.local.sym.to_string(),
            imported: named.imported.as_ref().map(|name| name.atom().to_string()),
        },
        ImportSpecifier::Default(default) => ImportName::Default { local: default.local.sym.to_string() },
        ImportSpecifier::Namespace(star) => ImportName::Namespace { local: star.local.sym.to_string() },
    }
}

/// The comments that stand before each position that has any, read with
/// `SingleThreadedComments::borrow_all`. The claim is that the groups are
/// the leading comments that the store holds, each position once. In which
/// order the positions come is left open: it is the order in which the
/// store's map is walked.
#[verifier::external_body]
pub(crate) fn leading_comments(comments: &SingleThreadedComments) -> (groups: Vec<CommentGroup>)
    ensures
        lists_comments(groups.deep_view(), comments_held(*comments)),
{
    let (leading, _) = comments.borrow_all();
    leading.iter().map(
        |(pos, list)| CommentGroup { pos: pos.0, texts: list.iter().map(|c| c.text.to_string()).collect() },
    ).collect()
}

/// The span of a syntax tree, read with `Spanned::span`.
#[verifier::external_body]
pub(crate) fn program_span(ast: &swc_ecma_ast::Program) -> (span: Span)
    ensures
        span == tree_span(*ast),
{
    let span = ast.span();
    Span { lo: span.lo.0, hi: span.hi.0 }
}

} // verus!
