//! Finding the resources that a module declares. A recognizer looks at the
//! modules that import from its packages only, and there for two shapes:
//! the construction of a tracked class, which declares a resource, and a
//! call of a static method of a tracked class, which refers to a resource
//! that is declared elsewhere.
use std::rc::Rc;
use vstd::prelude::*;
use crate::diagnostics::Diagnostic;
use crate::diagnostics::DiagnosticKind;
use crate::diagnostics::Diagnostics;
use crate::diagnostics::Range;
use crate::diagnostics::Span;
use crate::objects::Bucket;
use crate::objects::BucketView;
use crate::syntax::ImportDecl;
use crate::syntax::ImportDeclView;
use crate::syntax::ImportName;
use crate::syntax::ImportNameView;
use crate::text::str_eq;
use crate::types::Object;
use crate::types::ObjectView;
use crate::types::TypeChecker;
use crate::usageparser::Ident;

pub mod laws;
pub mod registry;

verus! {

/// A literal in the source text.
#[derive(Debug, PartialEq, Eq)]
pub enum Literal {
    Str(String),
    Bool(bool),
    Number,
    Null,
    /// An object literal: its fields in the order written.
    Object(Vec<(String, Literal)>),
    /// An expression that is no literal.
    Other,
}

/// The construction of an object, `new Class(args)`.
#[derive(Debug, PartialEq, Eq)]
pub struct NewExpr {
    pub range: Range,
    /// The name that the constructed class goes by in the module.
    pub class: String,
    pub args: Vec<Literal>,
    /// The identifier that the constructed object is assigned to.
    pub bind_name: Option<Ident>,
    /// The comment that stands before the construction.
    pub doc_comment: Option<String>,
}

/// The call of a static method, `Class.method(args)`.
#[derive(Debug, PartialEq, Eq)]
pub struct StaticCall {
    pub range: Range,
    /// The name that the class goes by in the module.
    pub class: String,
    pub method: String,
    pub args: Vec<Literal>,
    /// The identifier that the result is assigned to.
    pub bind_name: Option<Ident>,
}

/// What of a module's syntax tree a recognizer looks at.
#[derive(Debug, PartialEq, Eq)]
pub struct ModuleExprs {
    pub constructions: Vec<NewExpr>,
    pub static_calls: Vec<StaticCall>,
}

/// A declared resource.
#[derive(Debug, Clone, PartialEq, Eq)]
pub enum Resource {
    Bucket(Rc<Bucket>),
}

/// A resource by its name, wherever it is declared.
#[derive(Debug, Clone, PartialEq, Eq)]
pub enum ResourcePath {
    Bucket { name: String },
}

/// A resource, or the name of one that is declared elsewhere.
#[derive(Debug, Clone, PartialEq, Eq)]
pub enum ResourceOrPath {
    Resource(Resource),
    Path(ResourcePath),
}

/// Whether a binding declares its resource or refers to it.
#[derive(Debug, Clone, Copy, PartialEq, Eq, Structural)]
pub enum BindKind {
    Create,
    Reference,
}

/// The tie between a place in the source text and a resource.
#[derive(Debug, Clone, PartialEq, Eq)]
pub struct BindData {
    pub range: Range,
    pub resource: ResourceOrPath,
    /// The declared object that the resource is bound to.
    pub object: Option<Object>,
    pub kind: BindKind,
    /// The identifier that the resource is bound to.
    pub ident: Option<Ident>,
}

/// A [`ResourceOrPath`] as mathematical values.
pub enum ResourceView {
    Bucket(BucketView),
    BucketPath(Seq<char>),
}

impl DeepView for Resource {
    type V = BucketView;

    open spec fn deep_view(&self) -> BucketView {
        match self {
            Resource::Bucket(bucket) => bucket.deep_view(),
        }
    }
}

impl DeepView for ResourceOrPath {
    type V = ResourceView;

    open spec fn deep_view(&self) -> ResourceView {
        match self {
            ResourceOrPath::Resource(Resource::Bucket(bucket)) => ResourceView::Bucket(bucket.deep_view()),
            ResourceOrPath::Path(ResourcePath::Bucket { name }) => ResourceView::BucketPath(name@),
        }
    }
}

/// An [`Ident`] as mathematical values.
pub struct IdentView {
    pub name: Seq<char>,
    pub span: Span,
}

impl DeepView for Ident {
    type V = IdentView;

    open spec fn deep_view(&self) -> IdentView {
        IdentView { name: self.name@, span: self.span }
    }
}

/// A [`BindData`] as mathematical values.
pub struct BindView {
    pub range: Range,
    pub resource: ResourceView,
    pub object: Option<ObjectView>,
    pub kind: BindKind,
    pub ident: Option<IdentView>,
}

impl DeepView for BindData {
    type V = BindView;

    open spec fn deep_view(&self) -> BindView {
        BindView {
            range: self.range,
            resource: self.resource.deep_view(),
            object: self.object.deep_view(),
            kind: self.kind,
            ident: self.ident.deep_view(),
        }
    }
}

/// What a pass over the modules has found so far.
#[derive(Debug)]
pub struct ResourcePass {
    pub resources: Vec<Resource>,
    pub binds: Vec<BindData>,
    pub diags: Diagnostics,
}

/// A [`ResourcePass`] as mathematical values.
pub struct PassView {
    pub resources: Seq<BucketView>,
    pub binds: Seq<BindView>,
    pub diags: Seq<Diagnostic>,
}

impl DeepView for ResourcePass {
    type V = PassView;

    open spec fn deep_view(&self) -> PassView {
        PassView {
            resources: self.resources.deep_view(),
            binds: self.binds.deep_view(),
            diags: self.diags@,
        }
    }
}

impl ResourcePass {
    /// A pass that has found nothing yet.
    pub fn new() -> (pass: Self)
        ensures
            pass.deep_view() == (PassView {
                resources: Seq::empty(),
                binds: Seq::empty(),
                diags: Seq::empty(),
            }),
    {
        let pass = ResourcePass { resources: Vec::new(), binds: Vec::new(), diags: Diagnostics::new() };
        assert(pass.resources.deep_view() =~= Seq::<BucketView>::empty());
        assert(pass.binds.deep_view() =~= Seq::<BindView>::empty());
        pass
    }

    /// Records a declared resource.
    pub fn add_resource(&mut self, resource: Resource)
        ensures
            final(self).deep_view() == (PassView {
                resources: old(self).deep_view().resources.push(resource.deep_view()),
                ..old(self).deep_view()
            }),
    {
        self.resources.push(resource);
        assert(self.resources.deep_view() =~= old(self).resources.deep_view().push(resource.deep_view()));
    }

    /// Records a binding.
    pub fn add_bind(&mut self, bind: BindData)
        ensures
            final(self).deep_view() == (PassView {
                binds: old(self).deep_view().binds.push(bind.deep_view()),
                ..old(self).deep_view()
            }),
    {
        self.binds.push(bind);
        assert(self.binds.deep_view() =~= old(self).binds.deep_view().push(bind.deep_view()));
    }
}

/// The package that buckets are imported from.
pub open spec fn objects_package() -> Seq<char> {
    "encore.dev/storage/objects"@
}

/// Whether one of the first `k` import declarations takes anything from
/// the package.
pub open spec fn imports_from(imports: Seq<ImportDeclView>, package: Seq<char>, k: int) -> bool
    decreases k,
{
    if k <= 0 {
        false
    } else {
        imports_from(imports, package, k - 1) || imports[k - 1].src == package
    }
}

/// Whether a module is of interest to the recognizer of buckets: it
/// imports from the package of buckets.
pub open spec fn is_interesting(imports: Seq<ImportDeclView>) -> bool {
    imports_from(imports, objects_package(), imports.len() as int)
}

/// Whether an imported name binds `local` to the export `exported`.
pub open spec fn binds_export(name: ImportNameView, local: Seq<char>, exported: Seq<char>) -> bool {
    match name {
        ImportNameView::Named { local: bound, imported } => bound == local && match imported {
            Some(imported) => imported == exported,
            None => bound == exported,
        },
        _ => false,
    }
}

/// Whether one of the first `k` names binds `local` to the export.
pub open spec fn names_bind(names: Seq<ImportNameView>, local: Seq<char>, exported: Seq<char>, k: int) -> bool
    decreases k,
{
    if k <= 0 {
        false
    } else {
        names_bind(names, local, exported, k - 1) || binds_export(names[k - 1], local, exported)
    }
}

/// Whether one of the first `k` import declarations binds `local` to the
/// export `exported` of the package.
pub open spec fn tracked_before(
    imports: Seq<ImportDeclView>,
    local: Seq<char>,
    package: Seq<char>,
    exported: Seq<char>,
    k: int,
) -> bool
    decreases k,
{
    if k <= 0 {
        false
    } else {
        tracked_before(imports, local, package, exported, k - 1) || (imports[k - 1].src == package
            && names_bind(imports[k - 1].names, local, exported, imports[k - 1].names.len() as int))
    }
}

/// Whether `local` is a name of the class of buckets in a module with
/// these imports.
pub open spec fn is_bucket_class(imports: Seq<ImportDeclView>, local: Seq<char>) -> bool {
    tracked_before(imports, local, objects_package(), "Bucket"@, imports.len() as int)
}

/// The value of the last of the first `k` fields that has the given name.
pub open spec fn field_value(fields: Seq<(String, Literal)>, name: Seq<char>, k: int) -> Option<Literal>
    decreases k,
{
    if k <= 0 {
        None
    } else if fields[k - 1].0@ == name {
        Some(fields[k - 1].1)
    } else {
        field_value(fields, name, k - 1)
    }
}

/// Whether a bucket is versioned according to its configuration, or
/// nothing where the configuration does not have the expected shape.
///
/// A bucket without configuration is not versioned. A configuration is an
/// object literal; its field `versioned`, if it has one, is a boolean
/// literal. Other fields are passed over.
pub open spec fn versioned_of(config: Option<Literal>) -> Option<bool> {
    match config {
        None => Some(false),
        Some(Literal::Object(fields)) => match field_value(fields@, "versioned"@, fields@.len() as int) {
            None => Some(false),
            Some(Literal::Bool(b)) => Some(b),
            Some(_) => None,
        },
        Some(_) => None,
    }
}

/// An argument, if it is there.
pub open spec fn argument(args: Seq<Literal>, i: int) -> Option<Literal> {
    if 0 <= i < args.len() {
        Some(args[i])
    } else {
        None
    }
}

/// The name of the resource that a list of arguments begins with, if it
/// begins with a string literal.
pub open spec fn resource_name(args: Seq<Literal>) -> Option<Seq<char>> {
    match argument(args, 0) {
        Some(Literal::Str(name)) => Some(name@),
        _ => None,
    }
}

/// The object that an optional identifier is bound to.
pub open spec fn bound_to(checker: TypeChecker, ident: Option<Ident>) -> Option<ObjectView> {
    match ident {
        Some(ident) => checker.object_of(ident.name@),
        None => None,
    }
}

/// What a recognizer makes of an expression.
pub enum Found {
    /// The expression is of no interest.
    Nothing,
    /// The expression is wrong in this way, at this place.
    Invalid(Diagnostic),
    /// The expression declares this bucket, with this binding.
    Declares(BucketView, BindView),
    /// The expression refers to a bucket, with this binding.
    Refers(BindView),
}

/// What the recognizer of buckets makes of a construction. The
/// construction of a bucket declares the bucket that its first argument
/// names and its second configures, and binds it at the place of the
/// construction. Without a name, or with a configuration of another shape,
/// it is an error and declares nothing.
pub open spec fn declaration(imports: Seq<ImportDeclView>, checker: TypeChecker, e: NewExpr) -> Found {
    if !is_bucket_class(imports, e.class@) {
        Found::Nothing
    } else {
        match resource_name(e.args@) {
            None => Found::Invalid(
                Diagnostic {
                    span: Span { lo: e.range.start, hi: e.range.end },
                    kind: DiagnosticKind::InvalidResourceName,
                },
            ),
            Some(name) => match versioned_of(argument(e.args@, 1)) {
                None => Found::Invalid(
                    Diagnostic {
                        span: Span { lo: e.range.start, hi: e.range.end },
                        kind: DiagnosticKind::InvalidConfig,
                    },
                ),
                Some(versioned) => {
                    let bucket = BucketView { name, doc: e.doc_comment.deep_view(), versioned };
                    Found::Declares(
                        bucket,
                        BindView {
                            range: e.range,
                            resource: ResourceView::Bucket(bucket),
                            object: bound_to(checker, e.bind_name),
                            kind: BindKind::Create,
                            ident: e.bind_name.deep_view(),
                        },
                    )
                },
            },
        }
    }
}

/// What the recognizer of buckets makes of a static call. The call of
/// `named` on the class of buckets refers to the bucket that its first
/// argument names; without a name it is an error.
pub open spec fn reference(imports: Seq<ImportDeclView>, checker: TypeChecker, c: StaticCall) -> Found {
    if !is_bucket_class(imports, c.class@) || c.method@ != "named"@ {
        Found::Nothing
    } else {
        match resource_name(c.args@) {
            None => Found::Invalid(
                Diagnostic {
                    span: Span { lo: c.range.start, hi: c.range.end },
                    kind: DiagnosticKind::InvalidResourceName,
                },
            ),
            Some(name) => Found::Refers(
                BindView {
                    range: c.range,
                    resource: ResourceView::BucketPath(name),
                    object: bound_to(checker, c.bind_name),
                    kind: BindKind::Reference,
                    ident: c.bind_name.deep_view(),
                },
            ),
        }
    }
}

/// The pass after one more finding.
pub open spec fn with_found(pass: PassView, found: Found) -> PassView {
    match found {
        Found::Nothing => pass,
        Found::Invalid(diagnostic) => PassView { diags: pass.diags.push(diagnostic), ..pass },
        Found::Declares(bucket, bind) => PassView {
            resources: pass.resources.push(bucket),
            binds: pass.binds.push(bind),
            ..pass
        },
        Found::Refers(bind) => PassView { binds: pass.binds.push(bind), ..pass },
    }
}

/// The pass after the first `k` constructions of a module.
pub open spec fn after_constructions(
    pass: PassView,
    imports: Seq<ImportDeclView>,
    checker: TypeChecker,
    constructions: Seq<NewExpr>,
    k: int,
) -> PassView
    decreases k,
{
    if k <= 0 {
        pass
    } else {
        with_found(
            after_constructions(pass, imports, checker, constructions, k - 1),
            declaration(imports, checker, constructions[k - 1]),
        )
    }
}

/// The pass after the first `k` static calls of a module.
pub open spec fn after_static_calls(
    pass: PassView,
    imports: Seq<ImportDeclView>,
    checker: TypeChecker,
    calls: Seq<StaticCall>,
    k: int,
) -> PassView
    decreases k,
{
    if k <= 0 {
        pass
    } else {
        with_found(
            after_static_calls(pass, imports, checker, calls, k - 1),
            reference(imports, checker, calls[k - 1]),
        )
    }
}

/// The pass after the recognizer of buckets has run over a module: first
/// over its constructions, then over its static calls.
pub open spec fn after_objects(
    pass: PassView,
    imports: Seq<ImportDeclView>,
    checker: TypeChecker,
    exprs: ModuleExprs,
) -> PassView {
    after_static_calls(
        after_constructions(pass, imports, checker, exprs.constructions@, exprs.constructions@.len() as int),
        imports,
        checker,
        exprs.static_calls@,
        exprs.static_calls@.len() as int,
    )
}

/// The pass after the recognizer of buckets has looked at a module: a
/// module that is of no interest is passed over.
pub open spec fn after_scan(
    pass: PassView,
    imports: Seq<ImportDeclView>,
    checker: TypeChecker,
    exprs: ModuleExprs,
) -> PassView {
    if is_interesting(imports) {
        after_objects(pass, imports, checker, exprs)
    } else {
        pass
    }
}

/// Whether a module imports anything from a package.
pub fn imports_package(imports: &Vec<ImportDecl>, package: &str) -> (yes: bool)
    ensures
        yes == imports_from(imports.deep_view(), package@, imports.deep_view().len() as int),
{
    let mut i: usize = 0;
    while i < imports.len()
        invariant
            i <= imports.len(),
            !imports_from(imports.deep_view(), package@, i as int),
        decreases imports.len() - i,
    {
        if str_eq(imports[i].src.as_str(), package) {
            proof {
                lemma_imports_from_stays(imports.deep_view(), package@, i + 1, imports.len() as int);
            }
            return true;
        }
        i += 1;
    }
    false
}

/// Whether a module imports anything from the package of buckets.
pub fn imports_objects(imports: &Vec<ImportDecl>) -> (interesting: bool)
    ensures
        interesting == is_interesting(imports.deep_view()),
{
    imports_package(imports, "encore.dev/storage/objects")
}

/// Whether an imported name binds `local` to the export `exported`.
pub fn name_binds(name: &ImportName, local: &str, exported: &str) -> (binds: bool)
    ensures
        binds == binds_export(name.deep_view(), local@, exported@),
{
    match name {
        ImportName::Named { local: bound, imported } => str_eq(bound.as_str(), local) && match imported {
            Some(imported) => str_eq(imported.as_str(), exported),
            None => str_eq(bound.as_str(), exported),
        },
        _ => false,
    }
}

/// Whether `local` is a name of the class of buckets in a module with
/// these imports.
pub fn tracks_bucket(imports: &Vec<ImportDecl>, local: &str) -> (known: bool)
    ensures
        known == is_bucket_class(imports.deep_view(), local@),
{
    let ghost views = imports.deep_view();
    let mut i: usize = 0;
    while i < imports.len()
        invariant
            i <= imports.len(),
            views == imports.deep_view(),
            !tracked_before(views, local@, objects_package(), "Bucket"@, i as int),
        decreases imports.len() - i,
    {
        let import = &imports[i];
        if str_eq(import.src.as_str(), "encore.dev/storage/objects") {
            let ghost names = import.names.deep_view();
            assert(names == views[i as int].names);
            let mut j: usize = 0;
            while j < import.names.len()
                invariant
                    j <= import.names.len(),
                    i < imports.len(),
                    views == imports.deep_view(),
                    views.len() == imports.len(),
                    views[i as int].src == objects_package(),
                    names == views[i as int].names,
                    names == import.names.deep_view(),
                    !names_bind(names, local@, "Bucket"@, j as int),
                decreases import.names.len() - j,
            {
                if name_binds(&import.names[j], local, "Bucket") {
                    proof {
                        assert(names[j as int] == import.names@[j as int].deep_view());
                        assert(names_bind(names, local@, "Bucket"@, j + 1));
                        lemma_names_bind_stays(names, local@, "Bucket"@, j + 1, names.len() as int);
                        assert(tracked_before(views, local@, objects_package(), "Bucket"@, i + 1));
                        lemma_tracked_stays(
                            views,
                            local@,
                            objects_package(),
                            "Bucket"@,
                            i + 1,
                            views.len() as int,
                        );
                    }
                    return true;
                }
                j += 1;
            }
        }
        i += 1;
    }
    false
}

/// What was found among the first imports is found among more.
pub proof fn lemma_imports_from_stays(imports: Seq<ImportDeclView>, package: Seq<char>, k: int, n: int)
    requires
        k <= n,
        imports_from(imports, package, k),
    ensures
        imports_from(imports, package, n),
    decreases n - k,
{
    if k < n {
        lemma_imports_from_stays(imports, package, k, n - 1);
    }
}

/// What was found among the first names is found among more.
pub proof fn lemma_names_bind_stays(
    names: Seq<ImportNameView>,
    local: Seq<char>,
    exported: Seq<char>,
    k: int,
    n: int,
)
    requires
        k <= n,
        names_bind(names, local, exported, k),
    ensures
        names_bind(names, local, exported, n),
    decreases n - k,
{
    if k < n {
        lemma_names_bind_stays(names, local, exported, k, n - 1);
    }
}

/// What was tracked by the first imports is tracked by more.
pub proof fn lemma_tracked_stays(
    imports: Seq<ImportDeclView>,
    local: Seq<char>,
    package: Seq<char>,
    exported: Seq<char>,
    k: int,
    n: int,
)
    requires
        k <= n,
        tracked_before(imports, local, package, exported, k),
    ensures
        tracked_before(imports, local, package, exported, n),
    decreases n - k,
{
    if k < n {
        lemma_tracked_stays(imports, local, package, exported, k, n - 1);
    }
}

/// The value of the last field that has the given name.
pub fn last_field<'a>(fields: &'a Vec<(String, Literal)>, name: &str) -> (value: Option<&'a Literal>)
    ensures
        match value {
            Some(v) => field_value(fields@, name@, fields@.len() as int) == Some(*v),
            None => field_value(fields@, name@, fields@.len() as int) is None,
        },
{
    let mut k: usize = fields.len();
    while k > 0
        invariant
            k <= fields.len(),
            field_value(fields@, name@, fields@.len() as int) == field_value(fields@, name@, k as int),
        decreases k,
    {
        if str_eq(fields[k - 1].0.as_str(), name) {
            return Some(&fields[k - 1].1);
        }
        k -= 1;
    }
    None
}

/// Whether a bucket is versioned according to its configuration.
pub fn decode_bucket_config(config: Option<&Literal>) -> (versioned: Option<bool>)
    ensures
        versioned == versioned_of(
            match config {
                Some(c) => Some(*c),
                None => None,
            },
        ),
{
    match config {
        None => Some(false),
        Some(Literal::Object(fields)) => match last_field(fields, "versioned") {
            None => Some(false),
            Some(Literal::Bool(b)) => Some(*b),
            Some(_) => None,
        },
        Some(_) => None,
    }
}

/// The name of the resource that a list of arguments begins with.
pub fn first_string(args: &Vec<Literal>) -> (name: Option<String>)
    ensures
        name.deep_view() == resource_name(args@),
{
    if args.len() == 0 {
        return None;
    }
    match &args[0] {
        Literal::Str(name) => Some(name.clone()),
        _ => None,
    }
}

/// The object that an optional identifier is bound to.
pub fn resolve_bound(checker: &TypeChecker, ident: &Option<Ident>) -> (object: Option<Object>)
    ensures
        object.deep_view() == bound_to(*checker, *ident),
{
    match ident {
        Some(ident) => checker.resolve_obj(ident.name.as_str()),
        None => None,
    }
}

/// Looks at one construction.
pub fn scan_construction(
    pass: &mut ResourcePass,
    imports: &Vec<ImportDecl>,
    checker: &TypeChecker,
    e: &NewExpr,
)
    ensures
        final(pass).deep_view() == with_found(
            old(pass).deep_view(),
            declaration(imports.deep_view(), *checker, *e),
        ),
{
    if !tracks_bucket(imports, e.class.as_str()) {
        return ;
    }
    let name = match first_string(&e.args) {
        Some(name) => name,
        None => {
            pass.diags.err(e.range.to_span(), DiagnosticKind::InvalidResourceName);
            return ;
        },
    };
    let config = if e.args.len() > 1 {
        Some(&e.args[1])
    } else {
        None
    };
    let versioned = match decode_bucket_config(config) {
        Some(versioned) => versioned,
        None => {
            pass.diags.err(e.range.to_span(), DiagnosticKind::InvalidConfig);
            return ;
        },
    };
    let object = resolve_bound(checker, &e.bind_name);
    let bucket = Rc::new(Bucket { name, doc: e.doc_comment.clone(), versioned });
    pass.add_resource(Resource::Bucket(bucket.clone()));
    pass.add_bind(
        BindData {
            range: e.range,
            resource: ResourceOrPath::Resource(Resource::Bucket(bucket)),
            object,
            kind: BindKind::Create,
            ident: e.bind_name.clone(),
        },
    );
}

/// Looks at one static call.
pub fn scan_static_call(
    pass: &mut ResourcePass,
    imports: &Vec<ImportDecl>,
    checker: &TypeChecker,
    c: &StaticCall,
)
    ensures
        final(pass).deep_view() == with_found(
            old(pass).deep_view(),
            reference(imports.deep_view(), *checker, *c),
        ),
{
    if !tracks_bucket(imports, c.class.as_str()) || !str_eq(c.method.as_str(), "named") {
        return ;
    }
    let name = match first_string(&c.args) {
        Some(name) => name,
        None => {
            pass.diags.err(c.range.to_span(), DiagnosticKind::InvalidResourceName);
            return ;
        },
    };
    let object = resolve_bound(checker, &c.bind_name);
    pass.add_bind(
        BindData {
            range: c.range,
            resource: ResourceOrPath::Path(ResourcePath::Bucket { name }),
            object,
            kind: BindKind::Reference,
            ident: c.bind_name.clone(),
        },
    );
}

/// Runs the recognizer of buckets over a module: it records the buckets
/// that the module declares, each with the binding that creates it, and
/// the references to buckets that are declared elsewhere.
pub fn run_objects_parser(
    pass: &mut ResourcePass,
    imports: &Vec<ImportDecl>,
    checker: &TypeChecker,
    exprs: &ModuleExprs,
)
    ensures
        final(pass).deep_view() == after_objects(old(pass).deep_view(), imports.deep_view(), *checker, *exprs),
{
    let mut i: usize = 0;
    while i < exprs.constructions.len()
        invariant
            i <= exprs.constructions.len(),
            pass.deep_view() == after_constructions(
                old(pass).deep_view(),
                imports.deep_view(),
                *checker,
                exprs.constructions@,
                i as int,
            ),
        decreases exprs.constructions.len() - i,
    {
        scan_construction(pass, imports, checker, &exprs.constructions[i]);
        i += 1;
    }
    let ghost declared = pass.deep_view();
    let mut j: usize = 0;
    while j < exprs.static_calls.len()
        invariant
            j <= exprs.static_calls.len(),
            pass.deep_view() == after_static_calls(
                declared,
                imports.deep_view(),
                *checker,
                exprs.static_calls@,
                j as int,
            ),
        decreases exprs.static_calls.len() - j,
    {
        scan_static_call(pass, imports, checker, &exprs.static_calls[j]);
        j += 1;
    }
}

/// Lets the recognizer of buckets look at a module. A module that imports
/// nothing from the package of buckets is passed over: nothing is recorded
/// and nothing reported.
pub fn scan_module(
    pass: &mut ResourcePass,
    imports: &Vec<ImportDecl>,
    checker: &TypeChecker,
    exprs: &ModuleExprs,
)
    ensures
        final(pass).deep_view() == after_scan(old(pass).deep_view(), imports.deep_view(), *checker, *exprs),
        !is_interesting(imports.deep_view()) ==> final(pass).deep_view() == old(pass).deep_view(),
{
    if imports_objects(imports) {
        run_objects_parser(pass, imports, checker, exprs);
    }
}

} // verus!
