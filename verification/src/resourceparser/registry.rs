//! The recognizers of resources. Each names the packages that make a
//! module of interest to it and is run over the modules that import from
//! one of them. A new kind of resource takes a recognizer of its own here
//! and nothing elsewhere.
use vstd::prelude::*;
use crate::resourceparser::after_objects;
use crate::resourceparser::imports_from;
use crate::resourceparser::imports_package;
use crate::resourceparser::is_interesting;
use crate::resourceparser::laws::lemma_no_import_from;
use crate::resourceparser::objects_package;
use crate::resourceparser::run_objects_parser;
use crate::resourceparser::ModuleExprs;
use crate::resourceparser::PassView;
use crate::resourceparser::ResourcePass;
use crate::syntax::ImportDecl;
use crate::syntax::ImportDeclView;
use crate::types::TypeChecker;

verus! {

/// The kinds of resources that there are recognizers for.
#[derive(Debug, Clone, Copy, PartialEq, Eq, Structural)]
pub enum ResourceKind {
    /// Buckets of object storage.
    Objects,
}

/// A recognizer of one kind of resource.
#[derive(Debug, PartialEq, Eq)]
pub struct ResourceParser {
    pub name: String,
    /// The packages that a module has to import from to be looked at.
    pub interesting_pkgs: Vec<String>,
    pub kind: ResourceKind,
}

/// Whether a module with these imports imports from one of the first `k`
/// packages.
pub open spec fn imports_any(imports: Seq<ImportDeclView>, packages: Seq<String>, k: int) -> bool
    decreases k,
{
    if k <= 0 {
        false
    } else {
        imports_any(imports, packages, k - 1) || imports_from(
            imports,
            packages[k - 1]@,
            imports.len() as int,
        )
    }
}

/// What running a recognizer of this kind over a module makes of a pass.
pub open spec fn after_run(
    kind: ResourceKind,
    pass: PassView,
    imports: Seq<ImportDeclView>,
    checker: TypeChecker,
    exprs: ModuleExprs,
) -> PassView {
    match kind {
        ResourceKind::Objects => after_objects(pass, imports, checker, exprs),
    }
}

/// What a recognizer makes of a pass when it is shown a module: it runs
/// over a module that is of interest to it and passes over any other.
pub open spec fn after_parser(
    parser: ResourceParser,
    pass: PassView,
    imports: Seq<ImportDeclView>,
    checker: TypeChecker,
    exprs: ModuleExprs,
) -> PassView {
    if parser.wants(imports) {
        after_run(parser.kind, pass, imports, checker, exprs)
    } else {
        pass
    }
}

/// What the first `k` recognizers, one after another, make of a pass when
/// they are shown a module.
pub open spec fn after_parsers(
    parsers: Seq<ResourceParser>,
    pass: PassView,
    imports: Seq<ImportDeclView>,
    checker: TypeChecker,
    exprs: ModuleExprs,
    k: int,
) -> PassView
    decreases k,
{
    if k <= 0 {
        pass
    } else {
        after_parser(
            parsers[k - 1],
            after_parsers(parsers, pass, imports, checker, exprs, k - 1),
            imports,
            checker,
            exprs,
        )
    }
}

impl ResourceParser {
    /// Whether a module with these imports is of interest to the
    /// recognizer: it imports from one of the recognizer's packages.
    pub open spec fn wants(self, imports: Seq<ImportDeclView>) -> bool {
        imports_any(imports, self.interesting_pkgs@, self.interesting_pkgs@.len() as int)
    }

    /// Whether a module with these imports is of interest to the
    /// recognizer.
    pub fn is_interesting(&self, imports: &Vec<ImportDecl>) -> (yes: bool)
        ensures
            yes == self.wants(imports.deep_view()),
    {
        let mut k: usize = 0;
        while k < self.interesting_pkgs.len()
            invariant
                k <= self.interesting_pkgs.len(),
                !imports_any(imports.deep_view(), self.interesting_pkgs@, k as int),
            decreases self.interesting_pkgs.len() - k,
        {
            if imports_package(imports, self.interesting_pkgs[k].as_str()) {
                proof {
                    lemma_imports_any_stays(
                        imports.deep_view(),
                        self.interesting_pkgs@,
                        k + 1,
                        self.interesting_pkgs@.len() as int,
                    );
                }
                return true;
            }
            k += 1;
        }
        false
    }

    /// Runs the recognizer over a module.
    pub fn run(
        &self,
        pass: &mut ResourcePass,
        imports: &Vec<ImportDecl>,
        checker: &TypeChecker,
        exprs: &ModuleExprs,
    )
        ensures
            final(pass).deep_view() == after_run(
                self.kind,
                old(pass).deep_view(),
                imports.deep_view(),
                *checker,
                *exprs,
            ),
    {
        match self.kind {
            ResourceKind::Objects => run_objects_parser(pass, imports, checker, exprs),
        }
    }

    /// Shows the recognizer a module: it runs over the module if the
    /// module is of interest to it.
    pub fn scan(
        &self,
        pass: &mut ResourcePass,
        imports: &Vec<ImportDecl>,
        checker: &TypeChecker,
        exprs: &ModuleExprs,
    )
        ensures
            final(pass).deep_view() == after_parser(
                *self,
                old(pass).deep_view(),
                imports.deep_view(),
                *checker,
                *exprs,
            ),
    {
        if self.is_interesting(imports) {
            self.run(pass, imports, checker, exprs);
        }
    }
}

/// The recognizer of buckets.
pub fn objects_parser() -> (parser: ResourceParser)
    ensures
        parser.name@ == "objects"@,
        parser.kind == ResourceKind::Objects,
        parser.interesting_pkgs@.len() == 1,
        parser.interesting_pkgs@[0]@ == objects_package(),
{
    let mut interesting_pkgs: Vec<String> = Vec::new();
    interesting_pkgs.push(String::from_str("encore.dev/storage/objects"));
    ResourceParser { name: String::from_str("objects"), interesting_pkgs, kind: ResourceKind::Objects }
}

/// Shows a module to every recognizer, one after another.
pub fn scan_with(
    parsers: &Vec<ResourceParser>,
    pass: &mut ResourcePass,
    imports: &Vec<ImportDecl>,
    checker: &TypeChecker,
    exprs: &ModuleExprs,
)
    ensures
        final(pass).deep_view() == after_parsers(
            parsers@,
            old(pass).deep_view(),
            imports.deep_view(),
            *checker,
            *exprs,
            parsers@.len() as int,
        ),
{
    let mut k: usize = 0;
    while k < parsers.len()
        invariant
            k <= parsers.len(),
            pass.deep_view() == after_parsers(
                parsers@,
                old(pass).deep_view(),
                imports.deep_view(),
                *checker,
                *exprs,
                k as int,
            ),
        decreases parsers.len() - k,
    {
        parsers[k].scan(pass, imports, checker, exprs);
        k += 1;
    }
}

/// What was found among the first packages is found among more.
pub proof fn lemma_imports_any_stays(imports: Seq<ImportDeclView>, packages: Seq<String>, k: int, n: int)
    requires
        k <= n,
        imports_any(imports, packages, k),
    ensures
        imports_any(imports, packages, n),
    decreases n - k,
{
    if k < n {
        lemma_imports_any_stays(imports, packages, k, n - 1);
    }
}

/// A recognizer leaves no trace of a module that imports from none of its
/// packages: no resource, no binding, no error.
pub proof fn lemma_uninteresting_to(
    parser: ResourceParser,
    pass: PassView,
    imports: Seq<ImportDeclView>,
    checker: TypeChecker,
    exprs: ModuleExprs,
)
    requires
        forall|i: int, k: int|
            0 <= i < imports.len() && 0 <= k < parser.interesting_pkgs@.len() ==> (#[trigger] imports[i]).src
                != (#[trigger] parser.interesting_pkgs@[k])@,
    ensures
        after_parser(parser, pass, imports, checker, exprs) == pass,
{
    lemma_imports_none(imports, parser.interesting_pkgs@, parser.interesting_pkgs@.len() as int);
}

/// Imports from other packages are imports from none of the packages.
proof fn lemma_imports_none(imports: Seq<ImportDeclView>, packages: Seq<String>, k: int)
    requires
        k <= packages.len(),
        forall|i: int, j: int|
            0 <= i < imports.len() && 0 <= j < packages.len() ==> (#[trigger] imports[i]).src != (
            #[trigger] packages[j])@,
    ensures
        !imports_any(imports, packages, k),
    decreases k,
{
    if k > 0 {
        lemma_imports_none(imports, packages, k - 1);
        lemma_no_import_from(imports, packages[k - 1]@, imports.len() as int);
    }
}

/// The recognizer of buckets looks at the modules that import from the
/// package of buckets, and at no others.
pub proof fn lemma_objects_parser_wants(parser: ResourceParser, imports: Seq<ImportDeclView>)
    requires
        parser.interesting_pkgs@.len() == 1,
        parser.interesting_pkgs@[0]@ == objects_package(),
    ensures
        parser.wants(imports) == is_interesting(imports),
{
    assert(!imports_any(imports, parser.interesting_pkgs@, 0));
}

} // verus!
