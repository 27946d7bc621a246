//! What holds of a pass whatever the modules hold: every resource has one
//! binding that creates it, and modules of no interest leave no trace.
use vstd::prelude::*;
use crate::diagnostics::Range;
use crate::diagnostics::Span;
use crate::resourceparser::after_constructions;
use crate::resourceparser::after_scan;
use crate::resourceparser::after_static_calls;
use crate::resourceparser::declaration;
use crate::resourceparser::imports_from;
use crate::resourceparser::is_interesting;
use crate::resourceparser::objects_package;
use crate::resourceparser::reference;
use crate::resourceparser::with_found;
use crate::resourceparser::BindKind;
use crate::resourceparser::BindView;
use crate::resourceparser::Found;
use crate::resourceparser::ModuleExprs;
use crate::resourceparser::NewExpr;
use crate::resourceparser::PassView;
use crate::resourceparser::ResourceView;
use crate::resourceparser::StaticCall;
use crate::syntax::ImportDeclView;
use crate::types::TypeChecker;

verus! {

/// The resources that the creating ones among the first `k` bindings
/// bind, in order.
pub open spec fn created_before(binds: Seq<BindView>, k: int) -> Seq<ResourceView>
    decreases k,
{
    if k <= 0 {
        Seq::empty()
    } else if binds[k - 1].kind == BindKind::Create {
        created_before(binds, k - 1).push(binds[k - 1].resource)
    } else {
        created_before(binds, k - 1)
    }
}

/// Whether every resource of the pass has exactly one creating binding:
/// the creating bindings bind the resources of the pass, one each, in
/// order.
pub open spec fn one_create_each(pass: PassView) -> bool {
    created_before(pass.binds, pass.binds.len() as int) == Seq::new(
        pass.resources.len(),
        |i: int| ResourceView::Bucket(pass.resources[i]),
    )
}

/// The creating bindings among bindings do not depend on the bindings
/// after them.
proof fn lemma_created_prefix(binds: Seq<BindView>, more: Seq<BindView>, k: int)
    requires
        0 <= k <= binds.len(),
        binds.is_prefix_of(more),
    ensures
        created_before(more, k) == created_before(binds, k),
    decreases k,
{
    if k > 0 {
        lemma_created_prefix(binds, more, k - 1);
    }
}

/// One more finding leaves every resource with exactly one creating
/// binding.
proof fn lemma_found_keeps_one_create(pass: PassView, found: Found)
    requires
        one_create_each(pass),
        found matches Found::Declares(bucket, bind) ==> bind.kind == BindKind::Create && bind.resource
            == ResourceView::Bucket(bucket),
        found matches Found::Refers(bind) ==> bind.kind == BindKind::Reference,
    ensures
        one_create_each(with_found(pass, found)),
{
    let after = with_found(pass, found);
    match found {
        Found::Declares(bucket, bind) => {
            lemma_created_prefix(pass.binds, after.binds, pass.binds.len() as int);
            assert(created_before(after.binds, after.binds.len() as int) =~= Seq::new(
                after.resources.len(),
                |i: int| ResourceView::Bucket(after.resources[i]),
            ));
        },
        Found::Refers(bind) => {
            lemma_created_prefix(pass.binds, after.binds, pass.binds.len() as int);
        },
        _ => {},
    }
}

/// Looking at a module leaves every resource with exactly one creating
/// binding, at the place where the resource is declared.
pub proof fn lemma_scan_keeps_one_create(
    pass: PassView,
    imports: Seq<ImportDeclView>,
    checker: TypeChecker,
    exprs: ModuleExprs,
)
    requires
        one_create_each(pass),
    ensures
        one_create_each(after_scan(pass, imports, checker, exprs)),
{
    if is_interesting(imports) {
        lemma_constructions_keep(pass, imports, checker, exprs.constructions@, exprs.constructions@.len() as int);
        lemma_static_calls_keep(
            after_constructions(
                pass,
                imports,
                checker,
                exprs.constructions@,
                exprs.constructions@.len() as int,
            ),
            imports,
            checker,
            exprs.static_calls@,
            exprs.static_calls@.len() as int,
        );
    }
}

/// Looking at constructions leaves every resource with exactly one
/// creating binding.
proof fn lemma_constructions_keep(
    pass: PassView,
    imports: Seq<ImportDeclView>,
    checker: TypeChecker,
    constructions: Seq<NewExpr>,
    k: int,
)
    requires
        one_create_each(pass),
    ensures
        one_create_each(after_constructions(pass, imports, checker, constructions, k)),
    decreases k,
{
    if k > 0 {
        lemma_constructions_keep(pass, imports, checker, constructions, k - 1);
        lemma_found_keeps_one_create(
            after_constructions(pass, imports, checker, constructions, k - 1),
            declaration(imports, checker, constructions[k - 1]),
        );
    }
}

/// Looking at static calls leaves every resource with exactly one creating
/// binding.
proof fn lemma_static_calls_keep(
    pass: PassView,
    imports: Seq<ImportDeclView>,
    checker: TypeChecker,
    calls: Seq<StaticCall>,
    k: int,
)
    requires
        one_create_each(pass),
    ensures
        one_create_each(after_static_calls(pass, imports, checker, calls, k)),
    decreases k,
{
    if k > 0 {
        lemma_static_calls_keep(pass, imports, checker, calls, k - 1);
        lemma_found_keeps_one_create(
            after_static_calls(pass, imports, checker, calls, k - 1),
            reference(imports, checker, calls[k - 1]),
        );
    }
}

/// A module that imports nothing from the package of buckets adds no
/// resource, no binding and no error to a pass.
pub proof fn lemma_uninteresting_module(
    pass: PassView,
    imports: Seq<ImportDeclView>,
    checker: TypeChecker,
    exprs: ModuleExprs,
)
    requires
        forall|i: int| 0 <= i < imports.len() ==> (#[trigger] imports[i]).src != objects_package(),
    ensures
        after_scan(pass, imports, checker, exprs) == pass,
{
    lemma_no_import_from(imports, objects_package(), imports.len() as int);
}

/// Imports from other packages are no imports from the package.
pub proof fn lemma_no_import_from(imports: Seq<ImportDeclView>, package: Seq<char>, k: int)
    requires
        k <= imports.len(),
        forall|i: int| 0 <= i < imports.len() ==> (#[trigger] imports[i]).src != package,
    ensures
        !imports_from(imports, package, k),
    decreases k,
{
    if k > 0 {
        lemma_no_import_from(imports, package, k - 1);
    }
}

/// Whether a range lies within a span.
pub open spec fn within(range: Range, span: Span) -> bool {
    span.lo <= range.start && range.end <= span.hi
}

/// Whether every binding of the pass lies within the span.
pub open spec fn binds_within(pass: PassView, span: Span) -> bool {
    forall|i: int| 0 <= i < pass.binds.len() ==> within((#[trigger] pass.binds[i]).range, span)
}

/// A finding that lies within the span leaves the bindings within it.
proof fn lemma_found_within(pass: PassView, found: Found, span: Span)
    requires
        binds_within(pass, span),
        found matches Found::Declares(_, bind) ==> within(bind.range, span),
        found matches Found::Refers(bind) ==> within(bind.range, span),
    ensures
        binds_within(with_found(pass, found), span),
{
    let after = with_found(pass, found);
    assert forall|i: int| 0 <= i < after.binds.len() implies within((#[trigger] after.binds[i]).range, span) by {
        if i < pass.binds.len() {
            assert(after.binds[i] == pass.binds[i]);
        }
    }
}

proof fn lemma_constructions_within(
    pass: PassView,
    imports: Seq<ImportDeclView>,
    checker: TypeChecker,
    constructions: Seq<NewExpr>,
    span: Span,
    k: int,
)
    requires
        k <= constructions.len(),
        binds_within(pass, span),
        forall|i: int| 0 <= i < constructions.len() ==> within((#[trigger] constructions[i]).range, span),
    ensures
        binds_within(after_constructions(pass, imports, checker, constructions, k), span),
    decreases k,
{
    if k > 0 {
        lemma_constructions_within(pass, imports, checker, constructions, span, k - 1);
        lemma_found_within(
            after_constructions(pass, imports, checker, constructions, k - 1),
            declaration(imports, checker, constructions[k - 1]),
            span,
        );
    }
}

proof fn lemma_static_calls_within(
    pass: PassView,
    imports: Seq<ImportDeclView>,
    checker: TypeChecker,
    calls: Seq<StaticCall>,
    span: Span,
    k: int,
)
    requires
        k <= calls.len(),
        binds_within(pass, span),
        forall|i: int| 0 <= i < calls.len() ==> within((#[trigger] calls[i]).range, span),
    ensures
        binds_within(after_static_calls(pass, imports, checker, calls, k), span),
    decreases k,
{
    if k > 0 {
        lemma_static_calls_within(pass, imports, checker, calls, span, k - 1);
        lemma_found_within(
            after_static_calls(pass, imports, checker, calls, k - 1),
            reference(imports, checker, calls[k - 1]),
            span,
        );
    }
}

/// Every binding lies where the expression lies that it comes from: where
/// the expressions of a module lie within the module's span, so do the
/// bindings that looking at the module adds.
pub proof fn lemma_binds_lie_within_module(
    pass: PassView,
    imports: Seq<ImportDeclView>,
    checker: TypeChecker,
    exprs: ModuleExprs,
    span: Span,
)
    requires
        binds_within(pass, span),
        forall|i: int|
            0 <= i < exprs.constructions@.len() ==> within((#[trigger] exprs.constructions@[i]).range, span),
        forall|i: int|
            0 <= i < exprs.static_calls@.len() ==> within((#[trigger] exprs.static_calls@[i]).range, span),
    ensures
        binds_within(after_scan(pass, imports, checker, exprs), span),
{
    if is_interesting(imports) {
        lemma_constructions_within(
            pass,
            imports,
            checker,
            exprs.constructions@,
            span,
            exprs.constructions@.len() as int,
        );
        lemma_static_calls_within(
            after_constructions(
                pass,
                imports,
                checker,
                exprs.constructions@,
                exprs.constructions@.len() as int,
            ),
            imports,
            checker,
            exprs.static_calls@,
            span,
            exprs.static_calls@.len() as int,
        );
    }
}

} // verus!
