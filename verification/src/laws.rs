//! Laws of the export analysis, stated and proved over the statement-level
//! model of [`crate::analysis`].
//!
//! Each public proof function here states one guarantee of the analyzer for
//! every program, not just for the concrete inputs the tests exercise.
use vstd::prelude::*;

verus! {

use crate::analysis::AnalysisError;
use crate::analysis::StmtView;
use crate::analysis::ExportItemView;
use crate::analysis::analyze;
use crate::analysis::exports_spec;
use crate::analysis::is_export_stmt;
use crate::analysis::lookup_func;
use crate::analysis::lookup_func_upto;
use crate::analysis::parse_program;
use crate::analysis::resolve_item;
use crate::analysis::resolve_items;
use crate::analysis::step;
use crate::analysis::validate_emit;
use crate::analysis::walk;

// ---------------------------------------------------------------------------
// Programs without exports
// ---------------------------------------------------------------------------

proof fn lemma_walk_no_exports(ss: Seq<StmtView>, ctx: Seq<StmtView>, k: int)
    requires
        forall|m: int| 0 <= m < ss.len() ==> !is_export_stmt(#[trigger] ss[m]),
    ensures
        walk(ss, ctx, k) == Ok::<Seq<Seq<char>>, AnalysisError>(Seq::empty()),
    decreases ss.len() - k,
{
    if k < 0 || k >= ss.len() {
    } else {
        lemma_walk_no_exports(ss, ctx, k + 1);
        assert(step(ss[k], ctx) == Ok::<Seq<Seq<char>>, AnalysisError>(Seq::empty()));
        assert(Seq::<Seq<char>>::empty() + Seq::<Seq<char>>::empty() =~= Seq::<
            Seq<char>,
        >::empty());
    }
}

/// A program with no export-causing statement exports nothing.
pub proof fn lemma_no_export_statements(ss: Seq<StmtView>)
    requires
        forall|m: int| 0 <= m < ss.len() ==> !is_export_stmt(#[trigger] ss[m]),
    ensures
        analyze(ss) == Ok::<Seq<Seq<char>>, AnalysisError>(Seq::empty()),
{
    lemma_walk_no_exports(ss, ss, 0);
}

/// A source text whose statements contain no export exports nothing.
pub proof fn lemma_source_without_exports(text: Seq<char>, ss: Seq<StmtView>)
    requires
        parse_program(text) == Some(ss),
        forall|m: int| 0 <= m < ss.len() ==> !is_export_stmt(#[trigger] ss[m]),
    ensures
        exports_spec(text) == Ok::<Seq<Seq<char>>, AnalysisError>(Seq::empty()),
{
    lemma_no_export_statements(ss);
}

// ---------------------------------------------------------------------------
// Direct zero-parameter exports
// ---------------------------------------------------------------------------

/// The names of the direct function exports, in declaration order.
pub open spec fn direct_export_names(ss: Seq<StmtView>, k: int) -> Seq<Seq<char>>
    decreases ss.len() - k,
{
    if k < 0 || k >= ss.len() {
        Seq::empty()
    } else {
        let rest = direct_export_names(ss, k + 1);
        match ss[k] {
            StmtView::ExportFunc { name, params, generator } => seq![name] + rest,
            _ => rest,
        }
    }
}

proof fn lemma_walk_direct(ss: Seq<StmtView>, ctx: Seq<StmtView>, k: int)
    requires
        forall|m: int|
            0 <= m < ss.len() && is_export_stmt(#[trigger] ss[m]) ==> (ss[m] matches
                StmtView::ExportFunc { name, params, generator } && params == 0 && generator
                == false),
    ensures
        walk(ss, ctx, k) == Ok::<Seq<Seq<char>>, AnalysisError>(direct_export_names(ss, k)),
    decreases ss.len() - k,
{
    if k < 0 || k >= ss.len() {
    } else {
        lemma_walk_direct(ss, ctx, k + 1);
        if is_export_stmt(ss[k]) {
        } else {
            assert(step(ss[k], ctx) == Ok::<Seq<Seq<char>>, AnalysisError>(Seq::empty()));
            assert(Seq::<Seq<char>>::empty() + direct_export_names(ss, k + 1)
                =~= direct_export_names(ss, k + 1));
        }
    }
}

/// A program whose only export-causing statements are direct exports of
/// zero-parameter, non-generator functions exports exactly those names, in
/// declaration order, however many there are.
pub proof fn lemma_direct_zero_param_exports(ss: Seq<StmtView>)
    requires
        forall|m: int|
            0 <= m < ss.len() && is_export_stmt(#[trigger] ss[m]) ==> (ss[m] matches
                StmtView::ExportFunc { name, params, generator } && params == 0 && generator
                == false),
    ensures
        analyze(ss) == Ok::<Seq<Seq<char>>, AnalysisError>(direct_export_names(ss, 0)),
{
    lemma_walk_direct(ss, ss, 0);
}

// ---------------------------------------------------------------------------
// Violations: parameters and generators
// ---------------------------------------------------------------------------

/// A direct export of a function with parameters contributes the
/// parameters-error kind.
pub proof fn lemma_step_param_direct(
    name: Seq<char>,
    params: int,
    generator: bool,
    ctx: Seq<StmtView>,
)
    requires
        params > 0,
    ensures
        step(StmtView::ExportFunc { name, params, generator }, ctx) == Err::<
            Seq<Seq<char>>,
            AnalysisError,
        >(AnalysisError::ExportHasParameters),
{
}

/// A callable default export with parameters contributes the
/// parameters-error kind.
pub proof fn lemma_step_param_default(params: int, generator: bool, ctx: Seq<StmtView>)
    requires
        params > 0,
    ensures
        step(StmtView::ExportDefault { callable: true, params, generator }, ctx) == Err::<
            Seq<Seq<char>>,
            AnalysisError,
        >(AnalysisError::ExportHasParameters),
{
}

/// A named-export-list entry resolving to a function with parameters
/// contributes the parameters-error kind.
pub proof fn lemma_item_param(it: ExportItemView, ctx: Seq<StmtView>, params: int, generator: bool)
    requires
        lookup_func(ctx, it.local) == Some((params, generator)),
        params > 0,
    ensures
        resolve_item(it, ctx) == Err::<Seq<Seq<char>>, AnalysisError>(
            AnalysisError::ExportHasParameters,
        ),
{
}

/// A direct export of a zero-parameter generator contributes the
/// generator-error kind.
pub proof fn lemma_step_generator_direct(name: Seq<char>, ctx: Seq<StmtView>)
    ensures
        step(StmtView::ExportFunc { name, params: 0, generator: true }, ctx) == Err::<
            Seq<Seq<char>>,
            AnalysisError,
        >(AnalysisError::ExportIsGenerator),
{
}

/// A callable default export that is a zero-parameter generator contributes
/// the generator-error kind.
pub proof fn lemma_step_generator_default(ctx: Seq<StmtView>)
    ensures
        step(StmtView::ExportDefault { callable: true, params: 0, generator: true }, ctx) == Err::<
            Seq<Seq<char>>,
            AnalysisError,
        >(AnalysisError::ExportIsGenerator),
{
}

/// A named-export-list entry resolving to a zero-parameter generator
/// contributes the generator-error kind.
pub proof fn lemma_item_generator(it: ExportItemView, ctx: Seq<StmtView>)
    requires
        lookup_func(ctx, it.local) == Some((0int, true)),
    ensures
        resolve_item(it, ctx) == Err::<Seq<Seq<char>>, AnalysisError>(
            AnalysisError::ExportIsGenerator,
        ),
{
}

proof fn lemma_walk_uniform_violation(
    ss: Seq<StmtView>,
    ctx: Seq<StmtView>,
    k: int,
    e: AnalysisError,
)
    requires
        0 <= k,
        exists|m: int| k <= m < ss.len() && (#[trigger] step(ss[m], ctx)) is Err,
        forall|m: int|
            0 <= m < ss.len() && (#[trigger] step(ss[m], ctx)) is Err ==> step(ss[m], ctx) == Err::<
                Seq<Seq<char>>,
                AnalysisError,
            >(e),
    ensures
        walk(ss, ctx, k) == Err::<Seq<Seq<char>>, AnalysisError>(e),
    decreases ss.len() - k,
{
    let m0 = choose|m: int| k <= m < ss.len() && (#[trigger] step(ss[m], ctx)) is Err;
    if step(ss[k], ctx) is Err {
        assert(step(ss[k], ctx) == Err::<Seq<Seq<char>>, AnalysisError>(e));
    } else {
        assert(m0 != k);
        assert(k + 1 <= m0 < ss.len() && step(ss[m0], ctx) is Err);
        lemma_walk_uniform_violation(ss, ctx, k + 1, e);
    }
}

/// A program in which some export-causing statement violates a shape rule,
/// and every violating statement violates with the same kind, fails with
/// exactly that kind, whatever the export mechanism of each violation.
pub proof fn lemma_uniform_violation(ss: Seq<StmtView>, e: AnalysisError)
    requires
        exists|m: int| 0 <= m < ss.len() && (#[trigger] step(ss[m], ss)) is Err,
        forall|m: int|
            0 <= m < ss.len() && (#[trigger] step(ss[m], ss)) is Err ==> step(ss[m], ss) == Err::<
                Seq<Seq<char>>,
                AnalysisError,
            >(e),
    ensures
        analyze(ss) == Err::<Seq<Seq<char>>, AnalysisError>(e),
{
    lemma_walk_uniform_violation(ss, ss, 0, e);
}

proof fn lemma_walk_ok_all_clean(ss: Seq<StmtView>, ctx: Seq<StmtView>, k: int)
    requires
        0 <= k,
        walk(ss, ctx, k) is Ok,
    ensures
        forall|m: int| k <= m < ss.len() ==> (#[trigger] step(ss[m], ctx)) is Ok,
    decreases ss.len() - k,
{
    if k >= ss.len() {
    } else {
        lemma_walk_ok_all_clean(ss, ctx, k + 1);
    }
}

/// An analysis that succeeds saw no violation at all: every export-causing
/// statement contributed cleanly, whatever its mechanism.  Contrapositively,
/// any export of a parameterized or generator function makes the whole
/// analysis fail.
pub proof fn lemma_success_means_all_exports_valid(ss: Seq<StmtView>)
    requires
        analyze(ss) is Ok,
    ensures
        forall|m: int| 0 <= m < ss.len() ==> (#[trigger] step(ss[m], ss)) is Ok,
{
    lemma_walk_ok_all_clean(ss, ss, 0);
}

/// A source text outside the grammar fails with the invalid-syntax kind, and
/// with no other.
pub proof fn lemma_invalid_syntax(text: Seq<char>)
    ensures
        parse_program(text) is None <==> exports_spec(text) == Err::<
            Seq<Seq<char>>,
            AnalysisError,
        >(AnalysisError::InvalidSyntax),
{
    if parse_program(text) is Some {
        let ss = parse_program(text)->Some_0;
        if analyze(ss) is Err {
            lemma_analyze_error_kinds(ss, ss, 0);
        }
    }
}

proof fn lemma_analyze_error_kinds(ss: Seq<StmtView>, ctx: Seq<StmtView>, k: int)
    requires
        0 <= k,
    ensures
        walk(ss, ctx, k) != Err::<Seq<Seq<char>>, AnalysisError>(AnalysisError::InvalidSyntax),
    decreases ss.len() - k,
{
    if k >= ss.len() {
    } else {
        lemma_step_error_kinds(ss[k], ctx);
        lemma_analyze_error_kinds(ss, ctx, k + 1);
    }
}

proof fn lemma_resolve_items_error_kinds(items: Seq<ExportItemView>, ctx: Seq<StmtView>, k: int)
    requires
        0 <= k,
    ensures
        resolve_items(items, k, ctx) != Err::<Seq<Seq<char>>, AnalysisError>(
            AnalysisError::InvalidSyntax,
        ),
    decreases items.len() - k,
{
    if k >= items.len() {
    } else {
        lemma_resolve_items_error_kinds(items, ctx, k + 1);
    }
}

proof fn lemma_step_error_kinds(st: StmtView, ctx: Seq<StmtView>)
    ensures
        step(st, ctx) != Err::<Seq<Seq<char>>, AnalysisError>(AnalysisError::InvalidSyntax),
{
    match st {
        StmtView::ExportList { items } => {
            lemma_resolve_items_error_kinds(items, ctx, 0);
        },
        _ => {},
    }
}

// ---------------------------------------------------------------------------
// Named export lists: dropping and renaming
// ---------------------------------------------------------------------------

/// A named-export-list entry whose local name is not bound to a function
/// declaration contributes no name and no error, whatever else that binding
/// is.
pub proof fn lemma_nonfunction_item_dropped(it: ExportItemView, ctx: Seq<StmtView>)
    requires
        lookup_func(ctx, it.local) is None,
    ensures
        resolve_item(it, ctx) == Ok::<Seq<Seq<char>>, AnalysisError>(Seq::empty()),
{
}

proof fn lemma_items_align(
    is1: Seq<ExportItemView>,
    is2: Seq<ExportItemView>,
    ctx: Seq<StmtView>,
    k1: int,
    k2: int,
)
    requires
        0 <= k1 <= is1.len(),
        0 <= k2 <= is2.len(),
        is1.skip(k1) == is2.skip(k2),
    ensures
        resolve_items(is1, k1, ctx) == resolve_items(is2, k2, ctx),
    decreases is1.len() - k1,
{
    if k1 >= is1.len() {
        assert(is1.skip(k1).len() == 0);
        assert(k2 >= is2.len());
    } else {
        assert(is1[k1] == is1.skip(k1)[0]);
        assert(is2.skip(k2).len() > 0);
        assert(k2 < is2.len());
        assert(is2[k2] == is2.skip(k2)[0]);
        assert(is1.skip(k1 + 1) =~= is2.skip(k2 + 1)) by {
            assert(forall|m: int|
                0 <= m < is1.skip(k1 + 1).len() ==> (#[trigger] is1.skip(k1 + 1)[m]) == is1.skip(
                    k1,
                )[m + 1] && is2.skip(k2 + 1)[m] == is2.skip(k2)[m + 1]);
        }
        lemma_items_align(is1, is2, ctx, k1 + 1, k2 + 1);
    }
}

proof fn lemma_items_remove_aux(
    items: Seq<ExportItemView>,
    ctx: Seq<StmtView>,
    k: int,
    j: int,
)
    requires
        0 <= k <= j < items.len(),
        lookup_func(ctx, items[j].local) is None,
    ensures
        resolve_items(items, k, ctx) == resolve_items(items.remove(j), k, ctx),
    decreases j - k,
{
    if k == j {
        assert(resolve_item(items[j], ctx) == Ok::<Seq<Seq<char>>, AnalysisError>(Seq::empty()));
        assert(items.skip(j + 1) =~= items.remove(j).skip(j)) by {
            assert(forall|m: int|
                0 <= m < items.skip(j + 1).len() ==> (#[trigger] items.skip(j + 1)[m]) == items[
                    j + 1 + m
                ] && items.remove(j).skip(j)[m] == items.remove(j)[j + m]);
        }
        lemma_items_align(items, items.remove(j), ctx, j + 1, j);
        match resolve_items(items, j + 1, ctx) {
            Ok(rest) => {
                assert(Seq::<Seq<char>>::empty() + rest =~= rest);
            },
            Err(_) => {},
        }
    } else {
        assert(items.remove(j)[k] == items[k]);
        lemma_items_remove_aux(items, ctx, k + 1, j);
    }
}

/// Removing a named-export-list entry whose local name is not bound to a
/// function declaration changes neither the emitted names nor the outcome:
/// the entry never appears in the result and never causes an error.
pub proof fn lemma_nonfunction_entry_removable(
    items: Seq<ExportItemView>,
    ctx: Seq<StmtView>,
    j: int,
)
    requires
        0 <= j < items.len(),
        lookup_func(ctx, items[j].local) is None,
    ensures
        resolve_items(items, 0, ctx) == resolve_items(items.remove(j), 0, ctx),
{
    lemma_items_remove_aux(items, ctx, 0, j);
}

proof fn lemma_lookup_update_list(
    ss: Seq<StmtView>,
    items2: Seq<ExportItemView>,
    k: int,
    name: Seq<char>,
    n: int,
)
    requires
        0 <= k < ss.len(),
        ss[k] is ExportList,
    ensures
        lookup_func_upto(ss.update(k, StmtView::ExportList { items: items2 }), n, name)
            == lookup_func_upto(ss, n, name),
    decreases n,
{
    let ss2 = ss.update(k, StmtView::ExportList { items: items2 });
    if n <= 0 || n > ss.len() {
    } else {
        if n - 1 != k {
            assert(ss2[n - 1] == ss[n - 1]);
        }
        lemma_lookup_update_list(ss, items2, k, name, n - 1);
    }
}

proof fn lemma_step_agree(st: StmtView, ctx1: Seq<StmtView>, ctx2: Seq<StmtView>)
    requires
        forall|name: Seq<char>| #[trigger] lookup_func(ctx1, name) == lookup_func(ctx2, name),
    ensures
        step(st, ctx1) == step(st, ctx2),
{
    match st {
        StmtView::ExportList { items } => {
            lemma_resolve_items_agree(items, ctx1, ctx2, 0);
        },
        _ => {},
    }
}

proof fn lemma_walk_pointwise(
    ss1: Seq<StmtView>,
    ss2: Seq<StmtView>,
    ctx1: Seq<StmtView>,
    ctx2: Seq<StmtView>,
    k: int,
)
    requires
        ss1.len() == ss2.len(),
        forall|m: int|
            0 <= m < ss1.len() ==> step(#[trigger] ss1[m], ctx1) == step(ss2[m], ctx2),
    ensures
        walk(ss1, ctx1, k) == walk(ss2, ctx2, k),
    decreases ss1.len() - k,
{
    if k < 0 || k >= ss1.len() {
    } else {
        lemma_walk_pointwise(ss1, ss2, ctx1, ctx2, k + 1);
    }
}

/// Whole-program form of dropping: removing a named-export-list entry whose
/// local name is not bound to a function declaration changes nothing about
/// the analysis of the whole program — the binding never appears in the
/// export set and never causes an error, whatever else it is.
pub proof fn lemma_nonfunction_listed_binding_inert(
    ss: Seq<StmtView>,
    items: Seq<ExportItemView>,
    k: int,
    j: int,
)
    requires
        0 <= k < ss.len(),
        ss[k] == (StmtView::ExportList { items }),
        0 <= j < items.len(),
        lookup_func(ss, items[j].local) is None,
    ensures
        analyze(ss) == analyze(
            ss.update(k, StmtView::ExportList { items: items.remove(j) }),
        ),
{
    let ss2 = ss.update(k, StmtView::ExportList { items: items.remove(j) });
    assert forall|name: Seq<char>| #[trigger] lookup_func(ss2, name) == lookup_func(
        ss,
        name,
    ) by {
        lemma_lookup_update_list(ss, items.remove(j), k, name, ss.len() as int);
    }
    assert forall|m: int| 0 <= m < ss.len() implies step(#[trigger] ss[m], ss) == step(
        ss2[m],
        ss2,
    ) by {
        if m == k {
            lemma_nonfunction_entry_removable(items, ss, j);
            lemma_resolve_items_agree(items.remove(j), ss, ss2, 0);
            assert(ss2[k] == (StmtView::ExportList { items: items.remove(j) }));
        } else {
            assert(ss2[m] == ss[m]);
            lemma_step_agree(ss[m], ss, ss2);
        }
    }
    lemma_walk_pointwise(ss, ss2, ss, ss2, 0);
}

/// A renamed entry resolving to a valid function is exported under the new
/// name, not the local one.
pub proof fn lemma_renamed_item(it: ExportItemView, ctx: Seq<StmtView>)
    requires
        lookup_func(ctx, it.local) == Some((0int, false)),
    ensures
        resolve_item(it, ctx) == Ok::<Seq<Seq<char>>, AnalysisError>(seq![it.exported]),
{
}

proof fn lemma_resolve_items_contains(
    items: Seq<ExportItemView>,
    ctx: Seq<StmtView>,
    k: int,
    j: int,
    nm: Seq<char>,
)
    requires
        0 <= k <= j < items.len(),
        resolve_items(items, k, ctx) is Ok,
        resolve_item(items[j], ctx) matches Ok(xs) && xs.contains(nm),
    ensures
        resolve_items(items, k, ctx)->Ok_0.contains(nm),
    decreases j - k,
{
    let whole = resolve_items(items, k, ctx)->Ok_0;
    let ns = resolve_item(items[k], ctx)->Ok_0;
    let rest = resolve_items(items, k + 1, ctx)->Ok_0;
    if k == j {
        let i = choose|i: int| 0 <= i < ns.len() && ns[i] == nm;
        assert(whole[i] == nm);
    } else {
        lemma_resolve_items_contains(items, ctx, k + 1, j, nm);
        let i = choose|i: int| 0 <= i < rest.len() && rest[i] == nm;
        assert(whole[ns.len() + i] == nm);
    }
}

proof fn lemma_walk_contains(
    ss: Seq<StmtView>,
    ctx: Seq<StmtView>,
    k: int,
    j: int,
    nm: Seq<char>,
)
    requires
        0 <= k <= j < ss.len(),
        walk(ss, ctx, k) is Ok,
        step(ss[j], ctx) matches Ok(xs) && xs.contains(nm),
    ensures
        walk(ss, ctx, k)->Ok_0.contains(nm),
    decreases j - k,
{
    let whole = walk(ss, ctx, k)->Ok_0;
    let ns = step(ss[k], ctx)->Ok_0;
    let rest = walk(ss, ctx, k + 1)->Ok_0;
    if k == j {
        let i = choose|i: int| 0 <= i < ns.len() && ns[i] == nm;
        assert(whole[i] == nm);
    } else {
        lemma_walk_contains(ss, ctx, k + 1, j, nm);
        let i = choose|i: int| 0 <= i < rest.len() && rest[i] == nm;
        assert(whole[ns.len() + i] == nm);
    }
}

/// Whole-program form of renaming: when a named export list renames a valid
/// zero-parameter, non-generator function and the analysis succeeds, the
/// export set contains the post-rename name.
pub proof fn lemma_renamed_export_in_set(
    ss: Seq<StmtView>,
    items: Seq<ExportItemView>,
    k: int,
    j: int,
)
    requires
        0 <= k < ss.len(),
        ss[k] == (StmtView::ExportList { items }),
        0 <= j < items.len(),
        lookup_func(ss, items[j].local) == Some((0int, false)),
        analyze(ss) is Ok,
    ensures
        analyze(ss)->Ok_0.contains(items[j].exported),
{
    lemma_renamed_item(items[j], ss);
    assert(seq![items[j].exported][0] == items[j].exported);
    assert(seq![items[j].exported].contains(items[j].exported));
    lemma_walk_ok_all_clean(ss, ss, 0);
    assert(step(ss[k], ss) is Ok);
    lemma_resolve_items_contains(items, ss, 0, j, items[j].exported);
    lemma_walk_contains(ss, ss, 0, k, items[j].exported);
}

// ---------------------------------------------------------------------------
// Hoisting-order independence
// ---------------------------------------------------------------------------

/// The export-causing statements of a program, in textual order.
pub open spec fn export_stmts(ss: Seq<StmtView>, k: int) -> Seq<StmtView>
    decreases ss.len() - k,
{
    if k < 0 || k >= ss.len() {
        Seq::empty()
    } else {
        let rest = export_stmts(ss, k + 1);
        if is_export_stmt(ss[k]) {
            seq![ss[k]] + rest
        } else {
            rest
        }
    }
}

proof fn lemma_walk_align(
    es1: Seq<StmtView>,
    es2: Seq<StmtView>,
    ctx: Seq<StmtView>,
    k1: int,
    k2: int,
)
    requires
        0 <= k1 <= es1.len(),
        0 <= k2 <= es2.len(),
        es1.skip(k1) == es2.skip(k2),
    ensures
        walk(es1, ctx, k1) == walk(es2, ctx, k2),
    decreases es1.len() - k1,
{
    if k1 >= es1.len() {
        assert(es1.skip(k1).len() == 0);
        assert(k2 >= es2.len());
    } else {
        assert(es1[k1] == es1.skip(k1)[0]);
        assert(es2.skip(k2).len() > 0);
        assert(k2 < es2.len());
        assert(es2[k2] == es2.skip(k2)[0]);
        assert(es1.skip(k1 + 1) =~= es2.skip(k2 + 1)) by {
            assert(forall|m: int|
                0 <= m < es1.skip(k1 + 1).len() ==> (#[trigger] es1.skip(k1 + 1)[m]) == es1.skip(
                    k1,
                )[m + 1] && es2.skip(k2 + 1)[m] == es2.skip(k2)[m + 1]);
        }
        lemma_walk_align(es1, es2, ctx, k1 + 1, k2 + 1);
    }
}

proof fn lemma_walk_filter(ss: Seq<StmtView>, ctx: Seq<StmtView>, k: int)
    requires
        0 <= k <= ss.len(),
    ensures
        walk(ss, ctx, k) == walk(export_stmts(ss, k), ctx, 0),
    decreases ss.len() - k,
{
    if k >= ss.len() {
    } else {
        lemma_walk_filter(ss, ctx, k + 1);
        let es = export_stmts(ss, k);
        if is_export_stmt(ss[k]) {
            assert(es == seq![ss[k]] + export_stmts(ss, k + 1));
            assert(es[0] == ss[k]);
            assert(es.skip(1) =~= export_stmts(ss, k + 1));
            assert(export_stmts(ss, k + 1).skip(0) =~= export_stmts(ss, k + 1));
            lemma_walk_align(es, export_stmts(ss, k + 1), ctx, 1, 0);
        } else {
            assert(step(ss[k], ctx) == Ok::<Seq<Seq<char>>, AnalysisError>(Seq::empty()));
            assert(es == export_stmts(ss, k + 1));
            match walk(ss, ctx, k + 1) {
                Ok(rest) => {
                    assert(Seq::<Seq<char>>::empty() + rest =~= rest);
                },
                Err(_) => {},
            }
        }
    }
}

proof fn lemma_resolve_items_agree(
    items: Seq<ExportItemView>,
    ctx1: Seq<StmtView>,
    ctx2: Seq<StmtView>,
    k: int,
)
    requires
        forall|name: Seq<char>| #[trigger] lookup_func(ctx1, name) == lookup_func(ctx2, name),
    ensures
        resolve_items(items, k, ctx1) == resolve_items(items, k, ctx2),
    decreases items.len() - k,
{
    if k < 0 || k >= items.len() {
    } else {
        assert(lookup_func(ctx1, items[k].local) == lookup_func(ctx2, items[k].local));
        lemma_resolve_items_agree(items, ctx1, ctx2, k + 1);
    }
}

proof fn lemma_walk_agree(
    es: Seq<StmtView>,
    ctx1: Seq<StmtView>,
    ctx2: Seq<StmtView>,
    k: int,
)
    requires
        forall|name: Seq<char>| #[trigger] lookup_func(ctx1, name) == lookup_func(ctx2, name),
    ensures
        walk(es, ctx1, k) == walk(es, ctx2, k),
    decreases es.len() - k,
{
    if k < 0 || k >= es.len() {
    } else {
        match es[k] {
            StmtView::ExportList { items } => {
                lemma_resolve_items_agree(items, ctx1, ctx2, 0);
            },
            _ => {},
        }
        assert(step(es[k], ctx1) == step(es[k], ctx2));
        lemma_walk_agree(es, ctx1, ctx2, k + 1);
    }
}

/// Hoisting-order independence: two programs with the same export-causing
/// statements in the same order, whose top-level function bindings resolve
/// identically, have the same export set and the same failures — where a
/// function is declared relative to the statements that export it does not
/// matter.
pub proof fn lemma_hoisting_independence(ss1: Seq<StmtView>, ss2: Seq<StmtView>)
    requires
        export_stmts(ss1, 0) == export_stmts(ss2, 0),
        forall|name: Seq<char>| #[trigger] lookup_func(ss1, name) == lookup_func(ss2, name),
    ensures
        analyze(ss1) == analyze(ss2),
{
    lemma_walk_filter(ss1, ss1, 0);
    lemma_walk_agree(export_stmts(ss1, 0), ss1, ss2, 0);
    lemma_walk_filter(ss2, ss2, 0);
}

// ---------------------------------------------------------------------------
// Validation is mechanism-independent
// ---------------------------------------------------------------------------

/// Every export mechanism validates a callable through the same rule:
/// parameters are rejected first, then generator status, and a conforming
/// callable is exported under exactly one name.
pub proof fn lemma_validation_rule(name: Seq<char>, params: int, generator: bool)
    ensures
        params > 0 ==> validate_emit(name, params, generator) == Err::<
            Seq<Seq<char>>,
            AnalysisError,
        >(AnalysisError::ExportHasParameters),
        params <= 0 && generator ==> validate_emit(name, params, generator) == Err::<
            Seq<Seq<char>>,
            AnalysisError,
        >(AnalysisError::ExportIsGenerator),
        params <= 0 && !generator ==> validate_emit(name, params, generator) == Ok::<
            Seq<Seq<char>>,
            AnalysisError,
        >(seq![name]),
{
}

} // verus!

