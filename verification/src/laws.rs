use vstd::prelude::*;
use crate::ast::{FieldGroup, TypeBody, TypeDeclaration, VariantDecl, group_types};
use crate::convert::{
    FactValue, FieldValue, ValueBody, arg_results, convert_spec, eval_plan_spec, field_term_spec,
    lemma_arg_results, oks_of, results_ok, variant_index_from,
};
use crate::errors::{SConvError, SGenError, SFaultSite};
use crate::generate::{SConv, generate_spec, variant_plan, variants_ok, first_bad_variant_from};
use crate::names::snake_of;
use crate::plan::{
    ArgOp, FaultKind, SCtor, SFieldFault, SPlan, field_id_at, first_bad_from, group_ok, plan_spec,
    plan_steps, resolve_spec,
};
use crate::term::STerm;

verus! {

/// The first faulting index scan stays in bounds, passes no fault, and
/// stops on one.
pub proof fn lemma_first_bad_props(ts: Seq<crate::ast::DeclaredType>, i: int)
    requires
        0 <= i <= ts.len(),
    ensures
        i <= first_bad_from(ts, i) <= ts.len(),
        forall|j: int| i <= j < first_bad_from(ts, i) ==> resolve_spec(#[trigger] ts[j]) is Ok,
        first_bad_from(ts, i) < ts.len() ==> resolve_spec(ts[first_bad_from(ts, i)]) is Err,
    decreases ts.len() - i,
{
    if i < ts.len() && !(resolve_spec(ts[i]) is Err) {
        lemma_first_bad_props(ts, i + 1);
    }
}

/// The first matching-variant scan stays in bounds, passes no match, and
/// stops on one.
pub proof fn lemma_variant_index_props(vs: Seq<VariantDecl>, name: Seq<char>, i: int)
    requires
        0 <= i <= vs.len(),
    ensures
        i <= variant_index_from(vs, name, i) <= vs.len(),
        forall|j: int| i <= j < variant_index_from(vs, name, i) ==> (#[trigger] vs[j].name)@
            != name,
        variant_index_from(vs, name, i) < vs.len() ==> vs[variant_index_from(
            vs,
            name,
            i,
        )].name@ == name,
    decreases vs.len() - i,
{
    if i < vs.len() && vs[i].name@ != name {
        lemma_variant_index_props(vs, name, i + 1);
    }
}

/// Every unit-shaped declaration converts, on its (empty) record of fields,
/// to the zero-argument atomic identifier named by the snake-cased type
/// name — it can never fail.
pub proof fn lemma_unit_conversion(fv: FactValue, fields: Seq<FieldValue>)
    requires
        fv.decl.body == TypeBody::StructBody(FieldGroup::Unit),
        fv.body matches ValueBody::RecordValue(fs) && fs@ == fields,
        fields.len() == 0,
    ensures
        generate_spec(fv.decl) is Ok,
        convert_spec(fv) == Ok::<STerm, SConvError>(STerm::SId(snake_of(fv.decl.name@), true)),
{
    let d = fv.decl;
    let pred = snake_of(d.name@);
    let plan = SPlan { steps: Seq::empty(), ctor: SCtor::SIdCtor(pred, true) };
    assert(plan_spec(FieldGroup::Unit, pred) == Ok::<SPlan, SFieldFault>(plan));
    assert(generate_spec(d) is Ok);
    let rs = arg_results(plan.steps, fields, d.name@);
    assert(rs.len() == 0);
    assert(results_ok(rs));
    assert(eval_plan_spec(FieldGroup::Unit, plan, fields, d.name@, None) == Ok::<
        STerm,
        SConvError,
    >(STerm::SId(pred, true)));
}

/// When a plan's evaluation yields a function term, the term holds exactly
/// one argument per runtime field, and the argument at each position is the
/// term that position's field contributed: declared order is kept.
pub proof fn lemma_args_in_declared_order(
    g: FieldGroup,
    plan: SPlan,
    fields: Seq<FieldValue>,
    tn: Seq<char>,
    var: Option<Seq<char>>,
    name: Seq<char>,
    args: Seq<STerm>,
    pos: bool,
)
    requires
        eval_plan_spec(g, plan, fields, tn, var) == Ok::<STerm, SConvError>(
            STerm::SFunction(name, args, pos),
        ),
    ensures
        args.len() == fields.len(),
        fields.len() == plan.steps.len(),
        forall|i: int|
            0 <= i < fields.len() ==> field_term_spec(plan.steps[i], #[trigger] fields[i], tn)
                is Ok,
        forall|i: int|
            0 <= i < fields.len() ==> args[i] == field_term_spec(
                plan.steps[i],
                #[trigger] fields[i],
                tn,
            )->Ok_0,
{
    assert(fields.len() == plan.steps.len());
    let rs = arg_results(plan.steps, fields, tn);
    lemma_arg_results(plan.steps, fields, tn);
    assert(results_ok(rs));
    assert(args == oks_of(rs));
    assert forall|i: int| 0 <= i < fields.len() implies args[i] == field_term_spec(
        plan.steps[i],
        #[trigger] fields[i],
        tn,
    )->Ok_0 && field_term_spec(plan.steps[i], fields[i], tn) is Ok by {
        assert(rs[i] is Ok);
        assert(args[i] == rs[i]->Ok_0);
    }
}

/// Dispatch selects the declared variant whose name is the value's active
/// variant: the whole conversion equals that arm's plan evaluated on the
/// variant's fields.
pub proof fn lemma_dispatch_selects(
    fv: FactValue,
    vs: Seq<VariantDecl>,
    variant: Seq<char>,
    fields: Seq<FieldValue>,
    k: int,
)
    requires
        fv.decl.body matches TypeBody::EnumBody(dvs) && dvs@ == vs,
        generate_spec(fv.decl) is Ok,
        fv.body matches ValueBody::CaseValue { variant: va, fields: fe } && va@ == variant && fe@
            == fields,
        0 <= k < vs.len(),
        vs[k].name@ == variant,
        forall|j: int| 0 <= j < k ==> (#[trigger] vs[j].name)@ != variant,
    ensures
        variant_plan(vs[k]) is Ok,
        convert_spec(fv) == eval_plan_spec(
            vs[k].group,
            variant_plan(vs[k])->Ok_0,
            fields,
            fv.decl.name@,
            Some(variant),
        ),
{
    lemma_variant_index_props(vs, variant, 0);
    let idx = variant_index_from(vs, variant, 0);
    assert(idx <= k);
    assert(idx == k) by {
        if idx < k {
            assert(vs[idx].name@ != variant);
            assert(vs[idx].name@ == variant);
        }
    }
    assert(variants_ok(vs));
}

/// Dispatch is closed: a value whose active variant is none of the declared
/// ones never yields a term; it fails with the internal unknown-variant
/// defect.
pub proof fn lemma_dispatch_unknown(
    fv: FactValue,
    vs: Seq<VariantDecl>,
    variant: Seq<char>,
)
    requires
        fv.decl.body matches TypeBody::EnumBody(dvs) && dvs@ == vs,
        generate_spec(fv.decl) is Ok,
        fv.body matches ValueBody::CaseValue { variant: va, .. } && va@ == variant,
        forall|j: int| 0 <= j < vs.len() ==> (#[trigger] vs[j].name)@ != variant,
    ensures
        convert_spec(fv) == Err::<STerm, SConvError>(
            SConvError::SUnknownVariant { decl_name: fv.decl.name@, variant },
        ),
{
    lemma_variant_index_props(vs, variant, 0);
    let idx = variant_index_from(vs, variant, 0);
    assert(idx == vs.len()) by {
        if idx < vs.len() {
            assert(vs[idx].name@ != variant);
            assert(vs[idx].name@ == variant);
        }
    }
}

/// A struct field declared as an integer wider than 32 bits aborts
/// generation — and with it every conversion of a value of that type,
/// whatever the runtime value holds. When it is the first faulting field,
/// the error is the width overflow naming it.
pub proof fn lemma_width_overflow(d: TypeDeclaration, g: FieldGroup, i: int)
    requires
        d.body == TypeBody::StructBody(g),
        0 <= i < group_types(g).len(),
        group_types(g)[i] matches crate::ast::DeclaredType::Primitive { bits, .. } && bits > 32,
    ensures
        generate_spec(d) is Err,
        forall|fv: FactValue|
            fv.decl == d ==> #[trigger] convert_spec(fv) == Err::<STerm, SConvError>(
                SConvError::SNotGenerated(generate_spec(d)->Err_0),
            ),
        (forall|j: int| 0 <= j < i ==> resolve_spec(#[trigger] group_types(g)[j]) is Ok)
            ==> generate_spec(d) == Err::<SConv, SGenError>(
            SGenError::SWidthOverflow(
                SFaultSite { decl_name: d.name@, variant: None, field: field_id_at(g, i) },
            ),
        ),
{
    let ts = group_types(g);
    assert(resolve_spec(ts[i]) == Err::<ArgOp, FaultKind>(FaultKind::WidthFault));
    assert(!group_ok(g));
    assert(!(g is Unit)) by {
        if g is Unit {
            assert(ts.len() == 0);
        }
    }
    assert(plan_spec(g, snake_of(d.name@)) is Err);
    assert(generate_spec(d) is Err);
    if forall|j: int| 0 <= j < i ==> resolve_spec(#[trigger] ts[j]) is Ok {
        lemma_first_bad_props(ts, 0);
        let idx = first_bad_from(ts, 0);
        assert(idx <= i);
        assert(idx == i) by {
            if idx < i {
                assert(resolve_spec(ts[idx]) is Ok);
                assert(resolve_spec(ts[idx]) is Err);
            }
        }
    }
}

/// Stripping one layer of reference indirection never changes how a field
/// resolves: a field typed as a reference to some type encodes exactly as
/// the type itself.
pub proof fn lemma_reference_transparent(t: crate::ast::DeclaredType)
    ensures
        resolve_spec(crate::ast::DeclaredType::ReferenceType(Box::new(t))) == resolve_spec(t),
{
}

/// The faulting-field scan is the same over two groups whose fields resolve
/// alike.
pub proof fn lemma_first_bad_congruence(
    ts1: Seq<crate::ast::DeclaredType>,
    ts2: Seq<crate::ast::DeclaredType>,
    i: int,
)
    requires
        0 <= i <= ts1.len(),
        ts1.len() == ts2.len(),
        forall|j: int|
            0 <= j < ts1.len() ==> resolve_spec(#[trigger] ts1[j]) == resolve_spec(ts2[j]),
    ensures
        first_bad_from(ts1, i) == first_bad_from(ts2, i),
    decreases ts1.len() - i,
{
    if i < ts1.len() && !(resolve_spec(ts1[i]) is Err) {
        lemma_first_bad_congruence(ts1, ts2, i + 1);
    }
}

/// Two field groups whose fields resolve alike — for instance, one wrapping
/// some field types in references — yield the same plan, or the same fault,
/// provided they also name their fields alike.
pub proof fn lemma_reference_transparent_group(g1: FieldGroup, g2: FieldGroup, pred: Seq<char>)
    requires
        g1 is Unit <==> g2 is Unit,
        group_types(g1).len() == group_types(g2).len(),
        forall|i: int|
            0 <= i < group_types(g1).len() ==> resolve_spec(#[trigger] group_types(g1)[i])
                == resolve_spec(group_types(g2)[i]),
        forall|i: int|
            0 <= i < group_types(g1).len() ==> field_id_at(g1, i) == #[trigger] field_id_at(g2, i),
    ensures
        plan_spec(g1, pred) == plan_spec(g2, pred),
{
    let ts1 = group_types(g1);
    let ts2 = group_types(g2);
    if g1 is Unit {
    } else {
        assert(group_ok(g1) ==> group_ok(g2)) by {
            if group_ok(g1) {
                assert forall|i: int| 0 <= i < ts2.len() implies resolve_spec(
                    #[trigger] ts2[i],
                ) is Ok by {
                    assert(resolve_spec(ts1[i]) is Ok);
                }
            }
        }
        assert(group_ok(g2) ==> group_ok(g1)) by {
            if group_ok(g2) {
                assert forall|i: int| 0 <= i < ts1.len() implies resolve_spec(
                    #[trigger] ts1[i],
                ) is Ok by {
                    assert(resolve_spec(ts2[i]) is Ok);
                }
            }
        }
        assert(group_ok(g1) <==> group_ok(g2));
        if group_ok(g1) {
            assert(plan_steps(ts1) =~= plan_steps(ts2));
        } else {
            lemma_first_bad_congruence(ts1, ts2, 0);
            lemma_first_bad_props(ts1, 0);
            let k = first_bad_from(ts1, 0);
            assert(resolve_spec(ts1[k]) == resolve_spec(ts2[k]));
        }
    }
}

/// A nested field's argument is exactly the term the nested value's own
/// conversion yields in isolation.
pub proof fn lemma_nested_subterm(
    g: FieldGroup,
    plan: SPlan,
    fields: Seq<FieldValue>,
    tn: Seq<char>,
    var: Option<Seq<char>>,
    name: Seq<char>,
    args: Seq<STerm>,
    pos: bool,
    j: int,
    sub: FactValue,
)
    requires
        eval_plan_spec(g, plan, fields, tn, var) == Ok::<STerm, SConvError>(
            STerm::SFunction(name, args, pos),
        ),
        0 <= j < fields.len(),
        plan.steps[j] == ArgOp::Nested,
        fields[j] matches FieldValue::NestedValue(b) && *b == sub,
    ensures
        convert_spec(sub) == Ok::<STerm, SConvError>(args[j]),
{
    lemma_args_in_declared_order(g, plan, fields, tn, var, name, args, pos);
    assert(field_term_spec(plan.steps[j], fields[j], tn) == convert_spec(sub));
}

/// A union-kind declaration is rejected outright: generation fails with the
/// unsupported-kind error before any term construction is considered, and
/// every conversion of a value of that type fails with it.
pub proof fn lemma_union_rejected(d: TypeDeclaration)
    requires
        d.body == TypeBody::UnionBody,
    ensures
        generate_spec(d) == Err::<SConv, SGenError>(SGenError::SUnsupportedKind(d.name@)),
        forall|fv: FactValue|
            fv.decl == d ==> #[trigger] convert_spec(fv) == Err::<STerm, SConvError>(
                SConvError::SNotGenerated(SGenError::SUnsupportedKind(d.name@)),
            ),
{
}


/// A faulting field pins the plan's error: the first faulting field, in
/// declared order, names it.
pub proof fn lemma_plan_fault(g: FieldGroup, pred: Seq<char>, i: int, kind: FaultKind)
    requires
        0 <= i < group_types(g).len(),
        resolve_spec(group_types(g)[i]) == Err::<ArgOp, FaultKind>(kind),
        forall|j: int| 0 <= j < i ==> resolve_spec(#[trigger] group_types(g)[j]) is Ok,
    ensures
        plan_spec(g, pred) == Err::<SPlan, SFieldFault>(
            (SFieldFault { field: field_id_at(g, i), kind }),
        ),
{
    let ts = group_types(g);
    assert(!group_ok(g));
    assert(!(g is Unit)) by {
        if g is Unit {
            assert(ts.len() == 0);
        }
    }
    lemma_first_bad_props(ts, 0);
    let idx = first_bad_from(ts, 0);
    assert(idx == i) by {
        if idx < i {
            assert(resolve_spec(ts[idx]) is Ok);
            assert(resolve_spec(ts[idx]) is Err);
        }
        if idx > i {
            assert(resolve_spec(ts[i]) is Ok);
        }
    }
}

/// The first faulting-variant scan stays in bounds, passes no fault, and
/// stops on one.
pub proof fn lemma_first_bad_variant_props(vs: Seq<VariantDecl>, i: int)
    requires
        0 <= i <= vs.len(),
    ensures
        i <= first_bad_variant_from(vs, i) <= vs.len(),
        forall|j: int|
            i <= j < first_bad_variant_from(vs, i) ==> variant_plan(#[trigger] vs[j]) is Ok,
        first_bad_variant_from(vs, i) < vs.len() ==> variant_plan(
            vs[first_bad_variant_from(vs, i)],
        ) is Err,
    decreases vs.len() - i,
{
    if i < vs.len() && !(variant_plan(vs[i]) is Err) {
        lemma_first_bad_variant_props(vs, i + 1);
    }
}

/// An enum field declared as an integer wider than 32 bits aborts
/// generation just as a struct field does: when its variant is the first
/// faulting one and the field the first faulting field of that variant, the
/// error is the width overflow naming both.
pub proof fn lemma_width_overflow_in_variant(
    d: TypeDeclaration,
    vs: Seq<VariantDecl>,
    k: int,
    i: int,
)
    requires
        d.body matches TypeBody::EnumBody(dvs) && dvs@ == vs,
        0 <= k < vs.len(),
        forall|j: int| 0 <= j < k ==> variant_plan(#[trigger] vs[j]) is Ok,
        0 <= i < group_types(vs[k].group).len(),
        group_types(vs[k].group)[i] matches crate::ast::DeclaredType::Primitive { bits, .. }
            && bits > 32,
        forall|j: int|
            0 <= j < i ==> resolve_spec(#[trigger] group_types(vs[k].group)[j]) is Ok,
    ensures
        generate_spec(d) == Err::<SConv, SGenError>(
            SGenError::SWidthOverflow(
                (SFaultSite {
                    decl_name: d.name@,
                    variant: Some(vs[k].name@),
                    field: field_id_at(vs[k].group, i),
                }),
            ),
        ),
{
    let g = vs[k].group;
    assert(resolve_spec(group_types(g)[i]) == Err::<ArgOp, FaultKind>(FaultKind::WidthFault));
    lemma_plan_fault(g, snake_of(vs[k].name@), i, FaultKind::WidthFault);
    assert(variant_plan(vs[k]) is Err);
    assert(!variants_ok(vs));
    lemma_first_bad_variant_props(vs, 0);
    let idx = first_bad_variant_from(vs, 0);
    assert(idx == k) by {
        if idx < k {
            assert(variant_plan(vs[idx]) is Ok);
            assert(variant_plan(vs[idx]) is Err);
        }
        if idx > k {
            assert(variant_plan(vs[k]) is Ok);
        }
    }
}


/// A synthesized plan's terminal constructor always carries positive
/// polarity: this generator only ever emits facts.
pub proof fn lemma_plan_positive(g: FieldGroup, pred: Seq<char>, p: SPlan)
    requires
        plan_spec(g, pred) == Ok::<SPlan, SFieldFault>(p),
    ensures
        (p.ctor matches SCtor::SIdCtor(_, pos) && pos) || (p.ctor
            matches SCtor::SFunctionCtor(_, pos) && pos),
{
}

/// Every term a conversion yields is a positive atom or a positive
/// function term.
pub proof fn lemma_positive_polarity(fv: FactValue, t: STerm)
    requires
        convert_spec(fv) == Ok::<STerm, SConvError>(t),
    ensures
        (t matches STerm::SId(_, pos) && pos) || (t matches STerm::SFunction(_, _, pos) && pos),
{
    assert(generate_spec(fv.decl) is Ok);
    match fv.decl.body {
        TypeBody::StructBody(g) => {
            assert(plan_spec(g, snake_of(fv.decl.name@)) is Ok);
            let p = plan_spec(g, snake_of(fv.decl.name@))->Ok_0;
            lemma_plan_positive(g, snake_of(fv.decl.name@), p);
        },
        TypeBody::EnumBody(vs) => {
            match fv.body {
                ValueBody::CaseValue { variant, .. } => {
                    assert(variants_ok(vs@));
                    lemma_variant_index_props(vs@, variant@, 0);
                    let k = variant_index_from(vs@, variant@, 0);
                    if k < vs@.len() {
                        assert(variant_plan(vs@[k]) is Ok);
                        let p = variant_plan(vs@[k])->Ok_0;
                        assert(plan_spec(vs@[k].group, snake_of(vs@[k].name@)) == Ok::<
                            SPlan,
                            SFieldFault,
                        >(p));
                        lemma_plan_positive(vs@[k].group, snake_of(vs@[k].name@), p);
                    }
                },
                ValueBody::RecordValue(_) => {},
            }
        },
        TypeBody::UnionBody => {},
    }
}

} // verus!
