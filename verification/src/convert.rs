use vstd::prelude::*;
use vstd::utf8::is_ascii_chars;
use crate::ast::{FieldGroup, TypeBody, TypeDeclaration, VariantDecl, group_types};
use crate::errors::{ConversionError, SConvError};
use crate::generate::{
    ConversionBody, arm_views, arms_spec, generate, generate_spec, variant_plan, variants_ok,
};
use crate::names::snake_of;
use crate::plan::{
    ArgOp, EncodingPlan, FieldId, PlanCtor, SCtor, SFieldFault, SPlan, field_id_at, plan_spec,
};
use vstd::pervasive::unreached;
use crate::term::{STerm, Term, create_function, create_id, create_number, create_string,
    lemma_term_views, term_view, term_views};

verus! {

/// A runtime value of one field: a number (booleans arrive as 0 or 1), a
/// text, or a nested value converted by its own conversion.
#[derive(Debug)]
pub enum FieldValue {
    NumValue(i32),
    TextValue(String),
    NestedValue(Box<FactValue>),
}

/// The runtime shape of a value: a record's fields, or an enum value's
/// active variant with that variant's fields, in declared order.
#[derive(Debug)]
pub enum ValueBody {
    RecordValue(Vec<FieldValue>),
    CaseValue { variant: String, fields: Vec<FieldValue> },
}

/// A self-describing runtime value: the declaration of its type together
/// with the value's shape.
#[derive(Debug)]
pub struct FactValue {
    pub decl: TypeDeclaration,
    pub body: ValueBody,
}

/// The term one field contributes, or the failure it raises: a numeric step
/// takes a number, a textual step takes an ASCII text, a nested step invokes
/// the nested value's own conversion; a field value of any other shape than
/// its step is a mismatch.
pub open spec fn field_term_spec(op: ArgOp, f: FieldValue, tn: Seq<char>) -> Result<
    STerm,
    SConvError,
>
    decreases f, 0int,
{
    match (op, f) {
        (ArgOp::Numeric, FieldValue::NumValue(v)) => Ok(STerm::SNumber(v as int)),
        (ArgOp::Textual, FieldValue::TextValue(s)) => if is_ascii_chars(s@) {
            Ok(STerm::SText(s@))
        } else {
            Err(SConvError::SUnrepresentableText(s@))
        },
        (ArgOp::Nested, FieldValue::NestedValue(sub)) => convert_spec(*sub),
        _ => Err(SConvError::SShapeMismatch(tn)),
    }
}

/// The outcomes of all fields of a group, step by step, in declared order.
pub open spec fn arg_results(steps: Seq<ArgOp>, fields: Seq<FieldValue>, tn: Seq<char>) -> Seq<
    Result<STerm, SConvError>,
>
    decreases fields, 1int,
{
    if fields.len() == 0 || steps.len() == 0 {
        Seq::empty()
    } else {
        arg_results(steps.drop_last(), fields.drop_last(), tn).push(
            field_term_spec(steps.last(), fields.last(), tn),
        )
    }
}

/// The field outcomes, element by element, when steps and fields agree in
/// number.
pub proof fn lemma_arg_results(steps: Seq<ArgOp>, fields: Seq<FieldValue>, tn: Seq<char>)
    requires
        steps.len() == fields.len(),
    ensures
        arg_results(steps, fields, tn).len() == fields.len(),
        forall|i: int|
            0 <= i < fields.len() ==> arg_results(steps, fields, tn)[i] == field_term_spec(
                steps[i],
                #[trigger] fields[i],
                tn,
            ),
    decreases fields.len(),
{
    if fields.len() > 0 {
        lemma_arg_results(steps.drop_last(), fields.drop_last(), tn);
        let rs = arg_results(steps, fields, tn);
        assert forall|i: int| 0 <= i < fields.len() implies rs[i] == field_term_spec(
            steps[i],
            #[trigger] fields[i],
            tn,
        ) by {
            if i < fields.len() - 1 {
                assert(steps.drop_last()[i] == steps[i]);
                assert(fields.drop_last()[i] == fields[i]);
                assert(rs[i] == arg_results(steps.drop_last(), fields.drop_last(), tn)[i]);
            } else {
                assert(steps.last() == steps[i]);
                assert(fields.last() == fields[i]);
            }
        }
    }
}

/// Whether every field outcome is a term.
pub open spec fn results_ok(rs: Seq<Result<STerm, SConvError>>) -> bool {
    forall|i: int| 0 <= i < rs.len() ==> (#[trigger] rs[i]) is Ok
}

/// The index of the first failing outcome at or after `i`, or the length if
/// every one from `i` on is a term.
pub open spec fn first_err_from(rs: Seq<Result<STerm, SConvError>>, i: int) -> int
    decreases rs.len() - i,
{
    if i < 0 || i >= rs.len() {
        rs.len() as int
    } else if rs[i] is Err {
        i
    } else {
        first_err_from(rs, i + 1)
    }
}

/// The terms of a sequence of successful outcomes.
pub open spec fn oks_of(rs: Seq<Result<STerm, SConvError>>) -> Seq<STerm> {
    Seq::new(rs.len(), |i: int| rs[i]->Ok_0)
}

/// The term a plan yields on one group of runtime fields, or the failure:
/// the fields must match the steps in number; every field's outcome feeds
/// the terminal constructor, an atomic identifier succeeding always and a
/// function term failing on an empty name; the first failing field, in
/// declared order, is reported inside a frame that names it.
pub open spec fn eval_plan_spec(
    g: FieldGroup,
    plan: SPlan,
    fields: Seq<FieldValue>,
    tn: Seq<char>,
    var: Option<Seq<char>>,
) -> Result<STerm, SConvError>
    decreases fields, 2int,
{
    if fields.len() != plan.steps.len() {
        Err(SConvError::SShapeMismatch(tn))
    } else {
        let rs = arg_results(plan.steps, fields, tn);
        if results_ok(rs) {
            match plan.ctor {
                SCtor::SIdCtor(name, pos) => Ok(STerm::SId(name, pos)),
                SCtor::SFunctionCtor(name, pos) => if name.len() == 0 {
                    Err(SConvError::SEmptyName)
                } else {
                    Ok(STerm::SFunction(name, oks_of(rs), pos))
                },
            }
        } else {
            let k = first_err_from(rs, 0);
            Err(
                SConvError::SAtField {
                    decl_name: tn,
                    variant: var,
                    field: field_id_at(g, k),
                    cause: Box::new(rs[k]->Err_0),
                },
            )
        }
    }
}

/// The index of the first declared variant at or after `i` whose name is
/// `name`, or the length if none is.
pub open spec fn variant_index_from(vs: Seq<VariantDecl>, name: Seq<char>, i: int) -> int
    decreases vs.len() - i,
{
    if i < 0 || i >= vs.len() {
        vs.len() as int
    } else if vs[i].name@ == name {
        i
    } else {
        variant_index_from(vs, name, i + 1)
    }
}

/// The term a runtime value converts to, or the failure: a value of a
/// declaration that yields no conversion fails outright; a struct value's
/// record feeds the single plan; an enum value's active variant selects its
/// arm, a variant that is none of the declared ones failing as an internal
/// defect; a value whose shape is not the declared shape is a mismatch.
pub open spec fn convert_spec(fv: FactValue) -> Result<STerm, SConvError>
    decreases fv, 3int,
{
    match generate_spec(fv.decl) {
        Err(g) => Err(SConvError::SNotGenerated(g)),
        Ok(_) => match fv.decl.body {
            TypeBody::StructBody(g) => match fv.body {
                ValueBody::RecordValue(fs) => eval_plan_spec(
                    g,
                    plan_spec(g, snake_of(fv.decl.name@))->Ok_0,
                    fs@,
                    fv.decl.name@,
                    None,
                ),
                ValueBody::CaseValue { .. } => Err(SConvError::SShapeMismatch(fv.decl.name@)),
            },
            TypeBody::EnumBody(vs) => match fv.body {
                ValueBody::CaseValue { variant, fields } => {
                    let k = variant_index_from(vs@, variant@, 0);
                    if k == vs@.len() {
                        Err(
                            SConvError::SUnknownVariant {
                                decl_name: fv.decl.name@,
                                variant: variant@,
                            },
                        )
                    } else {
                        eval_plan_spec(
                            vs@[k].group,
                            variant_plan(vs@[k])->Ok_0,
                            fields@,
                            fv.decl.name@,
                            Some(variant@),
                        )
                    }
                },
                ValueBody::RecordValue(_) => Err(SConvError::SShapeMismatch(fv.decl.name@)),
            },
            TypeBody::UnionBody => Err(SConvError::SShapeMismatch(fv.decl.name@)),
        },
    }
}

/// The view of an optional borrowed name.
pub open spec fn ovar(v: Option<&String>) -> Option<Seq<char>> {
    match v {
        Some(s) => Some(s@),
        None => None,
    }
}

/// The fault name of the field at `k` of a group.
fn field_id_of(g: &FieldGroup, k: usize) -> (id: FieldId)
    requires
        g matches FieldGroup::NamedFields(fs) ==> k < fs@.len(),
    ensures
        id@ == field_id_at(*g, k as int),
{
    match g {
        FieldGroup::NamedFields(fs) => FieldId::FieldName(fs[k].name.clone()),
        _ => FieldId::FieldIndex(k),
    }
}

/// Wraps a field's failure in a frame naming the enclosing type, variant
/// and field, so the cause stays attributed to its origin.
fn frame_err(
    dname: &String,
    variant: Option<&String>,
    g: &FieldGroup,
    k: usize,
    cause: ConversionError,
) -> (e: ConversionError)
    requires
        g matches FieldGroup::NamedFields(fs) ==> k < fs@.len(),
    ensures
        e@ == (SConvError::SAtField {
            decl_name: dname@,
            variant: ovar(variant),
            field: field_id_at(*g, k as int),
            cause: Box::new(cause@),
        }),
{
    ConversionError::AtField {
        decl_name: dname.clone(),
        variant: match variant {
            Some(s) => Some(s.clone()),
            None => None,
        },
        field: field_id_of(g, k),
        cause: Box::new(cause),
    }
}

/// Applies one plan to the runtime fields of a group: each field's step
/// yields one argument, in declared order, and the terminal constructor
/// builds the term. The first failing field is reported inside a frame that
/// names it, and no partial term escapes.
fn eval_group(
    g: &FieldGroup,
    plan: &EncodingPlan,
    fields: &Vec<FieldValue>,
    dname: &String,
    variant: Option<&String>,
) -> (r: Result<Term, ConversionError>)
    requires
        plan@.steps.len() == group_types(*g).len(),
    ensures
        r matches Ok(t) ==> eval_plan_spec(*g, plan@, fields@, dname@, ovar(variant)) == Ok::<
            STerm,
            SConvError,
        >(t@),
        r matches Err(e) ==> eval_plan_spec(*g, plan@, fields@, dname@, ovar(variant)) == Err::<
            STerm,
            SConvError,
        >(e@),
    decreases fields@, 0int,
{
    let ghost tn = dname@;
    let ghost splan = plan@;
    if fields.len() != plan.steps.len() {
        return Err(ConversionError::ShapeMismatch { decl_name: dname.clone() });
    }
    let ghost rs = arg_results(splan.steps, fields@, tn);
    proof {
        lemma_arg_results(splan.steps, fields@, tn);
    }
    let n = fields.len();
    let mut args: Vec<Term> = Vec::new();
    for k in 0..n
        invariant
            n == fields@.len(),
            n == splan.steps.len(),
            splan == plan@,
            tn == dname@,
            splan.steps.len() == group_types(*g).len(),
            rs == arg_results(splan.steps, fields@, tn),
            rs.len() == n,
            forall|j: int|
                0 <= j < n ==> rs[j] == field_term_spec(splan.steps[j], #[trigger] fields@[j], tn),
            args@.len() == k,
            forall|j: int| 0 <= j < k ==> (#[trigger] rs[j]) is Ok,
            forall|j: int| 0 <= j < k ==> term_view(#[trigger] args@[j]) == rs[j]->Ok_0,
            first_err_from(rs, 0) == first_err_from(rs, k as int),
    {
        let ghost fj = fields@[k as int];
        match (&plan.steps[k], &fields[k]) {
            (ArgOp::Numeric, FieldValue::NumValue(v)) => {
                args.push(create_number(*v));
            },
            (ArgOp::Textual, FieldValue::TextValue(s)) => {
                match create_string(s.clone()) {
                    Ok(t) => {
                        args.push(t);
                    },
                    Err(cause) => {
                        proof {
                            assert(rs[k as int] is Err);
                            assert(first_err_from(rs, k as int) == k);
                        }
                        return Err(frame_err(dname, variant, g, k, cause));
                    },
                }
            },
            (ArgOp::Nested, FieldValue::NestedValue(sub)) => {
                proof {
                    assert(decreases_to!(fields@ => fields@[k as int]));
                    assert(fj matches FieldValue::NestedValue(b) && b == *sub);
                }
                match convert(&*sub) {
                    Ok(t) => {
                        args.push(t);
                    },
                    Err(cause) => {
                        proof {
                            assert(rs[k as int] is Err);
                            assert(first_err_from(rs, k as int) == k);
                        }
                        return Err(frame_err(dname, variant, g, k, cause));
                    },
                }
            },
            _ => {
                let cause = ConversionError::ShapeMismatch { decl_name: dname.clone() };
                proof {
                    assert(rs[k as int] == Err::<STerm, SConvError>(SConvError::SShapeMismatch(tn)));
                    assert(first_err_from(rs, k as int) == k);
                }
                return Err(frame_err(dname, variant, g, k, cause));
            },
        }
    }
    proof {
        assert(results_ok(rs));
    }
    match &plan.ctor {
        PlanCtor::IdCtor { name, positive } => Ok(create_id(name.clone(), *positive)),
        PlanCtor::FunctionCtor { name, positive } => {
            let nm = name.clone();
            let ghost argsv = args@;
            proof {
                lemma_term_views(argsv);
                assert forall|i: int| 0 <= i < rs.len() implies term_views(argsv)[i] == oks_of(
                    rs,
                )[i] by {
                    assert(term_view(args@[i]) == rs[i]->Ok_0);
                }
                assert(term_views(argsv) =~= oks_of(rs));
            }
            match create_function(nm, args, *positive) {
                Ok(t) => Ok(t),
                Err(e) => Err(e),
            }
        },
    }
}

/// Converts one runtime value into its fact term, governed by the
/// conversion its declaration generates: a record feeds the single plan, an
/// enum value's active variant selects its arm, and a variant outside the
/// declared set fails as an internal defect rather than yielding any term.
/// Conversion is all-or-nothing: on any failure no partial term is
/// returned, and the error names the innermost failing field.
pub fn convert(fv: &FactValue) -> (r: Result<Term, ConversionError>)
    ensures
        r matches Ok(t) ==> convert_spec(*fv) == Ok::<STerm, SConvError>(t@),
        r matches Err(e) ==> convert_spec(*fv) == Err::<STerm, SConvError>(e@),
    decreases *fv, 1int,
{
    let conv = match generate(&fv.decl) {
        Err(g) => {
            return Err(ConversionError::NotGenerated(g));
        },
        Ok(c) => c,
    };
    match (&fv.decl.body, &fv.body) {
        (TypeBody::StructBody(g), ValueBody::RecordValue(fs)) => {
            let plan = match &conv.body {
                ConversionBody::SingleBody(p) => p,
                ConversionBody::DispatchBody(_) => {
                    proof {
                        assert(false);
                    }
                    unreached()
                },
            };
            proof {
                assert(plan_spec(*g, snake_of(fv.decl.name@)) == Ok::<SPlan, SFieldFault>(plan@));
                assert(plan@.steps.len() == group_types(*g).len());
            }
            eval_group(g, plan, fs, &fv.decl.name, None)
        },
        (TypeBody::StructBody(_), ValueBody::CaseValue { .. }) => Err(
            ConversionError::ShapeMismatch { decl_name: fv.decl.name.clone() },
        ),
        (TypeBody::EnumBody(vs), ValueBody::CaseValue { variant, fields }) => {
            let arms = match &conv.body {
                ConversionBody::DispatchBody(a) => a,
                ConversionBody::SingleBody(_) => {
                    proof {
                        assert(false);
                    }
                    unreached()
                },
            };
            proof {
                assert(variants_ok(vs@));
                assert(arm_views(arms@) == arms_spec(vs@));
                assert(arm_views(arms@).len() == arms@.len());
                assert(arms_spec(vs@).len() == vs@.len());
                assert(arms@.len() == vs@.len());
            }
            let n = vs.len();
            for k in 0..n
                invariant
                    n == vs@.len(),
                    arms@.len() == vs@.len(),
                    arm_views(arms@) == arms_spec(vs@),
                    variants_ok(vs@),
                    fv.decl.body matches TypeBody::EnumBody(dvs) && dvs@ == vs@,
                    fv.body matches ValueBody::CaseValue { variant: dv, fields: df } && dv == *variant
                        && df@ == fields@,
                    forall|j: int| 0 <= j < k ==> (#[trigger] vs@[j].name)@ != variant@,
                    variant_index_from(vs@, variant@, 0) == variant_index_from(
                        vs@,
                        variant@,
                        k as int,
                    ),
            {
                if vs[k].name == *variant {
                    proof {
                        assert(variant_index_from(vs@, variant@, k as int) == k);
                        assert(arm_views(arms@)[k as int] == arms_spec(vs@)[k as int]);
                        assert(variant_plan(vs@[k as int]) == Ok::<SPlan, SFieldFault>(
                            arms@[k as int]@.plan,
                        ));
                        assert(arms@[k as int]@.plan.steps.len() == group_types(
                            vs@[k as int].group,
                        ).len());
                    }
                    return eval_group(
                        &vs[k].group,
                        &arms[k].plan,
                        fields,
                        &fv.decl.name,
                        Some(variant),
                    );
                }
            }
            proof {
                assert(variant_index_from(vs@, variant@, 0) == vs@.len());
            }
            Err(
                ConversionError::UnknownVariant {
                    decl_name: fv.decl.name.clone(),
                    variant: variant.clone(),
                },
            )
        },
        (TypeBody::EnumBody(_), ValueBody::RecordValue(_)) => Err(
            ConversionError::ShapeMismatch { decl_name: fv.decl.name.clone() },
        ),
        (TypeBody::UnionBody, _) => {
            proof {
                assert(false);
            }
            unreached()
        },
    }
}

} // verus!
