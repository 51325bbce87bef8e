use vstd::prelude::*;
use crate::ast::{DeclaredType, FieldGroup, group_types};

verus! {

/// The kind of argument-producing step one field contributes.
#[derive(Debug, Clone, Copy, PartialEq, Eq, Structural)]
pub enum ArgOp {
    /// The field's value, coerced to a 32-bit signed integer, becomes a
    /// numeric term.
    Numeric,
    /// The field's textual form becomes a string term.
    Textual,
    /// The field's own conversion is invoked and its term is nested as the
    /// argument.
    Nested,
}

/// Why one field's declared type cannot contribute a step.
#[derive(Debug, Clone, Copy, PartialEq, Eq, Structural)]
pub enum FaultKind {
    /// An integer field wider than 32 bits.
    WidthFault,
    /// An unrecognised syntactic form.
    UnsupportedFault,
}

/// The step a declared type contributes, or the fault it raises, after all
/// reference indirection is stripped.
pub open spec fn resolve_spec(t: DeclaredType) -> Result<ArgOp, FaultKind>
    decreases t,
{
    match t {
        DeclaredType::ReferenceType(inner) => resolve_spec(*inner),
        DeclaredType::Primitive { bits, signed } => if bits <= 32 {
            Ok(ArgOp::Numeric)
        } else {
            Err(FaultKind::WidthFault)
        },
        DeclaredType::StringType => Ok(ArgOp::Textual),
        DeclaredType::TupleType(inners) => Ok(ArgOp::Nested),
        DeclaredType::CompositeType(name) => Ok(ArgOp::Nested),
        DeclaredType::Unsupported => Err(FaultKind::UnsupportedFault),
    }
}

/// Classifies one field's declared type: strips indirection, admits
/// primitives of at most 32 bits as numeric steps, strings as textual steps,
/// and tuples and composites as nested conversions; anything unrecognised,
/// and any wider integer, is a fault.
pub fn resolve_field(t: &DeclaredType) -> (r: Result<ArgOp, FaultKind>)
    ensures
        r == resolve_spec(*t),
    decreases *t,
{
    match t {
        DeclaredType::ReferenceType(inner) => resolve_field(&**inner),
        DeclaredType::Primitive { bits, signed: _ } => if *bits <= 32 {
            Ok(ArgOp::Numeric)
        } else {
            Err(FaultKind::WidthFault)
        },
        DeclaredType::StringType => Ok(ArgOp::Textual),
        DeclaredType::TupleType(_) => Ok(ArgOp::Nested),
        DeclaredType::CompositeType(_) => Ok(ArgOp::Nested),
        DeclaredType::Unsupported => Err(FaultKind::UnsupportedFault),
    }
}

/// Which field of a group a fault names: a named field by its binding name,
/// a positional field by its 0-based index.
#[derive(Debug)]
pub enum FieldId {
    FieldName(String),
    FieldIndex(usize),
}

/// The mathematical form of a `FieldId`.
pub enum SFieldId {
    SFieldName(Seq<char>),
    SFieldIndex(int),
}

impl View for FieldId {
    type V = SFieldId;

    open spec fn view(&self) -> SFieldId {
        match self {
            FieldId::FieldName(n) => SFieldId::SFieldName(n@),
            FieldId::FieldIndex(i) => SFieldId::SFieldIndex(*i as int),
        }
    }
}

/// A fault raised by one field of a group.
#[derive(Debug)]
pub struct FieldFault {
    pub field: FieldId,
    pub kind: FaultKind,
}

/// The mathematical form of a `FieldFault`.
pub struct SFieldFault {
    pub field: SFieldId,
    pub kind: FaultKind,
}

impl View for FieldFault {
    type V = SFieldFault;

    open spec fn view(&self) -> SFieldFault {
        SFieldFault { field: self.field@, kind: self.kind }
    }
}

/// The terminal constructor of a plan: a named function term over the
/// collected arguments, or a zero-argument atomic identifier.
#[derive(Debug)]
pub enum PlanCtor {
    FunctionCtor { name: String, positive: bool },
    IdCtor { name: String, positive: bool },
}

/// The mathematical form of a `PlanCtor`.
pub enum SCtor {
    SFunctionCtor(Seq<char>, bool),
    SIdCtor(Seq<char>, bool),
}

impl View for PlanCtor {
    type V = SCtor;

    open spec fn view(&self) -> SCtor {
        match self {
            PlanCtor::FunctionCtor { name, positive } => SCtor::SFunctionCtor(name@, *positive),
            PlanCtor::IdCtor { name, positive } => SCtor::SIdCtor(name@, *positive),
        }
    }
}

/// An encoding plan: one argument-producing step per field, in declared
/// order, and a terminal constructor.
#[derive(Debug)]
pub struct EncodingPlan {
    pub steps: Vec<ArgOp>,
    pub ctor: PlanCtor,
}

/// The mathematical form of an `EncodingPlan`.
pub struct SPlan {
    pub steps: Seq<ArgOp>,
    pub ctor: SCtor,
}

impl View for EncodingPlan {
    type V = SPlan;

    open spec fn view(&self) -> SPlan {
        SPlan { steps: self.steps@, ctor: self.ctor@ }
    }
}

/// The fault name of the field at `i` in a group: the binding name for a
/// named group, the position otherwise.
pub open spec fn field_id_at(g: FieldGroup, i: int) -> SFieldId {
    match g {
        FieldGroup::NamedFields(fs) => SFieldId::SFieldName(fs@[i].name@),
        _ => SFieldId::SFieldIndex(i),
    }
}

/// Whether every field of the group resolves to a step.
pub open spec fn group_ok(g: FieldGroup) -> bool {
    forall|i: int|
        0 <= i < group_types(g).len() ==> resolve_spec(#[trigger] group_types(g)[i]) is Ok
}

/// The index of the first type at or after `i` that fails to resolve, or the
/// length if every one from `i` on resolves.
pub open spec fn first_bad_from(ts: Seq<DeclaredType>, i: int) -> int
    decreases ts.len() - i,
{
    if i < 0 || i >= ts.len() {
        ts.len() as int
    } else if resolve_spec(ts[i]) is Err {
        i
    } else {
        first_bad_from(ts, i + 1)
    }
}

/// The steps of a group whose every field resolves, in declared order.
pub open spec fn plan_steps(ts: Seq<DeclaredType>) -> Seq<ArgOp> {
    Seq::new(ts.len(), |i: int| resolve_spec(ts[i])->Ok_0)
}

/// The plan a field group yields under the predicate name `pred`: an atomic
/// identifier for a unit group, otherwise a function term over one step per
/// field — unless some field faults, in which case the first faulting field,
/// in declared order, names the error.
pub open spec fn plan_spec(g: FieldGroup, pred: Seq<char>) -> Result<SPlan, SFieldFault> {
    match g {
        FieldGroup::Unit => Ok(SPlan { steps: Seq::empty(), ctor: SCtor::SIdCtor(pred, true) }),
        _ => {
            let ts = group_types(g);
            if group_ok(g) {
                Ok(SPlan { steps: plan_steps(ts), ctor: SCtor::SFunctionCtor(pred, true) })
            } else {
                let k = first_bad_from(ts, 0);
                Err(SFieldFault { field: field_id_at(g, k), kind: resolve_spec(ts[k])->Err_0 })
            }
        },
    }
}

/// Synthesizes the encoding plan of one field group: resolves each field in
/// declared order and wraps the steps in a function constructor, or yields
/// an atomic identifier for a unit group. The first faulting field, if any,
/// is reported and no plan is produced.
pub fn build_plan(g: &FieldGroup, pred: String) -> (r: Result<EncodingPlan, FieldFault>)
    ensures
        r matches Ok(p) ==> plan_spec(*g, pred@) == Ok::<SPlan, SFieldFault>(p@),
        r matches Err(f) ==> plan_spec(*g, pred@) == Err::<SPlan, SFieldFault>(f@),
{
    let ghost ts = group_types(*g);
    match g {
        FieldGroup::Unit => Ok(
            EncodingPlan { steps: Vec::new(), ctor: PlanCtor::IdCtor { name: pred, positive: true } },
        ),
        FieldGroup::NamedFields(fs) => {
            let mut steps: Vec<ArgOp> = Vec::new();
            let n = fs.len();
            for k in 0..n
                invariant
                    n == fs@.len(),
                    ts == group_types(*g),
                    g matches FieldGroup::NamedFields(gfs) && gfs@ == fs@,
                    ts.len() == n,
                    steps@.len() == k,
                    forall|j: int| 0 <= j < k ==> resolve_spec(#[trigger] ts[j]) is Ok,
                    forall|j: int| 0 <= j < k ==> steps@[j] == resolve_spec(#[trigger] ts[j])->Ok_0,
                    first_bad_from(ts, 0) == first_bad_from(ts, k as int),
            {
                assert(ts[k as int] == fs@[k as int].ty);
                match resolve_field(&fs[k].ty) {
                    Ok(op) => steps.push(op),
                    Err(kind) => {
                        proof {
                            assert(first_bad_from(ts, k as int) == k);
                            assert(!group_ok(*g));
                        }
                        return Err(
                            FieldFault { field: FieldId::FieldName(fs[k].name.clone()), kind },
                        );
                    },
                }
            }
            proof {
                assert(group_ok(*g));
                assert(steps@ =~= plan_steps(ts));
            }
            Ok(EncodingPlan { steps, ctor: PlanCtor::FunctionCtor { name: pred, positive: true } })
        },
        FieldGroup::UnnamedFields(tys) => {
            let mut steps: Vec<ArgOp> = Vec::new();
            let n = tys.len();
            for k in 0..n
                invariant
                    n == tys@.len(),
                    ts == group_types(*g),
                    g matches FieldGroup::UnnamedFields(gts) && gts@ == tys@,
                    ts.len() == n,
                    steps@.len() == k,
                    forall|j: int| 0 <= j < k ==> resolve_spec(#[trigger] ts[j]) is Ok,
                    forall|j: int| 0 <= j < k ==> steps@[j] == resolve_spec(#[trigger] ts[j])->Ok_0,
                    first_bad_from(ts, 0) == first_bad_from(ts, k as int),
            {
                assert(ts[k as int] == tys@[k as int]);
                match resolve_field(&tys[k]) {
                    Ok(op) => steps.push(op),
                    Err(kind) => {
                        proof {
                            assert(first_bad_from(ts, k as int) == k);
                            assert(!group_ok(*g));
                        }
                        return Err(FieldFault { field: FieldId::FieldIndex(k), kind });
                    },
                }
            }
            proof {
                assert(group_ok(*g));
                assert(steps@ =~= plan_steps(ts));
            }
            Ok(EncodingPlan { steps, ctor: PlanCtor::FunctionCtor { name: pred, positive: true } })
        },
    }
}

} // verus!
