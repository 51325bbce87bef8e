use vstd::prelude::*;
use crate::ast::{TypeDeclaration, TypeBody, VariantDecl, str_views};
use crate::errors::{FaultSite, GenError, SGenError, site_error};
use crate::names::{snake_of, transform_name};
use crate::plan::{EncodingPlan, FieldFault, FaultKind, SFieldFault, SPlan, build_plan, plan_spec};

verus! {

/// One arm of an enum dispatch: the declared variant name and the plan its
/// field group yields.
#[derive(Debug)]
pub struct VariantArm {
    pub variant: String,
    pub plan: EncodingPlan,
}

/// The mathematical form of a `VariantArm`.
pub struct SArm {
    pub variant: Seq<char>,
    pub plan: SPlan,
}

impl View for VariantArm {
    type V = SArm;

    open spec fn view(&self) -> SArm {
        SArm { variant: self.variant@, plan: self.plan@ }
    }
}

/// The views of a sequence of arms.
pub open spec fn arm_views(a: Seq<VariantArm>) -> Seq<SArm> {
    Seq::new(a.len(), |i: int| a[i]@)
}

/// The body of a synthesized conversion: a single plan for a struct, one
/// arm per variant, in declared order, for an enum.
#[derive(Debug)]
pub enum ConversionBody {
    SingleBody(EncodingPlan),
    DispatchBody(Vec<VariantArm>),
}

/// The mathematical form of a `ConversionBody`.
pub enum SConvBody {
    SSingle(SPlan),
    SDispatch(Seq<SArm>),
}

impl View for ConversionBody {
    type V = SConvBody;

    open spec fn view(&self) -> SConvBody {
        match self {
            ConversionBody::SingleBody(p) => SConvBody::SSingle(p@),
            ConversionBody::DispatchBody(arms) => SConvBody::SDispatch(arm_views(arms@)),
        }
    }
}

/// A synthesized conversion: the host type's name, its generic parameters
/// and constraints carried through verbatim, and the encoding body.
#[derive(Debug)]
pub struct Conversion {
    pub decl_name: String,
    pub params: Vec<String>,
    pub constraints: Vec<String>,
    pub body: ConversionBody,
}

/// The mathematical form of a `Conversion`.
pub struct SConv {
    pub decl_name: Seq<char>,
    pub params: Seq<Seq<char>>,
    pub constraints: Seq<Seq<char>>,
    pub body: SConvBody,
}

impl View for Conversion {
    type V = SConv;

    open spec fn view(&self) -> SConv {
        SConv {
            decl_name: self.decl_name@,
            params: str_views(self.params@),
            constraints: str_views(self.constraints@),
            body: self.body@,
        }
    }
}

/// The plan one variant's field group yields, under the variant's
/// snake-cased name.
pub open spec fn variant_plan(v: VariantDecl) -> Result<SPlan, SFieldFault> {
    plan_spec(v.group, snake_of(v.name@))
}

/// Whether every variant of the sequence yields a plan.
pub open spec fn variants_ok(vs: Seq<VariantDecl>) -> bool {
    forall|i: int| 0 <= i < vs.len() ==> variant_plan(#[trigger] vs[i]) is Ok
}

/// The index of the first variant at or after `i` whose group faults, or the
/// length if every one from `i` on yields a plan.
pub open spec fn first_bad_variant_from(vs: Seq<VariantDecl>, i: int) -> int
    decreases vs.len() - i,
{
    if i < 0 || i >= vs.len() {
        vs.len() as int
    } else if variant_plan(vs[i]) is Err {
        i
    } else {
        first_bad_variant_from(vs, i + 1)
    }
}

/// The dispatch arms of an enum whose every variant yields a plan, in
/// declared order.
pub open spec fn arms_spec(vs: Seq<VariantDecl>) -> Seq<SArm> {
    Seq::new(vs.len(), |i: int| SArm { variant: vs[i].name@, plan: variant_plan(vs[i])->Ok_0 })
}

/// The conversion a declaration yields, or the error that aborts its
/// generation: a struct's single group becomes one plan under the type's
/// snake-cased name; an enum becomes one arm per variant, each under the
/// variant's snake-cased name, the first faulting variant, in declared
/// order, naming the error; a union is rejected outright. Generics are
/// carried through unchanged.
pub open spec fn generate_spec(d: TypeDeclaration) -> Result<SConv, SGenError> {
    match d.body {
        TypeBody::UnionBody => Err(SGenError::SUnsupportedKind(d.name@)),
        TypeBody::StructBody(g) => match plan_spec(g, snake_of(d.name@)) {
            Ok(p) => Ok(
                SConv {
                    decl_name: d.name@,
                    params: str_views(d.generics.params@),
                    constraints: str_views(d.generics.constraints@),
                    body: SConvBody::SSingle(p),
                },
            ),
            Err(f) => Err(site_error(d.name@, None, f)),
        },
        TypeBody::EnumBody(vs) => if variants_ok(vs@) {
            Ok(
                SConv {
                    decl_name: d.name@,
                    params: str_views(d.generics.params@),
                    constraints: str_views(d.generics.constraints@),
                    body: SConvBody::SDispatch(arms_spec(vs@)),
                },
            )
        } else {
            let k = first_bad_variant_from(vs@, 0);
            Err(site_error(d.name@, Some(vs@[k].name@), variant_plan(vs@[k])->Err_0))
        },
    }
}

/// Attaches the declaration site to a field fault.
fn wrap_fault(decl_name: String, variant: Option<String>, f: FieldFault) -> (e: GenError)
    ensures
        e@ == site_error(
            decl_name@,
            match variant {
                Some(v) => Some(v@),
                None => None::<Seq<char>>,
            },
            f@,
        ),
{
    let site = FaultSite { decl_name, variant, field: f.field };
    match f.kind {
        FaultKind::WidthFault => GenError::WidthOverflow(site),
        FaultKind::UnsupportedFault => GenError::UnsupportedType(site),
    }
}

/// Copies a list of names.
fn clone_strings(v: &Vec<String>) -> (r: Vec<String>)
    ensures
        r@.len() == v@.len(),
        forall|i: int| 0 <= i < v@.len() ==> r@[i]@ == v@[i]@,
{
    let mut r: Vec<String> = Vec::new();
    let n = v.len();
    for k in 0..n
        invariant
            n == v@.len(),
            r@.len() == k,
            forall|i: int| 0 <= i < k ==> r@[i]@ == v@[i]@,
    {
        r.push(v[k].clone());
    }
    r
}

/// The type-shape classifier and generics propagator: routes a struct's
/// group to the plan synthesizer, an enum's variants one by one into a
/// dispatch body, and rejects a union outright, while threading the host
/// type's generic parameters and constraints through unchanged. Exactly the
/// declarations free of faulting fields yield a conversion; the first
/// faulting site, in declared order, names the error.
pub fn generate(d: &TypeDeclaration) -> (r: Result<Conversion, GenError>)
    ensures
        r matches Ok(c) ==> generate_spec(*d) == Ok::<SConv, SGenError>(c@),
        r matches Err(e) ==> generate_spec(*d) == Err::<SConv, SGenError>(e@),
{
    match &d.body {
        TypeBody::UnionBody => Err(GenError::UnsupportedKind { decl_name: d.name.clone() }),
        TypeBody::StructBody(g) => {
            let pred = transform_name(d.name.as_str());
            match build_plan(g, pred) {
                Ok(plan) => {
                    let c = Conversion {
                        decl_name: d.name.clone(),
                        params: clone_strings(&d.generics.params),
                        constraints: clone_strings(&d.generics.constraints),
                        body: ConversionBody::SingleBody(plan),
                    };
                    proof {
                        assert(str_views(c.params@) =~= str_views(d.generics.params@));
                        assert(str_views(c.constraints@) =~= str_views(d.generics.constraints@));
                    }
                    Ok(c)
                },
                Err(f) => Err(wrap_fault(d.name.clone(), None, f)),
            }
        },
        TypeBody::EnumBody(vs) => {
            let ghost vseq = vs@;
            let mut arms: Vec<VariantArm> = Vec::new();
            let n = vs.len();
            for k in 0..n
                invariant
                    n == vseq.len(),
                    vseq == vs@,
                    d.body matches TypeBody::EnumBody(dvs) && dvs@ == vseq,
                    arms@.len() == k,
                    forall|j: int| 0 <= j < k ==> variant_plan(#[trigger] vseq[j]) is Ok,
                    forall|j: int| 0 <= j < k ==> arm_views(arms@)[j] == arms_spec(vseq)[j],
                    first_bad_variant_from(vseq, 0) == first_bad_variant_from(vseq, k as int),
            {
                let pred = transform_name(vs[k].name.as_str());
                match build_plan(&vs[k].group, pred) {
                    Ok(plan) => {
                        arms.push(VariantArm { variant: vs[k].name.clone(), plan });
                        proof {
                            assert(arm_views(arms@)[k as int] == arms_spec(vseq)[k as int]);
                        }
                    },
                    Err(f) => {
                        proof {
                            assert(variant_plan(vseq[k as int]) is Err);
                            assert(first_bad_variant_from(vseq, k as int) == k);
                            assert(!variants_ok(vseq));
                        }
                        return Err(wrap_fault(d.name.clone(), Some(vs[k].name.clone()), f));
                    },
                }
            }
            let c = Conversion {
                decl_name: d.name.clone(),
                params: clone_strings(&d.generics.params),
                constraints: clone_strings(&d.generics.constraints),
                body: ConversionBody::DispatchBody(arms),
            };
            proof {
                assert(variants_ok(vseq));
                assert(arm_views(arms@) =~= arms_spec(vseq));
                assert(str_views(c.params@) =~= str_views(d.generics.params@));
                assert(str_views(c.constraints@) =~= str_views(d.generics.constraints@));
            }
            Ok(c)
        },
    }
}

} // verus!
