use vstd::prelude::*;
use crate::plan::{FieldId, SFieldId, SFieldFault, FaultKind};

verus! {

/// Where a generation-time fault was found: the declared type, the variant
/// (for an enum) and the field that raised it.
#[derive(Debug)]
pub struct FaultSite {
    pub decl_name: String,
    pub variant: Option<String>,
    pub field: FieldId,
}

/// The mathematical form of a `FaultSite`.
pub struct SFaultSite {
    pub decl_name: Seq<char>,
    pub variant: Option<Seq<char>>,
    pub field: SFieldId,
}

impl View for FaultSite {
    type V = SFaultSite;

    open spec fn view(&self) -> SFaultSite {
        SFaultSite {
            decl_name: self.decl_name@,
            variant: match self.variant {
                Some(v) => Some(v@),
                None => None,
            },
            field: self.field@,
        }
    }
}

/// A generation-time failure: fatal, and owed to exactly one offending
/// declaration site.
#[derive(Debug)]
pub enum GenError {
    /// The declaration is a union, which has no fact encoding.
    UnsupportedKind { decl_name: String },
    /// A field's declared type has no recognised form.
    UnsupportedType(FaultSite),
    /// An integer field wider than 32 bits, which the backend term model
    /// cannot hold.
    WidthOverflow(FaultSite),
}

/// The mathematical form of a `GenError`.
pub enum SGenError {
    SUnsupportedKind(Seq<char>),
    SUnsupportedType(SFaultSite),
    SWidthOverflow(SFaultSite),
}

impl View for GenError {
    type V = SGenError;

    open spec fn view(&self) -> SGenError {
        match self {
            GenError::UnsupportedKind { decl_name } => SGenError::SUnsupportedKind(decl_name@),
            GenError::UnsupportedType(site) => SGenError::SUnsupportedType(site@),
            GenError::WidthOverflow(site) => SGenError::SWidthOverflow(site@),
        }
    }
}

/// The generation error a field fault turns into, once the declaration site
/// is known.
pub open spec fn site_error(tn: Seq<char>, var: Option<Seq<char>>, f: SFieldFault) -> SGenError {
    let site = SFaultSite { decl_name: tn, variant: var, field: f.field };
    match f.kind {
        FaultKind::WidthFault => SGenError::SWidthOverflow(site),
        FaultKind::UnsupportedFault => SGenError::SUnsupportedType(site),
    }
}

/// A runtime conversion failure, surfaced from one call of a generated
/// conversion. A frame is wrapped around the cause at every enclosing field,
/// so a nested failure stays attributed to its origin.
#[derive(Debug)]
#[allow(inconsistent_fields)]
pub enum ConversionError {
    /// The backend refuses a function term with an empty name.
    EmptyName,
    /// The backend's charset cannot hold this text.
    UnrepresentableText { text: String },
    /// The value's active variant is none of the declared ones: a defect of
    /// the declaration's provider, never reported as a term.
    UnknownVariant { decl_name: String, variant: String },
    /// The value's shape is not the declared shape.
    ShapeMismatch { decl_name: String },
    /// The value's declaration yields no conversion at all.
    NotGenerated(GenError),
    /// A failure inside one field's encoding, with the field named.
    AtField {
        decl_name: String,
        variant: Option<String>,
        field: FieldId,
        cause: Box<ConversionError>,
    },
}

/// The mathematical form of a `ConversionError`.
#[allow(inconsistent_fields)]
pub enum SConvError {
    SEmptyName,
    SUnrepresentableText(Seq<char>),
    SUnknownVariant { decl_name: Seq<char>, variant: Seq<char> },
    SShapeMismatch(Seq<char>),
    SNotGenerated(SGenError),
    SAtField {
        decl_name: Seq<char>,
        variant: Option<Seq<char>>,
        field: SFieldId,
        cause: Box<SConvError>,
    },
}

/// The mathematical form of a runtime conversion error, frame by frame.
pub open spec fn cerr_view(e: ConversionError) -> SConvError
    decreases e,
{
    match e {
        ConversionError::EmptyName => SConvError::SEmptyName,
        ConversionError::UnrepresentableText { text } => SConvError::SUnrepresentableText(text@),
        ConversionError::UnknownVariant { decl_name, variant } => SConvError::SUnknownVariant {
            decl_name: decl_name@,
            variant: variant@,
        },
        ConversionError::ShapeMismatch { decl_name } => SConvError::SShapeMismatch(decl_name@),
        ConversionError::NotGenerated(g) => SConvError::SNotGenerated(g@),
        ConversionError::AtField { decl_name, variant, field, cause } => SConvError::SAtField {
            decl_name: decl_name@,
            variant: match variant {
                Some(v) => Some(v@),
                None => None,
            },
            field: field@,
            cause: Box::new(cerr_view(*cause)),
        },
    }
}

impl View for ConversionError {
    type V = SConvError;

    open spec fn view(&self) -> SConvError {
        cerr_view(*self)
    }
}

} // verus!
