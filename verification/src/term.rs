use vstd::prelude::*;
use vstd::utf8::is_ascii_chars;
use crate::errors::{ConversionError, SConvError};

verus! {

/// A structured term for the logic backend: a 32-bit number, a piece of
/// text, an atomic identifier, or a named function over ordered arguments.
/// Identifiers and functions carry a polarity; this generator only ever
/// emits positive ones.
#[derive(Debug)]
pub enum Term {
    NumberTerm(i32),
    TextTerm(String),
    IdTerm { name: String, positive: bool },
    FunctionTerm { name: String, args: Vec<Term>, positive: bool },
}

/// The mathematical form of a `Term`.
pub enum STerm {
    SNumber(int),
    SText(Seq<char>),
    SId(Seq<char>, bool),
    SFunction(Seq<char>, Seq<STerm>, bool),
}

/// The mathematical form of a term, argument by argument.
pub open spec fn term_view(t: Term) -> STerm
    decreases t, 1int,
{
    match t {
        Term::NumberTerm(v) => STerm::SNumber(v as int),
        Term::TextTerm(s) => STerm::SText(s@),
        Term::IdTerm { name, positive } => STerm::SId(name@, positive),
        Term::FunctionTerm { name, args, positive } => STerm::SFunction(
            name@,
            term_views(args@),
            positive,
        ),
    }
}

/// The views of a sequence of terms.
pub open spec fn term_views(ts: Seq<Term>) -> Seq<STerm>
    decreases ts, 0int,
{
    if ts.len() == 0 {
        Seq::empty()
    } else {
        term_views(ts.drop_last()).push(term_view(ts.last()))
    }
}

/// The views of a sequence of terms, element by element.
pub proof fn lemma_term_views(ts: Seq<Term>)
    ensures
        term_views(ts).len() == ts.len(),
        forall|i: int| 0 <= i < ts.len() ==> term_views(ts)[i] == term_view(#[trigger] ts[i]),
    decreases ts.len(),
{
    if ts.len() > 0 {
        lemma_term_views(ts.drop_last());
        assert forall|i: int| 0 <= i < ts.len() implies term_views(ts)[i] == term_view(
            #[trigger] ts[i],
        ) by {
            if i < ts.len() - 1 {
                assert(ts.drop_last()[i] == ts[i]);
                assert(term_views(ts)[i] == term_views(ts.drop_last())[i]);
            } else {
                assert(ts.last() == ts[i]);
            }
        }
    }
}

impl View for Term {
    type V = STerm;

    open spec fn view(&self) -> STerm {
        term_view(*self)
    }
}

/// Builds a numeric term from a 32-bit signed integer. Never fails.
pub fn create_number(value: i32) -> (t: Term)
    ensures
        t@ == STerm::SNumber(value as int),
{
    Term::NumberTerm(value)
}

/// Builds a string term. The backend's charset is modeled as ASCII: exactly
/// the ASCII texts are representable, any other text is refused.
pub fn create_string(text: String) -> (r: Result<Term, ConversionError>)
    ensures
        is_ascii_chars(text@) ==> (r matches Ok(t) && t@ == STerm::SText(text@)),
        !is_ascii_chars(text@) ==> (r matches Err(e) && e@ == SConvError::SUnrepresentableText(
            text@,
        )),
{
    if text.as_str().is_ascii() {
        Ok(Term::TextTerm(text))
    } else {
        Err(ConversionError::UnrepresentableText { text })
    }
}

/// Builds a zero-argument atomic identifier. Never fails.
pub fn create_id(name: String, positive: bool) -> (t: Term)
    ensures
        t@ == STerm::SId(name@, positive),
{
    Term::IdTerm { name, positive }
}

/// Builds a named function term over the given arguments, in order. Fails
/// exactly when the name is empty; the modeled backend's arity is bounded by
/// the machine alone, so no argument count is refused.
pub fn create_function(name: String, args: Vec<Term>, positive: bool) -> (r: Result<
    Term,
    ConversionError,
>)
    ensures
        name@.len() == 0 ==> (r matches Err(e) && e@ == SConvError::SEmptyName),
        name@.len() > 0 ==> (r matches Ok(t) && t@ == STerm::SFunction(
            name@,
            term_views(args@),
            positive,
        )),
{
    if name.as_str().is_empty() {
        Err(ConversionError::EmptyName)
    } else {
        let t = Term::FunctionTerm { name, args, positive };
        proof {
            assert(t@ matches STerm::SFunction(n, a, p) && a =~= term_views(args@));
        }
        Ok(t)
    }
}

} // verus!
