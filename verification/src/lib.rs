//! Structured, causable errors: a named error type (`IsoError`) with an
//! optional list of underlying causes, and an aggregate (`MultiError`) that
//! bundles several errors into one reportable value.

pub mod multi_error;

use vstd::prelude::*;

verus! {

use crate::multi_error::MultiError;
use crate::multi_error::list_display;

/// A structured error with a short `name`, a human-readable `message`, an
/// optional ordered list of underlying errors (`errors`), and an optional
/// designated primary cause (`source_error`).
#[derive(Debug)]
pub struct IsoError {
    pub name: String,
    pub message: String,
    pub errors: Option<Vec<IsoError>>,
    pub source_error: Option<Cause>,
}

/// The primary cause of an `IsoError`: either one underlying error, or an
/// aggregate synthesized over a list of underlying errors.
#[derive(Debug)]
pub enum Cause {
    Single(Box<IsoError>),
    Aggregate(MultiError),
}

/// The rendered text of an `IsoError`: its message alone. Rendering is
/// deliberately shallow; causes are never part of it.
pub open spec fn iso_display(e: IsoError) -> Seq<char> {
    e.message@
}

/// The rendered text of a primary cause: the single error's own text, or
/// the aggregate's joined text.
pub open spec fn cause_display(c: Cause) -> Seq<char> {
    match c {
        Cause::Single(e) => iso_display(*e),
        Cause::Aggregate(m) => list_display(m.errors@),
    }
}

/// The invariant tying the two cause fields together: whenever a cause
/// list is recorded, the primary cause is a synthesized aggregate over
/// exactly that sequence. (An error built around one single cause records
/// it in `source_error` alone and leaves the list unset.) Every
/// constructor establishes this, and no mutation API exists to break it.
pub open spec fn well_formed(e: IsoError) -> bool {
    e.errors matches Some(cs) ==> e.source_error matches Some(c) && c matches Cause::Aggregate(m)
        && crate::multi_error::value_list_equiv(
        m.errors@,
        crate::multi_error::as_error_values(cs@),
    )
}

/// Structural equivalence of two named errors: equal name and message
/// texts, and pointwise equivalent cause information throughout. Two
/// errors built from the same inputs are equivalent even where their
/// heap-allocated parts are distinct values.
pub open spec fn iso_equiv(a: IsoError, b: IsoError) -> bool
    decreases a,
{
    &&& a.name@ == b.name@
    &&& a.message@ == b.message@
    &&& match (a.errors, b.errors) {
        (Option::None, Option::None) => true,
        (Option::Some(x), Option::Some(y)) => iso_list_equiv(x@, y@),
        _ => false,
    }
    &&& match (a.source_error, b.source_error) {
        (Option::None, Option::None) => true,
        (Option::Some(x), Option::Some(y)) => cause_equiv(x, y),
        _ => false,
    }
}

/// Pointwise structural equivalence of two sequences of named errors.
pub open spec fn iso_list_equiv(x: Seq<IsoError>, y: Seq<IsoError>) -> bool
    decreases x,
{
    x.len() == y.len() && forall|i: int| 0 <= i < x.len() ==> iso_equiv(#[trigger] x[i], y[i])
}

/// Structural equivalence of two primary causes: same variant, with
/// equivalent contents.
pub open spec fn cause_equiv(a: Cause, b: Cause) -> bool
    decreases a,
{
    match (a, b) {
        (Cause::Single(x), Cause::Single(y)) => iso_equiv(*x, *y),
        (Cause::Aggregate(x), Cause::Aggregate(y)) => crate::multi_error::value_list_equiv(
            x.errors@,
            y.errors@,
        ),
        _ => false,
    }
}

impl IsoError {
    /// An error with no cause.
    pub fn new(name: &str, message: &str) -> (r: Self)
        ensures
            r.name@ == name@,
            r.message@ == message@,
            r.errors is None,
            r.source_error is None,
            well_formed(r),
    {
        IsoError {
            name: name.to_owned(),
            message: message.to_owned(),
            errors: None,
            source_error: None,
        }
    }

    /// An error whose primary cause is exactly `cause`, not wrapped in an
    /// aggregate; the cause list stays unset.
    pub fn new_with_cause(name: &str, message: &str, cause: IsoError) -> (r: Self)
        ensures
            r.name@ == name@,
            r.message@ == message@,
            r.errors is None,
            r.source_error matches Some(c) && c matches Cause::Single(e) && *e == cause,
            well_formed(r),
    {
        IsoError {
            name: name.to_owned(),
            message: message.to_owned(),
            errors: None,
            source_error: Some(Cause::Single(Box::new(cause))),
        }
    }

    /// An error whose cause list is exactly `causes` and whose primary
    /// cause is an aggregate synthesized over that same sequence, each
    /// entry type-erased. An empty sequence is allowed: the cause list is
    /// then present but empty, and the aggregate renders as empty text.
    pub fn new_with_causes(name: &str, message: &str, causes: Vec<IsoError>) -> (r: Self)
        ensures
            r.name@ == name@,
            r.message@ == message@,
            r.errors == Some(causes),
            r.source_error matches Some(c) && c matches Cause::Aggregate(m)
                && crate::multi_error::value_list_equiv(
                m.errors@,
                crate::multi_error::as_error_values(causes@),
            ),
            well_formed(r),
    {
        let aggregate = IsoError::from_multi(&causes);
        IsoError {
            name: name.to_owned(),
            message: message.to_owned(),
            errors: Some(causes),
            source_error: Some(Cause::Aggregate(aggregate)),
        }
    }

    /// The aggregate over the given errors: each one copied and
    /// type-erased, in order.
    pub fn from_multi(errors: &Vec<IsoError>) -> (r: MultiError)
        ensures
            crate::multi_error::value_list_equiv(
                r.errors@,
                crate::multi_error::as_error_values(errors@),
            ),
    {
        let mut wrapped: Vec<crate::multi_error::ErrorValue> = Vec::new();
        let mut i: usize = 0;
        while i < errors.len()
            invariant
                i <= errors.len(),
                wrapped@.len() == i,
                forall|j: int| 0 <= j < i ==> crate::multi_error::value_equiv(
                    #[trigger] wrapped@[j],
                    crate::multi_error::as_error_values(errors@)[j],
                ),
            decreases errors.len() - i,
        {
            wrapped.push(crate::multi_error::ErrorValue::Named(errors[i].clone()));
            i = i + 1;
        }
        MultiError::new(wrapped)
    }

    /// A deep copy of a whole list of errors, pointwise equivalent to it.
    fn clone_list(v: &Vec<IsoError>) -> (res: Vec<IsoError>)
        ensures
            iso_list_equiv(res@, v@),
        decreases *v,
    {
        let mut res: Vec<IsoError> = Vec::new();
        let mut i: usize = 0;
        while i < v.len()
            invariant
                i <= v.len(),
                res@.len() == i,
                forall|j: int| 0 <= j < i ==> iso_equiv(#[trigger] res@[j], v@[j]),
            decreases v.len() - i,
        {
            res.push(v[i].clone());
            i = i + 1;
        }
        res
    }

    /// The rendered text: the message alone, whatever causes are recorded.
    pub fn display(&self) -> (r: String)
        ensures
            r@ == iso_display(*self),
    {
        self.message.clone()
    }

    /// The primary cause, if one was recorded; `None` otherwise. Following
    /// `cause` repeatedly walks the chain one level at a time.
    pub fn cause(&self) -> (r: Option<&Cause>)
        ensures
            match self.source_error {
                Some(c) => r matches Some(rc) && *rc == c,
                None => r is None,
            },
    {
        match &self.source_error {
            Some(c) => Some(c),
            None => None,
        }
    }
}

impl Cause {
    /// The rendered text of this cause: a single underlying error's own
    /// text, or an aggregate's joined lines.
    pub fn display(&self) -> (r: String)
        ensures
            r@ == cause_display(*self),
    {
        match self {
            Cause::Single(e) => e.display(),
            Cause::Aggregate(m) => m.display(),
        }
    }

    /// One more step along the chain: a single underlying error's own
    /// recorded cause, if any; an aggregate declares none.
    pub fn cause(&self) -> (r: Option<&Cause>)
        ensures
            match *self {
                Cause::Single(e) => match e.source_error {
                    Some(c) => r matches Some(rc) && *rc == c,
                    None => r is None,
                },
                Cause::Aggregate(_) => r is None,
            },
    {
        match self {
            Cause::Single(e) => e.cause(),
            Cause::Aggregate(m) => m.cause(),
        }
    }
}

/// Shallow rendering: the displayed text of a named error is fixed by its
/// message alone; recorded causes (and the name) never reach it. Any two
/// errors that share a message render identically, whatever their causes.
pub proof fn lemma_display_shallow(a: IsoError, b: IsoError)
    requires
        a.message@ == b.message@,
    ensures
        iso_display(a) == iso_display(b),
{
}

/// The synthesized primary cause of an error built over a sequence of
/// causes renders as those causes' own texts joined by newline, in the
/// original order.
pub proof fn lemma_synthesized_cause_display(c: Cause, causes: Seq<IsoError>)
    requires
        c matches Cause::Aggregate(m) && crate::multi_error::value_list_equiv(
            m.errors@,
            crate::multi_error::as_error_values(causes),
        ),
    ensures
        cause_display(c) == crate::multi_error::joined_lines(
            crate::multi_error::displays_of(causes),
        ),
{
    match c {
        Cause::Aggregate(m) => {
            crate::multi_error::lemma_aggregate_display(m.errors@, causes);
        },
        _ => {},
    }
}

impl Clone for IsoError {
    /// A deep copy, structurally equivalent to the original.
    fn clone(&self) -> (res: Self)
        ensures
            iso_equiv(res, *self),
        decreases *self,
    {
        IsoError {
            name: self.name.clone(),
            message: self.message.clone(),
            errors: match &self.errors {
                Some(v) => Some(IsoError::clone_list(v)),
                None => None,
            },
            source_error: match &self.source_error {
                Some(c) => Some(c.clone()),
                None => None,
            },
        }
    }
}

impl Clone for Cause {
    /// A deep copy, structurally equivalent to the original.
    fn clone(&self) -> (res: Self)
        ensures
            cause_equiv(res, *self),
        decreases *self,
    {
        match self {
            Cause::Single(e) => Cause::Single(Box::new((**e).clone())),
            Cause::Aggregate(m) => Cause::Aggregate(m.clone()),
        }
    }
}

} // verus!
