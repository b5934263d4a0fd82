use vstd::prelude::*;

verus! {

use crate::Cause;
use crate::IsoError;

/// A type-erased error value: one of the error kinds that can take part in
/// aggregation.
#[derive(Debug)]
pub enum ErrorValue {
    Named(IsoError),
    Multi(MultiError),
}

/// An aggregate error: an ordered sequence of underlying errors presented
/// as one error value. It renders as the underlying errors' texts joined
/// by newlines and declares no primary cause of its own.
#[derive(Debug)]
pub struct MultiError {
    pub errors: Vec<ErrorValue>,
}

/// The rendered text of one type-erased error value: a named error shows
/// its message alone; an aggregate shows its joined lines.
pub open spec fn value_display(e: ErrorValue) -> Seq<char>
    decreases e,
{
    match e {
        ErrorValue::Named(n) => n.message@,
        ErrorValue::Multi(m) => list_display(m.errors@),
    }
}

/// The rendered texts of a sequence of error values, in order, joined by a
/// newline between consecutive entries. An empty sequence renders empty.
pub open spec fn list_display(errs: Seq<ErrorValue>) -> Seq<char>
    decreases errs,
{
    if errs.len() == 0 {
        Seq::empty()
    } else if errs.len() == 1 {
        value_display(errs[0])
    } else {
        list_display(errs.subrange(0, errs.len() - 1)) + seq!['\n'] + value_display(
            errs[errs.len() - 1],
        )
    }
}

/// Structural equivalence of two type-erased error values: same variant,
/// with equal texts and equivalent children throughout.
pub open spec fn value_equiv(a: ErrorValue, b: ErrorValue) -> bool
    decreases a,
{
    match (a, b) {
        (ErrorValue::Named(x), ErrorValue::Named(y)) => crate::iso_equiv(x, y),
        (ErrorValue::Multi(x), ErrorValue::Multi(y)) => value_list_equiv(x.errors@, y.errors@),
        _ => false,
    }
}

/// Pointwise structural equivalence of two sequences of error values.
pub open spec fn value_list_equiv(x: Seq<ErrorValue>, y: Seq<ErrorValue>) -> bool
    decreases x,
{
    x.len() == y.len() && forall|i: int| 0 <= i < x.len() ==> value_equiv(#[trigger] x[i], y[i])
}

/// The given errors wrapped, in order, as type-erased error values.
pub open spec fn as_error_values(causes: Seq<IsoError>) -> Seq<ErrorValue> {
    causes.map(|i: int, c: IsoError| ErrorValue::Named(c))
}

/// The rendered texts of the given errors, in order.
pub open spec fn displays_of(causes: Seq<IsoError>) -> Seq<Seq<char>> {
    causes.map(|i: int, c: IsoError| crate::iso_display(c))
}

/// Texts joined with a newline between consecutive parts; no newline is
/// added before the first part or after the last, and zero parts join to
/// empty text.
pub open spec fn joined_lines(parts: Seq<Seq<char>>) -> Seq<char>
    decreases parts.len(),
{
    if parts.len() == 0 {
        Seq::empty()
    } else if parts.len() == 1 {
        parts[0]
    } else {
        joined_lines(parts.subrange(0, parts.len() - 1)) + seq!['\n'] + parts[parts.len() - 1]
    }
}

/// An aggregate built over a sequence of errors renders as those errors'
/// own texts joined by newline, in the original order: its text is fixed
/// by the causes' texts alone.
pub proof fn lemma_aggregate_display(agg: Seq<ErrorValue>, causes: Seq<IsoError>)
    requires
        value_list_equiv(agg, as_error_values(causes)),
    ensures
        list_display(agg) == joined_lines(displays_of(causes)),
    decreases agg.len(),
{
    let parts = displays_of(causes);
    assert(agg.len() == causes.len());
    assert(parts.len() == causes.len());
    if agg.len() == 0 {
    } else if agg.len() == 1 {
        assert(value_equiv(agg[0], as_error_values(causes)[0]));
        assert(as_error_values(causes)[0] == ErrorValue::Named(causes[0]));
        assert(value_display(agg[0]) == causes[0].message@);
        assert(parts[0] == crate::iso_display(causes[0]));
        assert(list_display(agg) == value_display(agg[0]));
        assert(joined_lines(parts) == parts[0]);
    } else {
        let n = agg.len();
        let agg_pre = agg.subrange(0, n - 1);
        let causes_pre = causes.subrange(0, n - 1);
        assert(as_error_values(causes_pre) =~= as_error_values(causes).subrange(0, n - 1));
        assert(value_list_equiv(agg_pre, as_error_values(causes_pre))) by {
            assert(forall|i: int| 0 <= i < n - 1 ==> value_equiv(
                #[trigger] agg_pre[i],
                as_error_values(causes_pre)[i],
            )) by {
                assert(forall|i: int| 0 <= i < n - 1 ==> agg_pre[i] == agg[i]);
            }
        }
        lemma_aggregate_display(agg_pre, causes_pre);
        assert(displays_of(causes_pre) =~= parts.subrange(0, n - 1));
        assert(value_equiv(agg[n - 1], as_error_values(causes)[n - 1]));
        assert(as_error_values(causes)[n - 1] == ErrorValue::Named(causes[n - 1]));
        assert(value_display(agg[n - 1]) == parts[n - 1]);
        assert(joined_lines(displays_of(causes_pre)) == joined_lines(parts.subrange(0, n - 1)));
        assert(list_display(agg) == list_display(agg_pre) + seq!['\n'] + value_display(agg[n - 1]));
        assert(joined_lines(parts) == joined_lines(parts.subrange(0, n - 1)) + seq!['\n'] + parts[n
            - 1]);
    }
}

impl MultiError {
    /// An aggregate over exactly the given sequence, preserving order.
    pub fn new(errors: Vec<ErrorValue>) -> (r: Self)
        ensures
            r.errors == errors,
    {
        MultiError { errors }
    }

    /// The rendered text: each underlying error's own text, joined with a
    /// newline, in input order. Does not recurse into the underlying
    /// errors' causes.
    pub fn display(&self) -> (r: String)
        ensures
            r@ == list_display(self.errors@),
        decreases *self,
    {
        let mut out = String::new();
        let mut i: usize = 0;
        while i < self.errors.len()
            invariant
                i <= self.errors.len(),
                out@ == list_display(self.errors@.subrange(0, i as int)),
            decreases self.errors.len() - i,
        {
            if i > 0 {
                out.append("\n");
            }
            let part = self.errors[i].display();
            out.append(part.as_str());
            proof {
                let pre = self.errors@.subrange(0, i as int);
                let post = self.errors@.subrange(0, i + 1 as int);
                assert(post.subrange(0, post.len() - 1) =~= pre);
                assert(post[post.len() - 1] == self.errors@[i as int]);
                assert("\n"@ =~= seq!['\n']) by {
                    reveal_strlit("\n");
                }
            }
            i = i + 1;
        }
        proof {
            assert(self.errors@.subrange(0, self.errors@.len() as int) =~= self.errors@);
        }
        out
    }

    /// An aggregate declares no single upstream cause.
    pub fn cause(&self) -> (r: Option<&Cause>)
        ensures
            r is None,
    {
        None
    }
}

impl ErrorValue {
    /// The rendered text of this error value.
    pub fn display(&self) -> (r: String)
        ensures
            r@ == value_display(*self),
        decreases *self,
    {
        match self {
            ErrorValue::Named(n) => n.display(),
            ErrorValue::Multi(m) => m.display(),
        }
    }

    /// The primary cause: a named error's recorded cause, if any; an
    /// aggregate has none.
    pub fn cause(&self) -> (r: Option<&Cause>)
        ensures
            match *self {
                ErrorValue::Named(n) => match n.source_error {
                    Some(c) => r matches Some(rc) && *rc == c,
                    None => r is None,
                },
                ErrorValue::Multi(_) => r is None,
            },
    {
        match self {
            ErrorValue::Named(n) => n.cause(),
            ErrorValue::Multi(m) => m.cause(),
        }
    }
}

/// A deep copy of a whole list of error values, pointwise equivalent to it.
fn clone_value_list(v: &Vec<ErrorValue>) -> (res: Vec<ErrorValue>)
    ensures
        value_list_equiv(res@, v@),
    decreases *v,
{
    let mut res: Vec<ErrorValue> = Vec::new();
    let mut i: usize = 0;
    while i < v.len()
        invariant
            i <= v.len(),
            res@.len() == i,
            forall|j: int| 0 <= j < i ==> value_equiv(#[trigger] res@[j], v@[j]),
        decreases v.len() - i,
    {
        res.push(v[i].clone());
        i = i + 1;
    }
    res
}

impl Clone for MultiError {
    /// A deep copy, structurally equivalent to the original.
    fn clone(&self) -> (res: Self)
        ensures
            value_list_equiv(res.errors@, self.errors@),
        decreases *self,
    {
        MultiError { errors: clone_value_list(&self.errors) }
    }
}

impl Clone for ErrorValue {
    /// A deep copy, structurally equivalent to the original.
    fn clone(&self) -> (res: Self)
        ensures
            value_equiv(res, *self),
        decreases *self,
    {
        match self {
            ErrorValue::Named(n) => ErrorValue::Named(n.clone()),
            ErrorValue::Multi(m) => ErrorValue::Multi(m.clone()),
        }
    }
}

} // verus!
