//! Values bound to the parameters of a graph statement.
use vstd::prelude::*;

verus! {

/// A value bound to a query parameter.
#[derive(Debug, Clone, PartialEq)]
pub enum ParamValue {
    Int(i64),
    UInt(u64),
    /// A single-precision float, as its IEEE 754 bit pattern.
    Float(u32),
    Text(String),
    List(Vec<String>),
}

/// What a parameter value denotes.
pub enum ParamValueView {
    Int(int),
    Float(u32),
    Text(Seq<char>),
    List(Seq<Seq<char>>),
}

pub open spec fn strs_view(v: Seq<String>) -> Seq<Seq<char>> {
    v.map_values(|s: String| s@)
}

impl View for ParamValue {
    type V = ParamValueView;

    open spec fn view(&self) -> ParamValueView {
        match self {
            ParamValue::Int(x) => ParamValueView::Int(*x as int),
            ParamValue::UInt(x) => ParamValueView::Int(*x as int),
            ParamValue::Float(b) => ParamValueView::Float(*b),
            ParamValue::Text(s) => ParamValueView::Text(s@),
            ParamValue::List(v) => ParamValueView::List(strs_view(v@)),
        }
    }
}

/// A named parameter of a query.
#[derive(Debug, Clone, PartialEq)]
pub struct QueryParam {
    pub name: String,
    pub value: ParamValue,
}

pub type ParamEntry = (Seq<char>, ParamValueView);

/// The names and denoted values of a list of parameters.
pub open spec fn params_view(ps: Seq<QueryParam>) -> Seq<ParamEntry> {
    ps.map_values(|p: QueryParam| (p.name@, p.value@))
}

/// A copy of a list of texts.
pub(crate) fn clone_strings(v: &Vec<String>) -> (r: Vec<String>)
    ensures
        r@ == v@,
{
    let mut r: Vec<String> = Vec::new();
    let n = v.len();
    let mut i: usize = 0;
    while i < n
        invariant
            n == v@.len(),
            i <= n,
            r@ == v@.subrange(0, i as int),
        decreases n - i,
    {
        r.push(v[i].clone());
        i = i + 1;
        assert(r@ =~= v@.subrange(0, i as int));
    }
    assert(v@.subrange(0, n as int) =~= v@);
    r
}

} // verus!
