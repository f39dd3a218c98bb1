use vstd::prelude::*;

use crate::codec::ParseError;

verus! {

/// One name/value attribute of a document element.
pub struct Attribute {
    pub name: String,
    pub value: String,
}

/// The mathematical form of an attribute: its name and its value as text.
pub type AttrView = (Seq<char>, Seq<char>);

impl Attribute {
    pub open spec fn view(&self) -> AttrView {
        (self.name@, self.value@)
    }

    pub fn new(name: &str, value: String) -> (r: Attribute)
        ensures
            r.view() == (name@, value@),
    {
        Attribute { name: String::from_str(name), value }
    }
}

/// The attribute list as a sequence of name/value texts.
pub open spec fn attrs_view(v: Seq<Attribute>) -> Seq<AttrView> {
    v.map_values(|a: Attribute| a.view())
}

/// Applies `step` to each attribute in turn, starting from `start`; the first
/// error stops the walk and is the result.
pub open spec fn apply_attributes<S>(
    start: S,
    attrs: Seq<AttrView>,
    step: spec_fn(S, AttrView) -> Result<S, ParseError>,
) -> Result<S, ParseError>
    decreases attrs.len(),
{
    if attrs.len() == 0 {
        Ok(start)
    } else {
        match apply_attributes(start, attrs.drop_last(), step) {
            Ok(s) => step(s, attrs.last()),
            Err(e) => Err(e),
        }
    }
}

/// Once a prefix of the attributes fails, the whole list fails with the same error.
pub proof fn lemma_error_persists<S>(
    start: S,
    attrs: Seq<AttrView>,
    step: spec_fn(S, AttrView) -> Result<S, ParseError>,
    k: int,
)
    requires
        0 <= k <= attrs.len(),
        apply_attributes(start, attrs.take(k), step) is Err,
    ensures
        apply_attributes(start, attrs, step) == apply_attributes(start, attrs.take(k), step),
    decreases attrs.len() - k,
{
    if k < attrs.len() {
        let next = attrs.take(k + 1);
        assert(next.drop_last() =~= attrs.take(k));
        lemma_error_persists(start, attrs, step, k + 1);
    } else {
        assert(attrs.take(k) =~= attrs);
    }
}

/// Taking one more attribute of the list applies one more step.
pub proof fn lemma_apply_next<S>(
    start: S,
    attrs: Seq<AttrView>,
    step: spec_fn(S, AttrView) -> Result<S, ParseError>,
    k: int,
)
    requires
        0 <= k < attrs.len(),
    ensures
        apply_attributes(start, attrs.take(k + 1), step) == match apply_attributes(
            start,
            attrs.take(k),
            step,
        ) {
            Ok(s) => step(s, attrs[k]),
            Err(e) => Err(e),
        },
{
    assert(attrs.take(k + 1).drop_last() =~= attrs.take(k));
}

} // verus!
