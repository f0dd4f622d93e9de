//! The event parameter extractor: the first parameter of a given name.

use crate::seek::{first_index, lemma_first_index_found, lemma_first_index_none};
use crate::types::{param_views, DataLogParam, ParamView};
use vstd::prelude::*;

verus! {

/// The property of a parameter to bear the name `name`, letter for letter.
pub open spec fn is_named(name: Seq<char>) -> spec_fn(ParamView) -> bool {
    |p: ParamView| p.name == name
}

/// The parameter that a lookup of `name` yields: the first one of that name,
/// unless its value is empty. A parameter with an empty value counts as
/// absent, whatever follows it.
pub open spec fn find_param(params: Seq<ParamView>, name: Seq<char>) -> Option<ParamView> {
    match first_index(params, is_named(name)) {
        Some(i) => if params[i].value.len() == 0 {
            None
        } else {
            Some(params[i])
        },
        None => None,
    }
}

/// The value that a lookup of `name` yields, empty where it yields nothing.
pub open spec fn param_value(params: Seq<ParamView>, name: Seq<char>) -> Seq<char> {
    match find_param(params, name) {
        Some(p) => p.value,
        None => Seq::empty(),
    }
}

/// The view of a parameter that may be absent.
pub open spec fn found_view(found: Option<&DataLogParam>) -> Option<ParamView> {
    match found {
        Some(p) => Some(p@),
        None => None,
    }
}

/// Looks up the first parameter called `name`. A parameter with an empty
/// value is not handed out.
pub fn find<'a>(params: &'a Vec<DataLogParam>, name: &str) -> (res: Option<&'a DataLogParam>)
    ensures
        found_view(res) == find_param(param_views(params@), name@),
        res matches Some(p) ==> p.name@ == name@ && p.value@.len() > 0,
{
    let wanted: String = String::from_str(name);
    let ghost views = param_views(params@);
    let mut i: usize = 0;
    while i < params.len()
        invariant
            i <= params.len(),
            wanted@ == name@,
            views == param_views(params@),
            forall|j: int| 0 <= j < i ==> !is_named(name@)(#[trigger] views[j]),
        decreases params.len() - i,
    {
        if params[i].name == wanted {
            proof {
                lemma_first_index_found(views, is_named(name@), i as int);
            }
            if params[i].value.as_str().is_empty() {
                return None;
            }
            return Some(&params[i]);
        }
        i += 1;
    }
    proof {
        lemma_first_index_none(views, is_named(name@));
    }
    None
}

} // verus!
