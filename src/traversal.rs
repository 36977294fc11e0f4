use crate::errors::TraversingError;
use vstd::prelude::*;

verus! {

/// The one node that a path must match in a document, out of all the nodes
/// that it matched there. No match is `PathNotFound`, more than one is
/// `MultipleNode`; both carry the path.
pub fn traverse_single<N>(path: &str, matched: Vec<N>) -> (r: Result<N, TraversingError>)
    ensures
        matched@.len() == 0 ==> (r matches Err(TraversingError::PathNotFound(p)) && p@ == path@),
        matched@.len() == 1 ==> r == Ok::<N, TraversingError>(matched@[0]),
        matched@.len() > 1 ==> (r matches Err(TraversingError::MultipleNode(p)) && p@ == path@),
{
    let mut matched = matched;
    if matched.len() > 1 {
        return Err(TraversingError::MultipleNode(path.to_owned()));
    }
    match matched.pop() {
        Some(node) => Ok(node),
        None => Err(TraversingError::PathNotFound(path.to_owned())),
    }
}

} // verus!
