//! The pure half of the selection step: the widget returns the chosen index
//! or nothing, and this module turns that into the title to copy.

use vstd::prelude::*;

use crate::models::MovieData;

verus! {

/// The title of the candidate the user picked, or nothing when the user
/// aborted the selection. Aborting is an ordinary outcome, not an error.
pub fn chosen_title(movies: &Vec<MovieData>, selection: Option<usize>) -> (r: Option<String>)
    requires
        selection matches Some(i) ==> i < movies@.len(),
    ensures
        r is Some <==> selection is Some,
        selection matches Some(i) ==> r matches Some(t) && t@ == movies@[i as int].title@,
{
    match selection {
        Option::Some(index) => Option::Some(movies[index].title.clone()),
        Option::None => Option::None,
    }
}

} // verus!
