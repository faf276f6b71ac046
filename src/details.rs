//! The details panel.
use vstd::prelude::*;
use crate::format::{concat3, to_owned_string};
use crate::git::Commit;

verus! {

/// What the details panel shows for a commit, if one is chosen.
pub struct DetailsView<'a> {
    pub commit: Option<&'a Commit>,
}

impl<'a> DetailsView<'a> {
    pub fn new(commit: Option<&'a Commit>) -> (r: Self)
        ensures
            r.commit == commit,
    {
        DetailsView { commit }
    }

    /// The panel's text.
    pub fn message(&self) -> (r: String)
        ensures
            r@ == (match self.commit {
                Some(c) => "Details for \""@ + c.summary@ + "\" are not implemented yet"@,
                None => "Select a commit to view details"@,
            }),
    {
        match self.commit {
            Some(c) => concat3("Details for \"", c.summary.as_str(), "\" are not implemented yet"),
            None => to_owned_string("Select a commit to view details"),
        }
    }
}

} // verus!
