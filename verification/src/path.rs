//! Paths, and which of them is a single bare identifier.

use vstd::prelude::*;
use crate::model::PathModel;
use crate::syntax::Path;

verus! {

/// The identifier that a path consists of, where it is a single bare
/// identifier: it has no leading `::`, it has one segment, and no arguments
/// follow that segment.
pub open spec fn single_identifier(path: PathModel) -> Option<Seq<char>> {
    if !path.leading_colon && path.segments.len() == 1 && !path.segments[0].has_arguments {
        Some(path.segments[0].identifier)
    } else {
        None
    }
}

impl Path {
    /// The identifier that the path consists of, where it is a single bare
    /// identifier; `None` for any other path.
    pub fn get_identifier(&self) -> (identifier: Option<&String>)
        ensures
            match single_identifier(self@) {
                Some(name) => identifier is Some && identifier->0@ == name,
                None => identifier is None,
            },
    {
        if !self.leading_colon && self.segments.len() == 1 && !self.segments[0].has_arguments {
            Some(&self.segments[0].identifier)
        } else {
            None
        }
    }
}

} // verus!
