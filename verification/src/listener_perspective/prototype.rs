//! Prototype sets: example utterances of one group (such as sign-keeping
//! or strong ones) that the similarity classifiers compare against.

use vstd::prelude::*;
use crate::text::str_eq;
use crate::listener_perspective::types::{ListenerPerspectiveError, LpErrorView};

verus! {

/// One example utterance.
#[derive(Debug, Clone)]
pub struct Prototype {
    pub text: String,
    /// Finer label within the group (gratitude, praise, ...).
    pub subtype: String,
    pub source: Option<String>,
}

/// The examples of one group, from one prototype file.
#[derive(Debug, Clone)]
pub struct PrototypeSet {
    pub group: String,
    pub version: String,
    pub items: Vec<Prototype>,
}

impl PrototypeSet {
    pub fn len(&self) -> (r: usize)
        ensures
            r == self.items@.len(),
    {
        self.items.len()
    }

    pub fn is_empty(&self) -> (r: bool)
        ensures
            r == (self.items@.len() == 0),
    {
        self.items.len() == 0
    }

    /// The example texts, in order.
    pub fn texts(&self) -> (r: Vec<&str>)
        ensures
            r@.len() == self.items@.len(),
            forall|i: int| 0 <= i < r@.len() ==> #[trigger] r@[i]@ == self.items@[i].text@,
    {
        let mut out: Vec<&str> = Vec::new();
        let n = self.items.len();
        let mut i: usize = 0;
        while i < n
            invariant
                n == self.items@.len(),
                i <= n,
                out@.len() == i,
                forall|k: int| 0 <= k < i ==> #[trigger] out@[k]@ == self.items@[k].text@,
            decreases n - i,
        {
            out.push(self.items[i].text.as_str());
            i = i + 1;
        }
        out
    }

    /// Checks the header and items read from a prototype file: the file's
    /// group must be `expected_group` and it must hold at least one item.
    pub fn from_parsed(group: String, version: String, items: Vec<Prototype>, expected_group: &str) -> (r: Result<
        PrototypeSet,
        ListenerPerspectiveError,
    >)
        ensures
            group@ != expected_group@ ==> (r matches Err(e) && e@ == LpErrorView::PrototypeGroupMismatch {
                expected: expected_group@,
                actual: group@,
            }),
            group@ == expected_group@ && items@.len() == 0 ==> (r matches Err(e) && e@
                == LpErrorView::EmptyPrototypes(group@)),
            group@ == expected_group@ && items@.len() > 0 ==> (r matches Ok(set) && set.group == group
                && set.version == version && set.items@ == items@),
    {
        if !str_eq(group.as_str(), expected_group) {
            return Err(ListenerPerspectiveError::PrototypeGroupMismatch { expected: expected_group.to_owned(), actual: group });
        }
        if items.len() == 0 {
            return Err(ListenerPerspectiveError::EmptyPrototypes(group));
        }
        Ok(PrototypeSet { group, version, items })
    }
}

} // verus!
