//! Action trigger boundary: the payload handed to the version-control and
//! forge collaborators on confirmation. The collaborators themselves are
//! out of scope; this module fixes exactly what they receive.

use vstd::prelude::*;

use crate::session::{copy_chars, FileView, Session};

verus! {

/// Everything the action trigger passes to the collaborators: the names of
/// the entries marked selected (to stage, in list order), the commit
/// message, and the pull-request title. Empty selections and empty buffers
/// are passed through as they stand; no validation happens here.
pub struct ConfirmRequest {
    pub files_to_stage: Vec<String>,
    pub commit_message: Vec<char>,
    pub pr_title: Vec<char>,
}

/// The names of the entries marked selected, in list order.
pub open spec fn selected_names(files: Seq<FileView>) -> Seq<Seq<char>> {
    files.filter(|f: FileView| f.selected).map_values(|f: FileView| f.name)
}

impl Session {
    /// Builds the trigger's payload: precisely the selected entries' names
    /// and the verbatim contents of both buffers.
    pub fn confirmation_request(&self) -> (r: ConfirmRequest)
        ensures
            r.files_to_stage.deep_view() == selected_names(self@.files),
            r.commit_message@ == self@.commit_message,
            r.pr_title@ == self@.pr_title,
    {
        let ghost all = self@.files;
        let mut names: Vec<String> = Vec::new();
        let mut i: usize = 0;
        while i < self.files.len()
            invariant
                i <= all.len(),
                all == self@.files,
                self@.files.len() == self.files@.len(),
                names.deep_view() == selected_names(all.take(i as int)),
            decreases self.files@.len() - i,
        {
            let ghost pre = names.deep_view();
            if self.files[i].selected {
                names.push(self.files[i].name.clone());
            }
            proof {
                reveal_with_fuel(Seq::filter, 2);
                let p = |f: FileView| f.selected;
                let g = |f: FileView| f.name;
                let taken = all.take(i + 1 as int);
                assert(taken.drop_last() =~= all.take(i as int));
                assert(taken.last() == all[i as int]);
                if p(all[i as int]) {
                    assert(taken.filter(p) == all.take(i as int).filter(p).push(all[i as int]));
                    assert(taken.filter(p).map_values(g) =~= all.take(i as int).filter(p).map_values(
                        g,
                    ).push(all[i as int].name));
                    assert(names.deep_view() =~= pre.push(all[i as int].name));
                } else {
                    assert(taken.filter(p) == all.take(i as int).filter(p));
                }
                assert(names.deep_view() == selected_names(all.take(i + 1 as int)));
            }
            i = i + 1;
        }
        proof {
            assert(all.take(all.len() as int) =~= all);
        }
        ConfirmRequest {
            files_to_stage: names,
            commit_message: copy_chars(&self.commit_message),
            pr_title: copy_chars(&self.pr_title),
        }
    }
}

} // verus!
