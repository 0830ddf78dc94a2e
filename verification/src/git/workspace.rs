//! The directory that a scan works in: one for each scan, named by the scan.
use vstd::prelude::*;
use crate::text::{chars_end_with, chars_start_with, push_text, to_chars};

verus! {

/// A path with one more component: the component alone where it is
/// absolute or the path is empty, else the path and the component with one
/// `/` between them.
pub open spec fn joined(base: Seq<char>, component: Seq<char>) -> Seq<char> {
    if "/"@.is_prefix_of(component) || base.len() == 0 {
        component
    } else if "/"@.is_suffix_of(base) {
        base + component
    } else {
        base + "/"@ + component
    }
}

/// The workspace of one scan.
pub struct Workspace {
    pub base_dir: String,
    pub scan_id: String,
}

impl Workspace {
    /// The workspace of the scan `scan_id` under `base_dir`.
    pub fn new(base_dir: String, scan_id: String) -> (workspace: Self)
        ensures
            workspace.base_dir == base_dir,
            workspace.scan_id == scan_id,
    {
        Workspace { base_dir, scan_id }
    }

    /// Get the workspace path: the base directory with the scan's identity
    /// as the last component.
    pub fn path(&self) -> (path: String)
        ensures
            path@ == joined(self.base_dir@, self.scan_id@),
    {
        let base = to_chars(self.base_dir.as_str());
        let component = to_chars(self.scan_id.as_str());
        let slash = to_chars("/");
        if chars_start_with(&component, &slash) || base.len() == 0 {
            self.scan_id.clone()
        } else if chars_end_with(&base, &slash) {
            let mut path = self.base_dir.clone();
            push_text(&mut path, self.scan_id.as_str());
            path
        } else {
            let mut path = self.base_dir.clone();
            push_text(&mut path, "/");
            push_text(&mut path, self.scan_id.as_str());
            path
        }
    }
}

} // verus!
