//! Change notifications and the filter that decides which of them lead to a
//! copy.

use vstd::prelude::*;
use crate::paths::{file_name_ends_with, file_name_of, has_suffix};

verus! {

/// One logical change under the watched folder, after coalescing.
pub enum FileSystemEvent {
    Created(String),
    Modified(String),
    Removed(String),
    AttributesChanged(String),
    /// The old path, then the new one.
    Renamed(String, String),
    Other,
}

/// Why an event leads to no copy.
#[derive(PartialEq, Eq, Structural, Clone, Copy, Debug)]
pub enum Rejection {
    /// The kind of change is not one that is copied.
    ByKind,
    /// The file name does not end with the configured extension.
    ByExtension,
}

/// What the filter decided of one event.
pub enum Classification {
    /// Copy the file at this path.
    Accept(String),
    Reject(Rejection),
}

/// The path of a change that may be copied: that of a creation or a
/// modification.
pub open spec fn changed_path(e: FileSystemEvent) -> Option<Seq<char>> {
    match e {
        FileSystemEvent::Created(p) => Some(p@),
        FileSystemEvent::Modified(p) => Some(p@),
        _ => None,
    }
}

/// The file at `path` passes the extension filter `ext`: the filter is empty,
/// or the path has a file name that ends with `ext`.
pub open spec fn passes_filter(path: Seq<char>, ext: Seq<char>) -> bool {
    ext.len() == 0 || (file_name_of(path) matches Some(name) && has_suffix(name, ext))
}

/// The path that event `e` has copied under filter `ext`, if any.
pub open spec fn copy_source(e: FileSystemEvent, ext: Seq<char>) -> Option<Seq<char>> {
    match changed_path(e) {
        Some(p) => if passes_filter(p, ext) {
            Some(p)
        } else {
            None
        },
        None => None,
    }
}

/// The filter's decision on `e` under extension filter `ext`, in full.
pub open spec fn classifies_as(e: FileSystemEvent, ext: Seq<char>, c: Classification) -> bool {
    match changed_path(e) {
        None => c == Classification::Reject(Rejection::ByKind),
        Some(p) => if passes_filter(p, ext) {
            c matches Classification::Accept(q) && q@ == p
        } else {
            c == Classification::Reject(Rejection::ByExtension)
        },
    }
}

/// An empty extension filter lets every path pass.
pub proof fn lemma_empty_filter_passes_all(path: Seq<char>, ext: Seq<char>)
    requires
        ext.len() == 0,
    ensures
        passes_filter(path, ext),
{
}

/// Decides whether `event` leads to a copy under extension filter `ext`.
///
/// Creations and modifications are accepted when `ext` is empty or the file
/// name of their path ends with `ext`; every other kind of change is
/// rejected.
pub fn classify(event: &FileSystemEvent, ext: &str) -> (r: Classification)
    ensures
        classifies_as(*event, ext@, r),
        copy_source(*event, ext@) == (match r {
            Classification::Accept(p) => Some(p@),
            Classification::Reject(_) => None::<Seq<char>>,
        }),
{
    let path = match event {
        FileSystemEvent::Created(p) => p,
        FileSystemEvent::Modified(p) => p,
        _ => {
            return Classification::Reject(Rejection::ByKind);
        },
    };
    if ext.unicode_len() == 0 || file_name_ends_with(path.as_str(), ext) {
        Classification::Accept(path.clone())
    } else {
        Classification::Reject(Rejection::ByExtension)
    }
}

} // verus!
