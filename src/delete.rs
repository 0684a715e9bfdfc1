//! Deletion rules: what may be removed, and how it is reported.

use vstd::prelude::*;
use vstd::string::StringExecFns;
use crate::resolve::{lookup_view, names, path_within, same_path, within, Lookup};

verus! {

/// The kind of entry removed.
#[derive(Clone, Copy, Debug, PartialEq, Eq, Structural)]
pub enum EntryKind {
    Directory,
    File,
}

/// Why a deletion was refused.
#[derive(Clone, Copy, Debug, PartialEq, Eq, Structural)]
pub enum DeleteError {
    /// Nothing exists at the target.
    NotFound,
    /// The target is the root itself.
    RootDeletion,
    /// The canonical target lies outside the root.
    Forbidden,
}

impl DeleteError {
    pub open spec fn spec_status(self) -> u16 {
        match self {
            DeleteError::NotFound => 404,
            DeleteError::RootDeletion => 403,
            DeleteError::Forbidden => 403,
        }
    }

    /// The HTTP status that reports this refusal.
    pub fn status(&self) -> (r: u16)
        ensures
            r == self.spec_status(),
    {
        match self {
            DeleteError::NotFound => 404,
            DeleteError::RootDeletion => 403,
            DeleteError::Forbidden => 403,
        }
    }

    /// The message reported with this refusal.
    pub fn message(&self) -> (r: String)
        ensures
            r@ == match self {
                DeleteError::NotFound => "文件或目录不存在"@,
                DeleteError::RootDeletion => "不能删除根目录"@,
                DeleteError::Forbidden => "禁止访问"@,
            },
    {
        match self {
            DeleteError::NotFound => String::from_str("文件或目录不存在"),
            DeleteError::RootDeletion => String::from_str("不能删除根目录"),
            DeleteError::Forbidden => String::from_str("禁止访问"),
        }
    }
}

/// What deleting the looked-up target does: a missing target is not found; the
/// root itself is never removed; a target outside the root is forbidden; a
/// directory is removed with its contents, a file alone.
pub open spec fn deletion(root: Seq<Seq<u8>>, l: Option<(Seq<Seq<u8>>, bool)>) -> Result<
    EntryKind,
    DeleteError,
> {
    match l {
        None => Err(DeleteError::NotFound),
        Some((p, is_dir)) => if p == root {
            Err(DeleteError::RootDeletion)
        } else if !within(root, p) {
            Err(DeleteError::Forbidden)
        } else if is_dir {
            Ok(EntryKind::Directory)
        } else {
            Ok(EntryKind::File)
        },
    }
}

/// Decides a deletion.
pub fn plan_delete(root: &[Vec<u8>], lookup: &Lookup) -> (r: Result<EntryKind, DeleteError>)
    ensures
        r == deletion(names(root@), lookup_view(*lookup)),
{
    match lookup {
        Lookup::Missing => Err(DeleteError::NotFound),
        Lookup::Found { path, is_dir } => {
            if same_path(root, path.as_slice()) {
                Err(DeleteError::RootDeletion)
            } else if !path_within(root, path.as_slice()) {
                Err(DeleteError::Forbidden)
            } else if *is_dir {
                Ok(EntryKind::Directory)
            } else {
                Ok(EntryKind::File)
            }
        },
    }
}

/// The message reported after a removal.
pub fn deleted_message(kind: EntryKind) -> (r: String)
    ensures
        r@ == match kind {
            EntryKind::Directory => "目录删除成功"@,
            EntryKind::File => "文件删除成功"@,
        },
{
    match kind {
        EntryKind::Directory => String::from_str("目录删除成功"),
        EntryKind::File => String::from_str("文件删除成功"),
    }
}

/// Deleting a path that no longer exists answers 404, and deleting the root
/// answers 403 whatever the root holds; no deletion ever removes anything
/// outside the root or the root itself.
pub proof fn lemma_delete_refusals(root: Seq<Seq<u8>>, l: Option<(Seq<Seq<u8>>, bool)>)
    ensures
        l is None ==> (deletion(root, l) matches Err(e) && e.spec_status() == 404),
        (l matches Some((p, _)) && p == root) ==> (deletion(root, l) matches Err(e)
            && e.spec_status() == 403),
        deletion(root, l) is Ok ==> (l matches Some((p, _)) && within(root, p) && p != root),
{
}

} // verus!
