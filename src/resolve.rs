//! Containment of request targets in the served root.
//!
//! Paths are canonical absolute paths given as their components (the bytes of
//! each name, root directory first). The caller canonicalizes through the
//! filesystem; the decision whether the result may be touched is made here,
//! after canonicalization and never before it.

use vstd::prelude::*;

verus! {

/// The names of a path's components.
pub open spec fn names(p: Seq<Vec<u8>>) -> Seq<Seq<u8>> {
    p.map_values(|v: Vec<u8>| v@)
}

/// `p` lies in `root` or is `root` itself, compared component by component.
pub open spec fn within(root: Seq<Seq<u8>>, p: Seq<Seq<u8>>) -> bool {
    root.len() <= p.len() && p.subrange(0, root.len() as int) == root
}

/// What the filesystem reported for a request target after canonicalization.
pub enum Lookup {
    /// Canonicalization failed: nothing exists at the target.
    Missing,
    /// The canonical path and whether it names a directory.
    Found { path: Vec<Vec<u8>>, is_dir: bool },
}

/// A target known to lie in the root.
pub struct Resolved {
    pub path: Vec<Vec<u8>>,
    pub is_dir: bool,
}

/// Why a target was refused.
#[derive(Clone, Copy, Debug, PartialEq, Eq, Structural)]
pub enum ResolveError {
    /// Nothing exists there; answered with 404.
    NotFound,
    /// The canonical target lies outside the root; answered with 403.
    Forbidden,
}

impl ResolveError {
    pub open spec fn spec_status(self) -> u16 {
        match self {
            ResolveError::NotFound => 404,
            ResolveError::Forbidden => 403,
        }
    }

    /// The HTTP status that reports this refusal.
    pub fn status(&self) -> (r: u16)
        ensures
            r == self.spec_status(),
    {
        match self {
            ResolveError::NotFound => 404,
            ResolveError::Forbidden => 403,
        }
    }
}

/// Compares two names byte by byte.
pub fn same_name(a: &[u8], b: &[u8]) -> (r: bool)
    ensures
        r == (a@ == b@),
{
    if a.len() != b.len() {
        return false;
    }
    let mut i: usize = 0;
    while i < a.len()
        invariant
            a@.len() == b@.len(),
            0 <= i <= a@.len(),
            forall|j: int| 0 <= j < i ==> a@[j] == b@[j],
        decreases a@.len() - i,
    {
        if a[i] != b[i] {
            return false;
        }
        i = i + 1;
    }
    assert(a@ =~= b@);
    true
}

/// Whether `p` lies in `root` (or is `root`).
pub fn path_within(root: &[Vec<u8>], p: &[Vec<u8>]) -> (r: bool)
    ensures
        r == within(names(root@), names(p@)),
{
    if root.len() > p.len() {
        return false;
    }
    let mut i: usize = 0;
    while i < root.len()
        invariant
            root@.len() <= p@.len(),
            0 <= i <= root@.len(),
            forall|j: int| 0 <= j < i ==> root@[j]@ == p@[j]@,
        decreases root@.len() - i,
    {
        if !same_name(root[i].as_slice(), p[i].as_slice()) {
            assert(names(p@).subrange(0, root@.len() as int)[i as int] == p@[i as int]@);
            return false;
        }
        i = i + 1;
    }
    assert(names(p@).subrange(0, root@.len() as int) =~= names(root@));
    true
}

/// Whether `p` is `root` itself.
pub fn same_path(root: &[Vec<u8>], p: &[Vec<u8>]) -> (r: bool)
    ensures
        r == (names(root@) == names(p@)),
{
    if root.len() != p.len() {
        assert(names(root@).len() != names(p@).len());
        return false;
    }
    let r = path_within(root, p);
    assert(names(p@).subrange(0, root@.len() as int) =~= names(p@));
    r
}

/// Copies a path.
pub fn copy_path(p: &[Vec<u8>]) -> (r: Vec<Vec<u8>>)
    ensures
        names(r@) == names(p@),
{
    let mut out: Vec<Vec<u8>> = Vec::new();
    let mut i: usize = 0;
    while i < p.len()
        invariant
            0 <= i <= p@.len(),
            out@.len() == i,
            forall|j: int| 0 <= j < i ==> out@[j]@ == p@[j]@,
        decreases p@.len() - i,
    {
        let name = vstd::slice::slice_to_vec(p[i].as_slice());
        out.push(name);
        i = i + 1;
    }
    assert(names(out@) =~= names(p@));
    out
}

/// A lookup as plain values: the canonical names and the directory flag.
pub open spec fn lookup_view(l: Lookup) -> Option<(Seq<Seq<u8>>, bool)> {
    match l {
        Lookup::Missing => None,
        Lookup::Found { path, is_dir } => Some((names(path@), is_dir)),
    }
}

/// The outcome of resolving a lookup against `root`: a missing target is not
/// found; a canonical target outside the root is forbidden; anything else is
/// kept as it is.
pub open spec fn resolution(root: Seq<Seq<u8>>, l: Option<(Seq<Seq<u8>>, bool)>) -> Result<
    (Seq<Seq<u8>>, bool),
    ResolveError,
> {
    match l {
        None => Err(ResolveError::NotFound),
        Some((p, d)) => if within(root, p) {
            Ok((p, d))
        } else {
            Err(ResolveError::Forbidden)
        },
    }
}

pub open spec fn resolved_view(r: Result<Resolved, ResolveError>) -> Result<
    (Seq<Seq<u8>>, bool),
    ResolveError,
> {
    match r {
        Ok(t) => Ok((names(t.path@), t.is_dir)),
        Err(e) => Err(e),
    }
}

/// Resolves the target of a read or a delete.
pub fn resolve(root: &[Vec<u8>], lookup: Lookup) -> (r: Result<Resolved, ResolveError>)
    ensures
        resolved_view(r) == resolution(names(root@), lookup_view(lookup)),
{
    match lookup {
        Lookup::Missing => Err(ResolveError::NotFound),
        Lookup::Found { path, is_dir } => {
            if path_within(root, path.as_slice()) {
                Ok(Resolved { path, is_dir })
            } else {
                Err(ResolveError::Forbidden)
            }
        },
    }
}

/// Whatever the filesystem reports, resolution answers 404 or 403 or yields a
/// path inside the root: `..` segments and symlinks that lead out of the root
/// have been followed by canonicalization, and their result is refused.
pub proof fn lemma_resolution_stays_in_root(root: Seq<Seq<u8>>, l: Option<(Seq<Seq<u8>>, bool)>)
    ensures
        match resolution(root, l) {
            Ok((p, _)) => within(root, p),
            Err(e) => e.spec_status() == 404 || e.spec_status() == 403,
        },
        l matches Some((p, _)) && !within(root, p) ==> resolution(root, l) == Err::<
            (Seq<Seq<u8>>, bool),
            ResolveError,
        >(ResolveError::Forbidden),
{
}

/// The directory an upload is written into, as a spec: a target that does not
/// exist yet falls back to the root; a directory is used as it is; a file
/// stands for the directory that holds it.
pub open spec fn upload_dir_of(root: Seq<Seq<u8>>, path: Seq<Seq<u8>>, is_dir: bool) -> Seq<Seq<u8>> {
    if is_dir {
        path
    } else if path.len() > root.len() {
        path.drop_last()
    } else {
        root
    }
}

/// Resolves the target of an upload to the directory that receives it.
pub fn upload_dir(root: &[Vec<u8>], lookup: Lookup) -> (r: Result<Vec<Vec<u8>>, ResolveError>)
    ensures
        match lookup {
            Lookup::Missing => r matches Ok(d) && names(d@) == names(root@),
            Lookup::Found { path, is_dir } => if within(names(root@), names(path@)) {
                r matches Ok(d) && names(d@) == upload_dir_of(names(root@), names(path@), is_dir)
            } else {
                r == Err::<Vec<Vec<u8>>, ResolveError>(ResolveError::Forbidden)
            },
        },
        r matches Ok(d) ==> within(names(root@), names(d@)),
{
    match lookup {
        Lookup::Missing => {
            let d = copy_path(root);
            assert(names(d@).subrange(0, root@.len() as int) =~= names(d@));
            Ok(d)
        },
        Lookup::Found { path, is_dir } => {
            if !path_within(root, path.as_slice()) {
                return Err(ResolveError::Forbidden);
            }
            if is_dir {
                Ok(path)
            } else if path.len() > root.len() {
                let mut d = path;
                let ghost before = d@;
                d.pop();
                assert(names(d@) =~= names(before).drop_last());
                assert(names(d@).subrange(0, root@.len() as int) =~= names(before).subrange(
                    0,
                    root@.len() as int,
                ));
                Ok(d)
            } else {
                let d = copy_path(root);
                assert(names(d@).subrange(0, root@.len() as int) =~= names(d@));
                Ok(d)
            }
        },
    }
}

} // verus!
