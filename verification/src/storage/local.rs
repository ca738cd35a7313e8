//! Objects kept as files under a base directory.
use crate::storage::StorageError;
use crate::database::ids::uuid_text;
use crate::text::{
    join_path, joined_path, lemma_no_slash_unchanged, remove_parent_refs, without_parent_refs,
};
use vstd::prelude::*;

verus! {

/// Whether `Path::new(p).parent()` is `Some`.
pub uninterp spec fn path_has_parent(p: Seq<char>) -> bool;

/// Calls `std::path::Path::new(p).parent()` and tells whether there is one.
/// Its documentation says that the empty path and a path that ends in a root
/// have no parent, which the contract states; the rest is named.
#[verifier::external_body]
fn has_parent(p: &str) -> (res: bool)
    ensures
        res == path_has_parent(p@),
        p@.len() == 0 ==> !res,
        p@ == seq!['/'] ==> !res,
{
    std::path::Path::new(p).parent().is_some()
}

/// `path` when it has a parent directory, else `InvalidFilename`.
pub fn parent_checked(path: String, has_parent: bool) -> (res: Result<String, StorageError>)
    ensures
        has_parent ==> (res matches Ok(p) && p@ == path@),
        !has_parent ==> (res matches Err(e) && e is InvalidFilename),
{
    if has_parent {
        Ok(path)
    } else {
        Err(StorageError::InvalidFilename)
    }
}

/// A directory holding one file per object.
pub struct Local {
    file_path: String,
}

impl Local {
    /// The base directory.
    pub closed spec fn base(&self) -> Seq<char> {
        self.file_path@
    }

    /// A store under the directory `file_path`.
    pub fn new(file_path: String) -> (res: Local)
        ensures
            res.base() == file_path@,
    {
        Local { file_path }
    }

    /// The file that holds the object `key`: the key with every `"../"`
    /// removed, joined onto the base directory.
    pub fn object_path(&self, key: &str) -> (res: String)
        ensures
            res@ == joined_path(self.base(), without_parent_refs(key@)),
    {
        let clean = remove_parent_refs(key);
        join_path(self.file_path.as_str(), clean.as_str())
    }

    /// Where `put` writes the object `key`: its path, or `InvalidFilename`
    /// when that path has no parent directory to create.
    pub fn put_path(&self, key: &str) -> (res: Result<String, StorageError>)
        ensures
            path_has_parent(joined_path(self.base(), without_parent_refs(key@))) ==> (res matches Ok(
                p,
            ) && p@ == joined_path(self.base(), without_parent_refs(key@))),
            !path_has_parent(joined_path(self.base(), without_parent_refs(key@))) ==> (res matches Err(
                e,
            ) && e is InvalidFilename),
    {
        let path = self.object_path(key);
        let parent = has_parent(path.as_str());
        parent_checked(path, parent)
    }
}

/// The bytes of a stored file lie directly in the base directory, in a file
/// named by the text of the file's identifier: that text holds no `/`, so
/// nothing is removed from it and it cannot replace the base.
pub proof fn law_file_object_path(base: Seq<char>, id: u128)
    ensures
        joined_path(base, without_parent_refs(uuid_text(id))) == (if base.len() > 0 && base.last()
            != '/' {
            base + seq!['/'] + uuid_text(id)
        } else {
            base + uuid_text(id)
        }),
{
    let t = uuid_text(id);
    assert forall|i: int| 0 <= i < t.len() implies #[trigger] t[i] != '/' by {
        if !crate::database::ids::is_uuid_dash(i) {
            let d = crate::database::ids::uuid_nibble(id, i - crate::database::ids::uuid_dashes_before(i));
            assert(0 <= d < 16);
        }
    }
    assert(!t.contains('/'));
    lemma_no_slash_unchanged(t);
}

} // verus!
