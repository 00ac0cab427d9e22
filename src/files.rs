//! The remote file store as seen from one assistant, and the upload of one
//! file with its deduplication by display name.
use crate::text::same_text;
use crate::types::{FileId, FileRef};
use vstd::prelude::*;

verus! {

/// A file of the account's store, as the store's listing reports it.
#[derive(Debug)]
pub struct OrgFile {
    pub id: String,
    pub filename: String,
}

/// Whether `id` is among the ids of the files attached to the assistant.
pub open spec fn is_attached(attached: Seq<String>, id: Seq<char>) -> bool {
    exists|i: int| 0 <= i < attached.len() && (#[trigger] attached[i])@ == id
}

/// The position in the account listing of the file that `name` resolves
/// to: the last listed file of that name that is attached to the assistant.
pub open spec fn last_match(attached: Seq<String>, org: Seq<OrgFile>, name: Seq<char>) -> Option<int>
    decreases org.len(),
{
    if org.len() == 0 {
        None
    } else if is_attached(attached, org.last().id@) && org.last().filename@ == name {
        Some(org.len() - 1)
    } else {
        last_match(attached, org.drop_last(), name)
    }
}

/// The record that an account file stands for.
pub open spec fn ref_of(f: OrgFile) -> FileRef {
    FileRef { name: f.filename, id: FileId(f.id) }
}

/// No two records share a display name.
pub open spec fn names_unique(refs: Seq<FileRef>) -> bool {
    forall|a: int, b: int|
        0 <= a < refs.len() && 0 <= b < refs.len() && a != b ==> (#[trigger] refs[a]).name@
            != (#[trigger] refs[b]).name@
}

/// `refs` is the name-to-file map of the files attached to an assistant:
/// one record per name, each the file that the name resolves to.
pub open spec fn is_file_map(refs: Seq<FileRef>, attached: Seq<String>, org: Seq<OrgFile>) -> bool {
    &&& names_unique(refs)
    &&& forall|k: int|
        0 <= k < refs.len() ==> match last_match(attached, org, (#[trigger] refs[k]).name@) {
            Some(j) => refs[k] == ref_of(org[j]),
            None => false,
        }
    &&& forall|name: Seq<char>|
        (#[trigger] last_match(attached, org, name)) is Some ==> exists|k: int|
            0 <= k < refs.len() && (#[trigger] refs[k]).name@ == name
}

proof fn lemma_last_match_bound(attached: Seq<String>, org: Seq<OrgFile>, name: Seq<char>)
    ensures
        last_match(attached, org, name) matches Some(j) ==> 0 <= j < org.len()
            && org[j].filename@ == name,
    decreases org.len(),
{
    if org.len() > 0 {
        lemma_last_match_bound(attached, org.drop_last(), name);
    }
}

/// Whether `id` is one of `attached`.
fn contains_id(attached: &Vec<String>, id: &String) -> (r: bool)
    ensures
        r == is_attached(attached@, id@),
{
    let mut i: usize = 0;
    while i < attached.len()
        invariant
            i <= attached.len(),
            forall|k: int| 0 <= k < i ==> attached@[k]@ != id@,
        decreases attached.len() - i,
    {
        if same_text(attached[i].as_str(), id.as_str()) {
            return true;
        }
        i = i + 1;
    }
    false
}

/// The position of the record named `name`, if any.
pub(crate) fn position_of(refs: &Vec<FileRef>, name: &String) -> (r: Option<usize>)
    ensures
        r matches Some(k) ==> k < refs@.len() && refs@[k as int].name@ == name@,
        r is None ==> forall|k: int| 0 <= k < refs@.len() ==> refs@[k].name@ != name@,
{
    let mut i: usize = 0;
    while i < refs.len()
        invariant
            i <= refs.len(),
            forall|k: int| 0 <= k < i ==> refs@[k].name@ != name@,
        decreases refs.len() - i,
    {
        if same_text(refs[i].name.as_str(), name.as_str()) {
            return Some(i);
        }
        i = i + 1;
    }
    None
}

/// Joins the two listings of the remote store: the ids of the files
/// attached to an assistant, which carry no names, and the account's files,
/// which do. The result maps each display name of an attached file to that
/// file; where names repeat, the file listed last wins.
pub fn get_files_hashmap(attached: &Vec<String>, org_files: &Vec<OrgFile>) -> (r: Vec<FileRef>)
    ensures
        is_file_map(r@, attached@, org_files@),
{
    let mut refs: Vec<FileRef> = Vec::new();
    let mut i: usize = 0;
    while i < org_files.len()
        invariant
            i <= org_files.len(),
            is_file_map(refs@, attached@, org_files@.take(i as int)),
        decreases org_files.len() - i,
    {
        let ghost before = refs@;
        let ghost prefix = org_files@.take(i as int);
        let ghost next = org_files@.take(i + 1);
        assert(next.drop_last() =~= prefix);
        let f = &org_files[i];
        if contains_id(attached, &f.id) {
            let entry = FileRef { name: f.filename.clone(), id: FileId(f.id.clone()) };
            let pos: usize = match position_of(&refs, &f.filename) {
                Some(k) => {
                    refs.set(k, entry);
                    k
                },
                None => {
                    refs.push(entry);
                    refs.len() - 1
                },
            };
            assert(refs@[pos as int] == entry);
            assert forall|a: int, b: int|
                0 <= a < refs@.len() && 0 <= b < refs@.len() && a != b implies (#[trigger] refs@[a]).name@
                != (#[trigger] refs@[b]).name@ by {
                if a != pos && b != pos {
                    assert(refs@[a] == before[a] && refs@[b] == before[b]);
                }
            }
            assert forall|k: int| 0 <= k < refs@.len() implies match last_match(
                attached@,
                next,
                (#[trigger] refs@[k]).name@,
            ) {
                Some(j) => refs@[k] == ref_of(next[j]),
                None => false,
            } by {
                if refs@[k].name@ != f.filename@ {
                    assert(refs@[k] == before[k]);
                    lemma_last_match_bound(attached@, prefix, refs@[k].name@);
                }
            }
            assert forall|name: Seq<char>|
                (#[trigger] last_match(attached@, next, name)) is Some implies exists|k: int|
                0 <= k < refs@.len() && (#[trigger] refs@[k]).name@ == name by {
                if name != f.filename@ {
                    assert(last_match(attached@, prefix, name) is Some);
                    let k = choose|k: int| 0 <= k < before.len() && (#[trigger] before[k]).name@ == name;
                    assert(refs@[k].name@ == name);
                } else {
                    assert(refs@[pos as int].name@ == name);
                }
            }
        } else {
            assert forall|k: int| 0 <= k < refs@.len() implies match last_match(
                attached@,
                next,
                (#[trigger] refs@[k]).name@,
            ) {
                Some(j) => refs@[k] == ref_of(next[j]),
                None => false,
            } by {
                lemma_last_match_bound(attached@, prefix, refs@[k].name@);
            }
            assert forall|name: Seq<char>|
                (#[trigger] last_match(attached@, next, name)) is Some implies exists|k: int|
                0 <= k < refs@.len() && (#[trigger] refs@[k]).name@ == name by {
                assert(last_match(attached@, prefix, name) is Some);
            }
        }
        i = i + 1;
    }
    assert(org_files@.take(org_files@.len() as int) =~= org_files@);
    refs
}

} // verus!
