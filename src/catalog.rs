//! The source-build repository: where to look a name up, how to read the
//! reply, and where its source snapshot is fetched from and cached.
use vstd::prelude::*;
use vstd::string::StringExecFns;
use crate::config::same_text;
use crate::text::{join, join_path};

verus! {

/// The lookup service's query endpoint, before the query arguments.
pub open spec fn rpc_base() -> Seq<char> {
    "https://aur.archlinux.org/rpc/?v=5"@
}

/// The address that looks `name` up in the source-build repository.
pub open spec fn lookup_address(name: Seq<char>) -> Seq<char> {
    rpc_base() + "&type=info&arg[]="@ + name
}

/// Returns the address that looks `name` up.
pub fn lookup_url(name: &str) -> (r: String)
    ensures
        r@ == lookup_address(name@),
{
    let mut r = String::from_str("https://aur.archlinux.org/rpc/?v=5");
    r.append("&type=info&arg[]=");
    r.append(name);
    r
}

/// The address of the compressed source snapshot of `name`.
pub open spec fn snapshot_address(name: Seq<char>) -> Seq<char> {
    "https://aur.archlinux.org/cgit/aur.git/snapshot/"@ + name + ".tar.gz"@
}

/// Returns the address of the source snapshot of `name`.
pub fn snapshot_url(name: &str) -> (r: String)
    ensures
        r@ == snapshot_address(name@),
{
    let mut r = String::from_str("https://aur.archlinux.org/cgit/aur.git/snapshot/");
    r.append(name);
    r.append(".tar.gz");
    r
}

/// Where the snapshot of `name` is cached: a fixed file of the cache
/// directory, so a second fetch of one name finds the first one's file.
pub open spec fn snapshot_file(cache: Seq<char>, name: Seq<char>) -> Seq<char> {
    join_path(cache, name + ".tar.gz"@)
}

/// Returns the cache path of the snapshot of `name`.
pub fn snapshot_path(cache: &str, name: &str) -> (r: String)
    ensures
        r@ == snapshot_file(cache@, name@),
{
    let mut leaf = String::from_str(name);
    leaf.append(".tar.gz");
    join(cache, leaf.as_str())
}

/// What the lookup service answered: its result count and the names of the
/// records it returned, if it returned a list.
pub struct LookupReply {
    pub resultcount: i32,
    pub names: Option<Vec<String>>,
}

/// The reply reports `name` itself: a positive count and a record whose name
/// is exactly `name`.
pub open spec fn reply_matches(reply: &LookupReply, name: Seq<char>) -> bool {
    &&& reply.resultcount > 0
    &&& reply.names is Some
    &&& exists|i: int|
        0 <= i < reply.names->Some_0@.len() && (#[trigger] reply.names->Some_0@[i])@ == name
}

/// Whether the lookup reply shows that the source-build repository has
/// exactly `name`.
pub fn lookup_matches(reply: &LookupReply, name: &str) -> (r: bool)
    ensures
        r == reply_matches(reply, name@),
{
    if reply.resultcount <= 0 {
        return false;
    }
    match &reply.names {
        Some(v) => {
            let mut i: usize = 0;
            while i < v.len()
                invariant
                    reply.names == Some(*v),
                    reply.resultcount > 0,
                    i <= v@.len(),
                    forall|j: int| 0 <= j < i ==> (#[trigger] v@[j])@ != name@,
                decreases v@.len() - i,
            {
                if same_text(v[i].as_str(), name) {
                    assert(reply.names->Some_0@[i as int]@ == name@);
                    return true;
                }
                i = i + 1;
            }
            false
        },
        None => false,
    }
}

} // verus!
