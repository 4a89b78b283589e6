use vstd::prelude::*;
use vstd::string::StrSliceExecFns;
use vstd::string::StringExecFns;

verus! {

/// A source identifier denotes a remote resource when it contains a URL
/// scheme separator anywhere in it.
pub open spec fn is_url(s: Seq<char>) -> bool {
    exists|i: int| 0 <= i && i + 3 <= s.len() && #[trigger] s.subrange(i, i + 3) == "://"@
}

/// Decides whether the operator source identifier is a remote locator or a
/// plain local path.
pub fn source_is_url(source: &str) -> (r: bool)
    ensures
        r == is_url(source@),
{
    proof {
        reveal_strlit("://");
    }
    let n = source.unicode_len();
    if n < 3 {
        proof {
            assert(!is_url(source@));
        }
        return false;
    }
    let mut i: usize = 0;
    while i <= n - 3
        invariant
            n == source@.len(),
            3 <= n,
            i + 3 <= n + 1,
            "://"@ == seq![':', '/', '/'],
            forall|j: int| 0 <= j < i ==> #[trigger] source@.subrange(j, j + 3) != "://"@,
        decreases n - i,
    {
        let a = source.get_char(i);
        let b = source.get_char(i + 1);
        let c = source.get_char(i + 2);
        if a == ':' && b == '/' && c == '/' {
            proof {
                assert(source@.subrange(i as int, i as int + 3) =~= "://"@);
            }
            return true;
        }
        proof {
            assert(source@.subrange(i as int, i as int + 3)[0] == source@[i as int]);
            assert(source@.subrange(i as int, i as int + 3)[1] == source@[i as int + 1]);
            assert(source@.subrange(i as int, i as int + 3)[2] == source@[i as int + 2]);
        }
        i = i + 1;
    }
    proof {
        assert(forall|j: int| 0 <= j && j + 3 <= n ==> #[trigger] source@.subrange(j, j + 3) != "://"@);
    }
    false
}

/// The deterministic local cache path for a remotely fetched operator
/// source, scoped by the owning node and operator identifiers under the
/// fixed relative build directory.
pub open spec fn cache_path_text(node_id: Seq<char>, operator_id: Seq<char>) -> Seq<char> {
    "build/"@ + node_id + "/"@ + operator_id + ".py"@
}

/// Derives the cache path for a fetched operator source.
pub fn target_cache_path(node_id: &str, operator_id: &str) -> (r: String)
    ensures
        r@ == cache_path_text(node_id@, operator_id@),
{
    let mut s = String::from_str("build/");
    s.append(node_id);
    s.append("/");
    s.append(operator_id);
    s.append(".py");
    proof {
        assert(s@ =~= cache_path_text(node_id@, operator_id@));
    }
    s
}

/// Where the operator locator finds the source: a remote resource to be
/// fetched into the derived cache path, or a local path taken as given.
/// Either way the resolved path must still exist and canonicalize; those
/// checks are the caller's, as they touch the file system.
#[derive(Debug, Clone, PartialEq, Eq)]
pub enum SourceLocation {
    Remote { cache_path: String },
    Local { path: String },
}

/// The locator's resolution decision: a remote locator is fetched into the
/// deterministic cache path scoped by node and operator identifier; anything
/// else is treated as a local path directly.
pub fn locate_source(source: &str, node_id: &str, operator_id: &str) -> (r: SourceLocation)
    ensures
        is_url(source@) ==> (r matches SourceLocation::Remote { cache_path } && cache_path@
            == cache_path_text(node_id@, operator_id@)),
        !is_url(source@) ==> (r matches SourceLocation::Local { path } && path@ == source@),
{
    if source_is_url(source) {
        SourceLocation::Remote { cache_path: target_cache_path(node_id, operator_id) }
    } else {
        SourceLocation::Local { path: String::from_str(source) }
    }
}

} // verus!
