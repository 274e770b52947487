use vstd::prelude::*;

use crate::casefold::lower_of;
use crate::casefold::lowercase;

verus! {

/// A snapshot of one directory entry: a file together with its bytes, or a
/// directory together with what its listing yielded. `readable` is false
/// where the listing itself failed; reaching such a directory aborts the
/// search.
pub enum FsNode {
    File { name: String, contents: Vec<u8> },
    Dir { name: String, readable: bool, entries: Vec<FsNode> },
}

/// What a search yields: the matched file's bytes, a clean miss, or an abort
/// because some directory on the way could not be listed.
pub enum SearchOutcome {
    Found { contents: Vec<u8> },
    NotFound,
    Unreadable,
}

/// The mathematical counterpart of `SearchOutcome`, over byte sequences.
pub enum SearchResult {
    Hit(Seq<u8>),
    Miss,
    Aborted,
}

impl View for SearchOutcome {
    type V = SearchResult;

    open spec fn view(&self) -> SearchResult {
        match self {
            SearchOutcome::Found { contents } => SearchResult::Hit(contents@),
            SearchOutcome::NotFound => SearchResult::Miss,
            SearchOutcome::Unreadable => SearchResult::Aborted,
        }
    }
}

/// A file matches when its name, lowercased, equals the target filename.
pub open spec fn node_matches(n: FsNode, target: Seq<char>) -> bool {
    n matches FsNode::File { name, .. } && lower_of(name@) == target
}

/// Depth-first, pre-order search of one node: a matching file is a hit, a
/// directory is entered immediately, and the first hit or abort ends the
/// search.
pub open spec fn spec_search(n: FsNode, target: Seq<char>) -> SearchResult
    decreases n, 0int,
{
    match n {
        FsNode::File { name, contents } => if lower_of(name@) == target {
            SearchResult::Hit(contents@)
        } else {
            SearchResult::Miss
        },
        FsNode::Dir { readable, entries, .. } => if !readable {
            SearchResult::Aborted
        } else {
            spec_search_list(entries@, 0, target)
        },
    }
}

/// Searches the entries of one directory listing in order, from index `i`.
pub open spec fn spec_search_list(nodes: Seq<FsNode>, i: int, target: Seq<char>) -> SearchResult
    decreases nodes, nodes.len() - i,
{
    if i < 0 || i >= nodes.len() {
        SearchResult::Miss
    } else {
        match spec_search(nodes[i], target) {
            SearchResult::Hit(c) => SearchResult::Hit(c),
            SearchResult::Aborted => SearchResult::Aborted,
            SearchResult::Miss => spec_search_list(nodes, i + 1, target),
        }
    }
}

/// Every directory in the snapshot, the root included, could be listed.
pub open spec fn all_readable(n: FsNode) -> bool
    decreases n, 0int,
{
    match n {
        FsNode::File { .. } => true,
        FsNode::Dir { readable, entries, .. } => readable && all_readable_list(entries@, 0),
    }
}

/// `all_readable` over the entries of one listing, from index `i`.
pub open spec fn all_readable_list(nodes: Seq<FsNode>, i: int) -> bool
    decreases nodes, nodes.len() - i,
{
    if i < 0 || i >= nodes.len() {
        true
    } else {
        all_readable(nodes[i]) && all_readable_list(nodes, i + 1)
    }
}

/// Some file below `n` (or `n` itself) matches the target filename.
pub open spec fn has_match(n: FsNode, target: Seq<char>) -> bool
    decreases n, 0int,
{
    match n {
        FsNode::File { .. } => node_matches(n, target),
        FsNode::Dir { entries, .. } => has_match_list(entries@, 0, target),
    }
}

/// `has_match` over the entries of one listing, from index `i`.
pub open spec fn has_match_list(nodes: Seq<FsNode>, i: int, target: Seq<char>) -> bool
    decreases nodes, nodes.len() - i,
{
    if i < 0 || i >= nodes.len() {
        false
    } else {
        has_match(nodes[i], target) || has_match_list(nodes, i + 1, target)
    }
}

/// On a snapshot whose directories could all be listed, the search never
/// aborts, and it misses exactly when no file anywhere below the root
/// matches the target filename.
pub proof fn lemma_search_complete(n: FsNode, target: Seq<char>)
    requires
        all_readable(n),
    ensures
        !(spec_search(n, target) is Aborted),
        spec_search(n, target) is Miss <==> !has_match(n, target),
    decreases n, 0int,
{
    match n {
        FsNode::File { .. } => {
        },
        FsNode::Dir { entries, .. } => {
            lemma_search_complete_list(entries@, 0, target);
        },
    }
}

/// `lemma_search_complete` over the entries of one listing, from index `i`.
proof fn lemma_search_complete_list(nodes: Seq<FsNode>, i: int, target: Seq<char>)
    requires
        all_readable_list(nodes, i),
    ensures
        !(spec_search_list(nodes, i, target) is Aborted),
        spec_search_list(nodes, i, target) is Miss <==> !has_match_list(nodes, i, target),
    decreases nodes, nodes.len() - i,
{
    if 0 <= i < nodes.len() {
        lemma_search_complete(nodes[i], target);
        lemma_search_complete_list(nodes, i + 1, target);
    }
}

/// Searches the snapshot rooted at `node` for a file whose lowercased name
/// equals `target`, depth-first and pre-order: the first matching file wins,
/// and the first unreadable directory aborts the whole search.
#[verifier::loop_isolation(false)]
pub fn search_gitignore_file(node: &FsNode, target: &String) -> (r: SearchOutcome)
    ensures
        r@ == spec_search(*node, target@),
    decreases *node,
{
    match node {
        FsNode::File { name, contents } => {
            let lc = lowercase(name.as_str());
            if lc == *target {
                SearchOutcome::Found { contents: contents.clone() }
            } else {
                SearchOutcome::NotFound
            }
        },
        FsNode::Dir { readable, entries, .. } => {
            if !*readable {
                SearchOutcome::Unreadable
            } else {
                let n = entries.len();
                let mut i: usize = 0;
                while i < n
                    invariant
                        n == entries@.len(),
                        i <= n,
                        spec_search_list(entries@, i as int, target@) == spec_search_list(
                            entries@,
                            0,
                            target@,
                        ),
                    decreases n - i,
                {
                    let sub = search_gitignore_file(&entries[i], target);
                    match sub {
                        SearchOutcome::NotFound => {
                        },
                        _ => {
                            return sub;
                        },
                    }
                    i += 1;
                }
                SearchOutcome::NotFound
            }
        },
    }
}

} // verus!
