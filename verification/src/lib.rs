//! Resolves a filetype name to a template ignore file held in a local mirror
//! of a community ignore-file collection, and either renders its contents for
//! standard output or merges them into a local ignore file.
//!
//! The library holds the whole lookup-and-merge pipeline: alias resolution,
//! repository-root candidate computation, recursive search of a directory
//! snapshot, and the output computation for both print and append mode.
//! Reading the real filesystem and writing the results back is left to the
//! binary around the library, which hands a snapshot of the search root in
//! and carries the computed effect out.

use vstd::prelude::*;

pub mod alias;
pub mod casefold;
pub mod output;
pub mod repo;
pub mod search;

use crate::alias::resolve_alias;
use crate::alias::AliasTable;
use crate::casefold::lower_of;
use crate::output::concat_bytes;
use crate::output::render_print;
use crate::output::spec_render;
use crate::search::search_gitignore_file;
use crate::search::spec_search;
use crate::search::FsNode;
use crate::search::SearchOutcome;
use crate::search::SearchResult;
use vstd::string::StringExecFns;

verus! {

/// Output-mode selection: `write_to_file` chooses append mode over print
/// mode.
pub struct CommandOption {
    pub write_to_file: bool,
}

impl Default for CommandOption {
    /// The default mode is print: nothing on disk is touched.
    fn default() -> (r: Self)
        ensures
            !r.write_to_file,
    {
        CommandOption { write_to_file: false }
    }
}

/// One invocation: the directory to search, the filetype token, the alias
/// table, and the output mode.
pub struct Command {
    pub gitignore_dir: String,
    pub ft_str: String,
    pub ft_aliases: AliasTable,
    pub option: CommandOption,
}

/// The one output action of an invocation: bytes for standard output, the
/// new full contents of the local ignore file, or a miss naming the
/// canonical filetype that had no template.
pub enum RunEffect {
    Printed { bytes: Vec<u8> },
    Appended { new_local: Vec<u8> },
    NotFound { canonical: String },
}

/// The canonical filetype name for a token: the alias table's entry where
/// there is one, else the token lowercased.
pub open spec fn spec_canonical(t: AliasTable, tok: Seq<char>) -> Seq<char> {
    if t@.contains_key(tok) {
        t@[tok]
    } else {
        lower_of(tok)
    }
}

/// The filename searched for: the canonical name with the template suffix.
pub open spec fn spec_target(t: AliasTable, tok: Seq<char>) -> Seq<char> {
    spec_canonical(t, tok) + ".gitignore"@
}

/// The local ignore file's contents after an append: whatever was there
/// (nothing, where the file did not exist) followed by the source bytes,
/// unchanged, unreordered, undeduplicated.
pub open spec fn spec_appended(local: Option<Vec<u8>>, src: Seq<u8>) -> Seq<u8> {
    (match local {
        Some(l) => l@,
        None => Seq::empty(),
    }) + src
}

/// A token the table maps is matched through the table's canonical name,
/// whatever the case of the stored filename: any file whose lowercased name
/// is the mapped name with the template suffix matches the target the
/// pipeline searches for.
pub proof fn lemma_alias_match(t: AliasTable, tok: Seq<char>, n: FsNode)
    requires
        t@.contains_key(tok),
        n matches FsNode::File { name, .. } && lower_of(name@) == t@[tok] + ".gitignore"@,
    ensures
        crate::search::node_matches(n, spec_target(t, tok)),
{
}

/// Runs the pipeline on a snapshot: resolve the token, search `root` for the
/// target file, and compute the one output action. A hit is printed or
/// appended as the mode says; a miss and an aborted search are both folded
/// into the miss report, and nothing is written for them.
pub fn run(c: &Command, root: &FsNode, local_gitignore: &Option<Vec<u8>>) -> (r: RunEffect)
    requires
        c.ft_aliases.wf(),
    ensures
        ({
            let found = spec_search(*root, spec_target(c.ft_aliases, c.ft_str@));
            match found {
                SearchResult::Hit(bytes) => if c.option.write_to_file {
                    r matches RunEffect::Appended { new_local } && new_local@ == spec_appended(
                        *local_gitignore,
                        bytes,
                    )
                } else {
                    (r matches RunEffect::Printed { bytes: out } && out@ == spec_render(bytes))
                },
                SearchResult::Miss => r matches RunEffect::NotFound { canonical }
                    && canonical@ == spec_canonical(c.ft_aliases, c.ft_str@),
                SearchResult::Aborted => r matches RunEffect::NotFound { canonical }
                    && canonical@ == spec_canonical(c.ft_aliases, c.ft_str@),
            }
        }),
{
    let ft = resolve_alias(&c.ft_aliases, c.ft_str.as_str());
    let target = ft.clone().concat(".gitignore");
    match search_gitignore_file(root, &target) {
        SearchOutcome::Found { contents } => {
            if c.option.write_to_file {
                let new_local = match local_gitignore {
                    Some(l) => concat_bytes(l, &contents),
                    None => concat_bytes(&Vec::new(), &contents),
                };
                proof {
                    assert(new_local@ =~= spec_appended(*local_gitignore, contents@));
                }
                RunEffect::Appended { new_local }
            } else {
                RunEffect::Printed { bytes: render_print(&contents) }
            }
        },
        SearchOutcome::NotFound => RunEffect::NotFound { canonical: ft },
        SearchOutcome::Unreadable => RunEffect::NotFound { canonical: ft },
    }
}

/// Usage help, shown when no filetype token is given; it carries no text and
/// performs no action.
pub fn help() {
}

} // verus!
