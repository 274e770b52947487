use vstd::prelude::*;

use crate::casefold::lower_of;
use crate::casefold::lowercase;

verus! {

/// The alias table: an immutable list of pairs mapping a short filetype token
/// (matched exactly, case-sensitively) to the canonical filetype name used to
/// build the target filename.
pub struct AliasTable {
    pub entries: Vec<(String, String)>,
}

impl AliasTable {
    /// No token occurs twice, so the table denotes a map.
    pub open spec fn wf(self) -> bool {
        forall|i: int, j: int|
            0 <= i < j < self.entries@.len() ==> self.entries@[i].0@ != self.entries@[j].0@
    }
}

impl View for AliasTable {
    type V = Map<Seq<char>, Seq<char>>;

    open spec fn view(&self) -> Map<Seq<char>, Seq<char>> {
        Map::new(
            |tok: Seq<char>|
                exists|i: int|
                    0 <= i < self.entries@.len() && self.entries@[i].0@ == tok,
            |tok: Seq<char>|
                {
                    let i = choose|i: int|
                        0 <= i < self.entries@.len() && self.entries@[i].0@ == tok;
                    self.entries@[i].1@
                },
        )
    }
}

/// The aliases the tool ships with.
pub open spec fn spec_alias_map() -> Map<Seq<char>, Seq<char>> {
    map![
        "hs"@ => "haskell"@,
        "pl"@ => "perl"@,
        "py"@ => "python"@,
        "rb"@ => "ruby"@,
        "rs"@ => "rust"@,
        "latex"@ => "tex"@,
    ]
}

/// Builds the table of built-in filetype aliases.
pub fn ft_aliases() -> (r: AliasTable)
    ensures
        r.wf(),
        r@ == spec_alias_map(),
{
    let mut entries: Vec<(String, String)> = Vec::new();
    entries.push(("hs".to_owned(), "haskell".to_owned()));
    entries.push(("pl".to_owned(), "perl".to_owned()));
    entries.push(("py".to_owned(), "python".to_owned()));
    entries.push(("rb".to_owned(), "ruby".to_owned()));
    entries.push(("rs".to_owned(), "rust".to_owned()));
    entries.push(("latex".to_owned(), "tex".to_owned()));
    let r = AliasTable { entries };
    proof {
        reveal_strlit("hs");
        reveal_strlit("pl");
        reveal_strlit("py");
        reveal_strlit("rb");
        reveal_strlit("rs");
        reveal_strlit("latex");
        assert(r.entries@.len() == 6);
        assert(r.entries@[0].0@ == "hs"@ && r.entries@[0].1@ == "haskell"@);
        assert(r.entries@[1].0@ == "pl"@ && r.entries@[1].1@ == "perl"@);
        assert(r.entries@[2].0@ == "py"@ && r.entries@[2].1@ == "python"@);
        assert(r.entries@[3].0@ == "rb"@ && r.entries@[3].1@ == "ruby"@);
        assert(r.entries@[4].0@ == "rs"@ && r.entries@[4].1@ == "rust"@);
        assert(r.entries@[5].0@ == "latex"@ && r.entries@[5].1@ == "tex"@);
        assert("hs"@[0] != "pl"@[0]);
        assert("hs"@[0] != "py"@[0]);
        assert("hs"@[0] != "rb"@[0]);
        assert("hs"@[0] != "rs"@[0]);
        assert("pl"@[1] != "py"@[1]);
        assert("pl"@[0] != "rb"@[0]);
        assert("pl"@[0] != "rs"@[0]);
        assert("py"@[0] != "rb"@[0]);
        assert("py"@[0] != "rs"@[0]);
        assert("rb"@[1] != "rs"@[1]);
        assert forall|tok: Seq<char>| r@.contains_key(tok) implies
            spec_alias_map().contains_key(tok) && r@[tok] == spec_alias_map()[tok] by {
            let w = choose|w: int|
                0 <= w < r.entries@.len() && r.entries@[w].0@ == tok;
            assert(forall|j: int|
                0 <= j < r.entries@.len() && j != w ==> r.entries@[j].0@ != tok);
        }
        assert forall|tok: Seq<char>| spec_alias_map().contains_key(tok) implies
            r@.contains_key(tok) by {
            if tok == "hs"@ {
                assert(r.entries@[0].0@ == tok);
            } else if tok == "pl"@ {
                assert(r.entries@[1].0@ == tok);
            } else if tok == "py"@ {
                assert(r.entries@[2].0@ == tok);
            } else if tok == "rb"@ {
                assert(r.entries@[3].0@ == tok);
            } else if tok == "rs"@ {
                assert(r.entries@[4].0@ == tok);
            } else {
                assert(tok == "latex"@);
                assert(r.entries@[5].0@ == tok);
            }
        }
        assert(r@ =~= spec_alias_map());
    }
    r
}

/// Resolves a user-supplied token to the canonical filetype name: the mapped
/// name where the table has the token, else the token lowercased. Resolution
/// is total: there is no error case.
pub fn resolve_alias(t: &AliasTable, token: &str) -> (r: String)
    requires
        t.wf(),
    ensures
        t@.contains_key(token@) ==> r@ == t@[token@],
        !t@.contains_key(token@) ==> r@ == lower_of(token@),
{
    let tok: String = token.to_owned();
    let n = t.entries.len();
    let mut i: usize = 0;
    while i < n
        invariant
            t.wf(),
            n == t.entries@.len(),
            i <= n,
            tok@ == token@,
            forall|j: int| 0 <= j < i ==> t.entries@[j].0@ != token@,
        decreases n - i,
    {
        if t.entries[i].0 == tok {
            proof {
                assert(t.entries@[i as int].0@ == token@);
                assert(t@.contains_key(token@));
                let w = choose|w: int|
                    0 <= w < t.entries@.len() && t.entries@[w].0@ == token@;
                assert(w == i as int);
            }
            return t.entries[i].1.clone();
        }
        i += 1;
    }
    proof {
        assert(!t@.contains_key(token@));
    }
    lowercase(token)
}

} // verus!
