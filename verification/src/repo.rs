use vstd::prelude::*;

use vstd::string::StringExecFns;

verus! {

/// The path of the template mirror below the home directory, with the
/// separator that joins it to the home path.
pub open spec fn spec_repo_suffix() -> Seq<char> {
    "/.local/share/gitignore"@
}

/// Relies on home::home_dir: yields the platform's notion of the user's home
/// directory. The result depends on the process environment, so nothing is
/// promised of it; a home path that is not Unicode is reported as absent.
#[verifier::external_body]
fn host_home_dir() -> (r: Option<String>)
{
    home::home_dir().and_then(|p| p.into_os_string().into_string().ok())
}

/// The default search root for a given home path: exactly that path extended
/// with the mirror's suffix, and no default at all where no home is known.
pub fn default_from_home(home: Option<String>) -> (r: Option<String>)
    ensures
        home matches Some(h) ==> (r matches Some(d) && d@ == h@ + spec_repo_suffix()),
        home is None ==> r is None,
{
    match home {
        Some(h) => {
            let ghost hv = h@;
            let d = h.concat("/.local/share/gitignore");
            proof {
                assert(d@ == hv + spec_repo_suffix());
            }
            Some(d)
        },
        None => None,
    }
}

/// The default search root: `default_from_home` of whatever home directory
/// the environment yields. A home that can be determined gives some default,
/// and any default is some home path with the mirror's suffix.
pub fn default_repo_dir() -> (r: Option<String>)
    ensures
        r matches Some(d) ==> exists|h: Seq<char>| d@ == h + spec_repo_suffix(),
{
    let home = host_home_dir();
    let ghost home0 = home;
    let r = default_from_home(home);
    proof {
        match home0 {
            Some(h) => {
                let hv = h@;
                assert(r matches Some(d) && d@ == hv + spec_repo_suffix());
            },
            None => {},
        }
    }
    r
}

/// The directory that will be searched, before the check that it exists: an
/// override value is taken verbatim (even when empty), else the default, else
/// the empty path. Whether the candidate exists on disk is checked by the
/// caller that owns the filesystem.
pub fn repo_dir_candidate(override_val: Option<String>, default_dir: Option<String>) -> (r:
    String)
    ensures
        override_val matches Some(o) ==> r == o,
        override_val is None ==> (default_dir matches Some(d) ==> r == d),
        override_val is None && default_dir is None ==> r@ == Seq::<char>::empty(),
{
    match override_val {
        Some(o) => o,
        None => match default_dir {
            Some(d) => d,
            None => String::new(),
        },
    }
}

} // verus!
