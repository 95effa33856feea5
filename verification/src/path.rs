//! Resolution of the config file location:
//! `<home>/.gg-deploy/config.json`, falling back to the current
//! directory `.` as the base when no home directory can be determined.

use vstd::prelude::*;
use vstd::string::*;
use crate::config::opt_str_view;
use crate::text::seq_ends_with;

verus! {

/// The path of the config file under the given base: the home
/// directory when one is known, the current directory otherwise.
pub open spec fn spec_config_path(home: Option<Seq<char>>) -> Seq<char> {
    (match home {
        Option::Some(h) => h,
        Option::None => "."@,
    }) + "/.gg-deploy/config.json"@
}

/// Computes the config file path for the given home directory.
/// Pure: the environment is the caller's business.
pub fn config_path_from_home(home: &Option<String>) -> (r: String)
    ensures
        r@ == spec_config_path(opt_str_view(*home)),
{
    let mut base = match home {
        Option::Some(h) => h.clone(),
        Option::None => String::from_str("."),
    };
    base.append("/.gg-deploy/config.json");
    base
}

/// Relies on `dirs::home_dir`: yields the user's home directory, if
/// the platform reports one.  The result depends on the environment,
/// so nothing more is stated of it.
#[verifier::external_body]
fn home_dir_string() -> (r: Option<String>) {
    dirs::home_dir().map(|p| p.to_string_lossy().to_string())
}

/// Resolves the config file path under the environment's home
/// directory.  Whatever the environment reports, the result is the
/// config path for some base and ends in `/.gg-deploy/config.json`.
pub fn resolve_config_path() -> (r: String)
    ensures
        exists|home: Option<Seq<char>>| r@ == spec_config_path(home),
        seq_ends_with(r@, "/.gg-deploy/config.json"@),
{
    let home = home_dir_string();
    let r = config_path_from_home(&home);
    proof {
        let ghost h = opt_str_view(home);
        assert(r@ == spec_config_path(h));
        lemma_config_path_shape(h);
    }
    r
}

/// The path always ends in `.gg-deploy/config.json`; under a known
/// home directory it is exactly `<home>/.gg-deploy/config.json`, and
/// without one it is exactly `./.gg-deploy/config.json`.
pub proof fn lemma_config_path_shape(home: Option<Seq<char>>)
    ensures
        seq_ends_with(spec_config_path(home), "/.gg-deploy/config.json"@),
        seq_ends_with(spec_config_path(home), ".gg-deploy/config.json"@),
        home matches Option::Some(h) ==> spec_config_path(home) == h + "/.gg-deploy/config.json"@,
        home is None ==> spec_config_path(home) == "."@ + "/.gg-deploy/config.json"@,
{
    reveal_strlit("/.gg-deploy/config.json");
    reveal_strlit(".gg-deploy/config.json");
    reveal_strlit(".");
    let s = spec_config_path(home);
    let full = "/.gg-deploy/config.json"@;
    let bare = ".gg-deploy/config.json"@;
    assert(s.subrange(s.len() - full.len(), s.len() as int) =~= full);
    assert(full.subrange(1, full.len() as int) =~= bare);
    assert(s.subrange(s.len() - bare.len(), s.len() as int) =~= bare);
}

} // verus!
