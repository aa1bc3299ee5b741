//! The paths of the configuration file and of the response cache, under the
//! application's directory.

use vstd::prelude::*;

use crate::strutil::str_to_string;

verus! {

pub fn configuration_path(app_dir: &str) -> (r: String)
    ensures
        r@ == app_dir@ + "/clack.toml"@,
{
    let mut s = str_to_string(app_dir);
    s.append("/clack.toml");
    s
}

pub fn cache_path(app_dir: &str) -> (r: String)
    ensures
        r@ == app_dir@ + "/.cache"@,
{
    let mut s = str_to_string(app_dir);
    s.append("/.cache");
    s
}

} // verus!
