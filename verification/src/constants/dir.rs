//! Where the application keeps its files, relative to the directories the
//! environment hands the shell.

use vstd::prelude::*;

use crate::strutil::str_to_string;

verus! {

/// The application's own directory under the configuration directory.
pub fn app_config_dir(config_dir: &str) -> (r: String)
    ensures
        r@ == config_dir@ + "/clack"@,
{
    let mut s = str_to_string(config_dir);
    s.append("/clack");
    s
}

} // verus!
