//! How the settings read from the user's file combine with the built-in
//! defaults. Reading and decoding the file itself happens in the shell; the
//! decision of what the effective configuration is happens here.

use vstd::prelude::*;

use crate::entities::configuration::{
    keymaps_merged, partial_complete, slack_merged, status_line_merged, Configuration,
    PartialConfiguration,
};

verus! {

/// Whether the user's file is laid over the defaults: it is, unless the
/// file itself switches the defaults off.
pub open spec fn wants_defaults(user: PartialConfiguration) -> bool {
    user.with_default_config is None || user.with_default_config.unwrap()
}

/// The effective configuration. With the defaults on (or unstated), every
/// field the user's file sets replaces the default and every other field
/// is kept; with the defaults off the file stands alone, so it must be
/// complete and every field is the file's.
pub fn resolve_configuration(default_config: Configuration, user: PartialConfiguration) -> (r:
    Configuration)
    requires
        !wants_defaults(user) ==> partial_complete(user),
    ensures
        wants_defaults(user) ==> {
            &&& r.with_default_config == (match user.with_default_config {
                Option::Some(b) => b,
                Option::None => default_config.with_default_config,
            })
            &&& keymaps_merged(default_config.keymaps, user.keymaps, r.keymaps)
            &&& slack_merged(default_config.slack, user.slack, r.slack)
            &&& status_line_merged(default_config.status_line, user.status_line, r.status_line)
        },
        !wants_defaults(user) ==> {
            &&& r.with_default_config == user.with_default_config.unwrap()
            &&& r.keymaps.up@ == user.keymaps.unwrap().up.unwrap()@
            &&& r.keymaps.down@ == user.keymaps.unwrap().down.unwrap()@
            &&& r.keymaps.left@ == user.keymaps.unwrap().left.unwrap()@
            &&& r.keymaps.right@ == user.keymaps.unwrap().right.unwrap()@
            &&& r.keymaps.exit@ == user.keymaps.unwrap().exit.unwrap()@
            &&& r.keymaps.open@ == user.keymaps.unwrap().open.unwrap()@
            &&& r.keymaps.search@ == user.keymaps.unwrap().search.unwrap()@
            &&& r.keymaps.interact@ == user.keymaps.unwrap().interact.unwrap()@
            &&& r.keymaps.send@ == user.keymaps.unwrap().send.unwrap()@
            &&& r.keymaps.focus.up@ == user.keymaps.unwrap().focus.unwrap().up.unwrap()@
            &&& r.keymaps.focus.down@ == user.keymaps.unwrap().focus.unwrap().down.unwrap()@
            &&& r.keymaps.focus.left@ == user.keymaps.unwrap().focus.unwrap().left.unwrap()@
            &&& r.keymaps.focus.right@ == user.keymaps.unwrap().focus.unwrap().right.unwrap()@
            &&& r.slack.client_id@ == user.slack.unwrap().client_id.unwrap()@
            &&& r.slack.client_secret@ == user.slack.unwrap().client_secret.unwrap()@
            &&& r.status_line.left.template@ == user.status_line.unwrap().left.unwrap().template.unwrap()@
            &&& r.status_line.left.separator@ == user.status_line.unwrap().left.unwrap().separator.unwrap()@
            &&& r.status_line.right.template@ == user.status_line.unwrap().right.unwrap().template.unwrap()@
            &&& r.status_line.right.separator@ == user.status_line.unwrap().right.unwrap().separator.unwrap()@
        },
{
    let use_defaults = user.is_empty() || (match user.with_default_config {
        Option::Some(b) => b,
        Option::None => true,
    });
    if use_defaults {
        default_config.merge_with(user)
    } else {
        user.unwrap_all()
    }
}

} // verus!
