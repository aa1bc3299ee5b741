//! The settings object: key bindings and status-line templates, loaded once
//! at startup, plus the partial form read from the user's file and the rules
//! that merge the two.

use vstd::prelude::*;

verus! {

pub struct Configuration {
    pub with_default_config: bool,
    pub keymaps: KeyMaps,
    pub slack: Slack,
    pub status_line: StatusLine,
}

pub struct KeyMaps {
    pub up: String,
    pub down: String,
    pub left: String,
    pub right: String,
    pub exit: String,
    pub open: String,
    pub search: String,
    pub interact: String,
    pub send: String,
    pub focus: KeyMapsFocus,
}

pub struct KeyMapsFocus {
    pub up: String,
    pub down: String,
    pub left: String,
    pub right: String,
}

pub struct Slack {
    pub client_id: String,
    pub client_secret: String,
}

pub struct StatusLine {
    pub left: StatusLineSide,
    pub right: StatusLineSide,
}

pub struct StatusLineSide {
    pub template: String,
    pub separator: String,
}

pub struct PartialConfiguration {
    pub with_default_config: Option<bool>,
    pub keymaps: Option<PartialKeyMaps>,
    pub slack: Option<PartialSlack>,
    pub status_line: Option<PartialStatusLine>,
}

pub struct PartialKeyMaps {
    pub up: Option<String>,
    pub down: Option<String>,
    pub left: Option<String>,
    pub right: Option<String>,
    pub exit: Option<String>,
    pub open: Option<String>,
    pub search: Option<String>,
    pub interact: Option<String>,
    pub send: Option<String>,
    pub focus: Option<PartialKeyMapsFocus>,
}

pub struct PartialKeyMapsFocus {
    pub up: Option<String>,
    pub down: Option<String>,
    pub left: Option<String>,
    pub right: Option<String>,
}

pub struct PartialSlack {
    pub client_id: Option<String>,
    pub client_secret: Option<String>,
}

pub struct PartialStatusLine {
    pub left: Option<PartialStatusLineSide>,
    pub right: Option<PartialStatusLineSide>,
}

pub struct PartialStatusLineSide {
    pub template: Option<String>,
    pub separator: Option<String>,
}

/// The contents a merged string field ends with: the override where the
/// partial form gives one, else the base value.
pub open spec fn merged_str(base: String, over: Option<String>) -> Seq<char> {
    match over {
        Option::Some(s) => s@,
        Option::None => base@,
    }
}

fn merge_str(base: &String, over: Option<String>) -> (r: String)
    ensures
        r@ == merged_str(*base, over),
{
    match over {
        Option::Some(s) => s,
        Option::None => base.clone(),
    }
}

pub open spec fn focus_merged(base: KeyMapsFocus, over: Option<PartialKeyMapsFocus>, r: KeyMapsFocus) -> bool {
    match over {
        Option::None => {
            &&& r.up@ == base.up@
            &&& r.down@ == base.down@
            &&& r.left@ == base.left@
            &&& r.right@ == base.right@
        },
        Option::Some(o) => {
            &&& r.up@ == merged_str(base.up, o.up)
            &&& r.down@ == merged_str(base.down, o.down)
            &&& r.left@ == merged_str(base.left, o.left)
            &&& r.right@ == merged_str(base.right, o.right)
        },
    }
}

pub open spec fn keymaps_merged(base: KeyMaps, over: Option<PartialKeyMaps>, r: KeyMaps) -> bool {
    match over {
        Option::None => {
            &&& r.up@ == base.up@
            &&& r.down@ == base.down@
            &&& r.left@ == base.left@
            &&& r.right@ == base.right@
            &&& r.exit@ == base.exit@
            &&& r.open@ == base.open@
            &&& r.search@ == base.search@
            &&& r.interact@ == base.interact@
            &&& r.send@ == base.send@
            &&& focus_merged(base.focus, Option::None, r.focus)
        },
        Option::Some(o) => {
            &&& r.up@ == merged_str(base.up, o.up)
            &&& r.down@ == merged_str(base.down, o.down)
            &&& r.left@ == merged_str(base.left, o.left)
            &&& r.right@ == merged_str(base.right, o.right)
            &&& r.exit@ == merged_str(base.exit, o.exit)
            &&& r.open@ == merged_str(base.open, o.open)
            &&& r.search@ == merged_str(base.search, o.search)
            &&& r.interact@ == merged_str(base.interact, o.interact)
            &&& r.send@ == merged_str(base.send, o.send)
            &&& focus_merged(base.focus, o.focus, r.focus)
        },
    }
}

pub open spec fn slack_merged(base: Slack, over: Option<PartialSlack>, r: Slack) -> bool {
    match over {
        Option::None => r.client_id@ == base.client_id@ && r.client_secret@ == base.client_secret@,
        Option::Some(o) => {
            &&& r.client_id@ == merged_str(base.client_id, o.client_id)
            &&& r.client_secret@ == merged_str(base.client_secret, o.client_secret)
        },
    }
}

pub open spec fn side_merged(base: StatusLineSide, over: Option<PartialStatusLineSide>, r: StatusLineSide) -> bool {
    match over {
        Option::None => r.template@ == base.template@ && r.separator@ == base.separator@,
        Option::Some(o) => {
            &&& r.template@ == merged_str(base.template, o.template)
            &&& r.separator@ == merged_str(base.separator, o.separator)
        },
    }
}

pub open spec fn status_line_merged(base: StatusLine, over: Option<PartialStatusLine>, r: StatusLine) -> bool {
    match over {
        Option::None => {
            &&& side_merged(base.left, Option::None, r.left)
            &&& side_merged(base.right, Option::None, r.right)
        },
        Option::Some(o) => {
            &&& side_merged(base.left, o.left, r.left)
            &&& side_merged(base.right, o.right, r.right)
        },
    }
}

impl Configuration {
    /// Lay a partial configuration over this one: every field the partial
    /// form sets replaces the base value, every other field is kept.
    pub fn merge_with(&self, other: PartialConfiguration) -> (r: Configuration)
        ensures
            r.with_default_config == match other.with_default_config {
                Option::Some(b) => b,
                Option::None => self.with_default_config,
            },
            keymaps_merged(self.keymaps, other.keymaps, r.keymaps),
            slack_merged(self.slack, other.slack, r.slack),
            status_line_merged(self.status_line, other.status_line, r.status_line),
    {
        Configuration {
            with_default_config: match other.with_default_config {
                Option::Some(b) => b,
                Option::None => self.with_default_config,
            },
            keymaps: match other.keymaps {
                Option::None => self.keymaps.clone(),
                Option::Some(o) => KeyMaps {
                    up: merge_str(&self.keymaps.up, o.up),
                    down: merge_str(&self.keymaps.down, o.down),
                    left: merge_str(&self.keymaps.left, o.left),
                    right: merge_str(&self.keymaps.right, o.right),
                    exit: merge_str(&self.keymaps.exit, o.exit),
                    open: merge_str(&self.keymaps.open, o.open),
                    search: merge_str(&self.keymaps.search, o.search),
                    interact: merge_str(&self.keymaps.interact, o.interact),
                    send: merge_str(&self.keymaps.send, o.send),
                    focus: match o.focus {
                        Option::None => self.keymaps.focus.clone(),
                        Option::Some(f) => KeyMapsFocus {
                            up: merge_str(&self.keymaps.focus.up, f.up),
                            down: merge_str(&self.keymaps.focus.down, f.down),
                            left: merge_str(&self.keymaps.focus.left, f.left),
                            right: merge_str(&self.keymaps.focus.right, f.right),
                        },
                    },
                },
            },
            slack: match other.slack {
                Option::None => self.slack.clone(),
                Option::Some(o) => Slack {
                    client_id: merge_str(&self.slack.client_id, o.client_id),
                    client_secret: merge_str(&self.slack.client_secret, o.client_secret),
                },
            },
            status_line: match other.status_line {
                Option::None => self.status_line.clone(),
                Option::Some(o) => StatusLine {
                    left: match o.left {
                        Option::None => self.status_line.left.clone(),
                        Option::Some(s) => StatusLineSide {
                            template: merge_str(&self.status_line.left.template, s.template),
                            separator: merge_str(&self.status_line.left.separator, s.separator),
                        },
                    },
                    right: match o.right {
                        Option::None => self.status_line.right.clone(),
                        Option::Some(s) => StatusLineSide {
                            template: merge_str(&self.status_line.right.template, s.template),
                            separator: merge_str(&self.status_line.right.separator, s.separator),
                        },
                    },
                },
            },
        }
    }
}

pub open spec fn partial_focus_complete(o: PartialKeyMapsFocus) -> bool {
    o.up is Some && o.down is Some && o.left is Some && o.right is Some
}

pub open spec fn partial_keymaps_complete(o: PartialKeyMaps) -> bool {
    &&& o.up is Some
    &&& o.down is Some
    &&& o.left is Some
    &&& o.right is Some
    &&& o.exit is Some
    &&& o.open is Some
    &&& o.search is Some
    &&& o.interact is Some
    &&& o.send is Some
    &&& o.focus is Some
    &&& partial_focus_complete(o.focus.unwrap())
}

pub open spec fn partial_side_complete(o: PartialStatusLineSide) -> bool {
    o.template is Some && o.separator is Some
}

/// Every field is present, so the partial form stands on its own.
pub open spec fn partial_complete(o: PartialConfiguration) -> bool {
    &&& o.with_default_config is Some
    &&& o.keymaps is Some
    &&& partial_keymaps_complete(o.keymaps.unwrap())
    &&& o.slack is Some
    &&& o.slack.unwrap().client_id is Some
    &&& o.slack.unwrap().client_secret is Some
    &&& o.status_line is Some
    &&& o.status_line.unwrap().left is Some
    &&& partial_side_complete(o.status_line.unwrap().left.unwrap())
    &&& o.status_line.unwrap().right is Some
    &&& partial_side_complete(o.status_line.unwrap().right.unwrap())
}

impl PartialConfiguration {
    /// The partial configuration that sets nothing.
    pub fn empty() -> (r: PartialConfiguration)
        ensures
            r.with_default_config is None,
            r.keymaps is None,
            r.slack is None,
            r.status_line is None,
    {
        PartialConfiguration {
            with_default_config: Option::None,
            keymaps: Option::None,
            slack: Option::None,
            status_line: Option::None,
        }
    }

    pub fn is_empty(&self) -> (r: bool)
        ensures
            r == (self.with_default_config is None && self.keymaps is None
                && self.slack is None && self.status_line is None),
    {
        self.with_default_config.is_none() && self.keymaps.is_none() && self.slack.is_none()
            && self.status_line.is_none()
    }

    /// Take every field out of a complete partial configuration.
    pub fn unwrap_all(self) -> (r: Configuration)
        requires
            partial_complete(self),
        ensures
            r.with_default_config == self.with_default_config.unwrap(),
            r.keymaps.up@ == self.keymaps.unwrap().up.unwrap()@,
            r.keymaps.down@ == self.keymaps.unwrap().down.unwrap()@,
            r.keymaps.left@ == self.keymaps.unwrap().left.unwrap()@,
            r.keymaps.right@ == self.keymaps.unwrap().right.unwrap()@,
            r.keymaps.exit@ == self.keymaps.unwrap().exit.unwrap()@,
            r.keymaps.open@ == self.keymaps.unwrap().open.unwrap()@,
            r.keymaps.search@ == self.keymaps.unwrap().search.unwrap()@,
            r.keymaps.interact@ == self.keymaps.unwrap().interact.unwrap()@,
            r.keymaps.send@ == self.keymaps.unwrap().send.unwrap()@,
            r.keymaps.focus.up@ == self.keymaps.unwrap().focus.unwrap().up.unwrap()@,
            r.keymaps.focus.down@ == self.keymaps.unwrap().focus.unwrap().down.unwrap()@,
            r.keymaps.focus.left@ == self.keymaps.unwrap().focus.unwrap().left.unwrap()@,
            r.keymaps.focus.right@ == self.keymaps.unwrap().focus.unwrap().right.unwrap()@,
            r.slack.client_id@ == self.slack.unwrap().client_id.unwrap()@,
            r.slack.client_secret@ == self.slack.unwrap().client_secret.unwrap()@,
            r.status_line.left.template@ == self.status_line.unwrap().left.unwrap().template.unwrap()@,
            r.status_line.left.separator@ == self.status_line.unwrap().left.unwrap().separator.unwrap()@,
            r.status_line.right.template@ == self.status_line.unwrap().right.unwrap().template.unwrap()@,
            r.status_line.right.separator@ == self.status_line.unwrap().right.unwrap().separator.unwrap()@,
    {
        let keymaps = self.keymaps.unwrap();
        let focus = keymaps.focus.unwrap();
        let slack = self.slack.unwrap();
        let status_line = self.status_line.unwrap();
        let left = status_line.left.unwrap();
        let right = status_line.right.unwrap();
        Configuration {
            with_default_config: self.with_default_config.unwrap(),
            keymaps: KeyMaps {
                up: keymaps.up.unwrap(),
                down: keymaps.down.unwrap(),
                left: keymaps.left.unwrap(),
                right: keymaps.right.unwrap(),
                exit: keymaps.exit.unwrap(),
                open: keymaps.open.unwrap(),
                search: keymaps.search.unwrap(),
                interact: keymaps.interact.unwrap(),
                send: keymaps.send.unwrap(),
                focus: KeyMapsFocus {
                    up: focus.up.unwrap(),
                    down: focus.down.unwrap(),
                    left: focus.left.unwrap(),
                    right: focus.right.unwrap(),
                },
            },
            slack: Slack {
                client_id: slack.client_id.unwrap(),
                client_secret: slack.client_secret.unwrap(),
            },
            status_line: StatusLine {
                left: StatusLineSide {
                    template: left.template.unwrap(),
                    separator: left.separator.unwrap(),
                },
                right: StatusLineSide {
                    template: right.template.unwrap(),
                    separator: right.separator.unwrap(),
                },
            },
        }
    }
}

impl Clone for KeyMapsFocus {
    fn clone(&self) -> (res: Self)
        ensures
            res.up@ == self.up@,
            res.down@ == self.down@,
            res.left@ == self.left@,
            res.right@ == self.right@,
    {
        KeyMapsFocus {
            up: self.up.clone(),
            down: self.down.clone(),
            left: self.left.clone(),
            right: self.right.clone(),
        }
    }
}

impl Clone for KeyMaps {
    fn clone(&self) -> (res: Self)
        ensures
            res.up@ == self.up@,
            res.down@ == self.down@,
            res.left@ == self.left@,
            res.right@ == self.right@,
            res.exit@ == self.exit@,
            res.open@ == self.open@,
            res.search@ == self.search@,
            res.interact@ == self.interact@,
            res.send@ == self.send@,
            res.focus.up@ == self.focus.up@,
            res.focus.down@ == self.focus.down@,
            res.focus.left@ == self.focus.left@,
            res.focus.right@ == self.focus.right@,
    {
        KeyMaps {
            up: self.up.clone(),
            down: self.down.clone(),
            left: self.left.clone(),
            right: self.right.clone(),
            exit: self.exit.clone(),
            open: self.open.clone(),
            search: self.search.clone(),
            interact: self.interact.clone(),
            send: self.send.clone(),
            focus: self.focus.clone(),
        }
    }
}

impl Clone for Slack {
    fn clone(&self) -> (res: Self)
        ensures
            res.client_id@ == self.client_id@,
            res.client_secret@ == self.client_secret@,
    {
        Slack { client_id: self.client_id.clone(), client_secret: self.client_secret.clone() }
    }
}

impl Clone for StatusLineSide {
    fn clone(&self) -> (res: Self)
        ensures
            res.template@ == self.template@,
            res.separator@ == self.separator@,
    {
        StatusLineSide { template: self.template.clone(), separator: self.separator.clone() }
    }
}

impl Clone for StatusLine {
    fn clone(&self) -> (res: Self)
        ensures
            res.left.template@ == self.left.template@,
            res.left.separator@ == self.left.separator@,
            res.right.template@ == self.right.template@,
            res.right.separator@ == self.right.separator@,
    {
        StatusLine { left: self.left.clone(), right: self.right.clone() }
    }
}

impl Clone for Configuration {
    fn clone(&self) -> (res: Self)
        ensures
            res.with_default_config == self.with_default_config,
            keymaps_merged(self.keymaps, Option::None, res.keymaps),
            slack_merged(self.slack, Option::None, res.slack),
            status_line_merged(self.status_line, Option::None, res.status_line),
    {
        Configuration {
            with_default_config: self.with_default_config,
            keymaps: self.keymaps.clone(),
            slack: self.slack.clone(),
            status_line: self.status_line.clone(),
        }
    }
}

} // verus!
