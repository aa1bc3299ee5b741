//! Channels as the client tracks them, and one page of a channel listing.

use vstd::prelude::*;

use crate::eqv::{opt_string_dup, opt_string_eq, opt_string_equal};

verus! {

/// One conversation: a channel, a private group, a group direct message or a
/// direct message. Only the fields the client reads are kept.
pub struct Channel {
    pub id: String,
    pub name: Option<String>,
    pub is_im: bool,
    pub is_mpim: Option<bool>,
    pub is_private: Option<bool>,
    pub is_member: Option<bool>,
    pub is_user_deleted: Option<bool>,
    pub created: i64,
    pub updated: Option<i64>,
    pub user: Option<String>,
}

/// One page of the channel listing, with the cursor that leads to the next.
pub struct ApiResponse {
    pub ok: bool,
    pub channels: Vec<Channel>,
    pub response_metadata: ResponseMetadata,
}

pub struct ResponseMetadata {
    pub next_cursor: String,
}

pub open spec fn channel_equal(a: Channel, b: Channel) -> bool {
    &&& a.id@ == b.id@
    &&& opt_string_equal(a.name, b.name)
    &&& a.is_im == b.is_im
    &&& a.is_mpim == b.is_mpim
    &&& a.is_private == b.is_private
    &&& a.is_member == b.is_member
    &&& a.is_user_deleted == b.is_user_deleted
    &&& a.created == b.created
    &&& a.updated == b.updated
    &&& opt_string_equal(a.user, b.user)
}

pub open spec fn channels_equal(a: Seq<Channel>, b: Seq<Channel>) -> bool {
    a.len() == b.len() && forall|i: int| 0 <= i < a.len() ==> channel_equal(a[i], b[i])
}

pub open spec fn opt_channel_equal(a: Option<Channel>, b: Option<Channel>) -> bool {
    match (a, b) {
        (Option::None, Option::None) => true,
        (Option::Some(x), Option::Some(y)) => channel_equal(x, y),
        _ => false,
    }
}

impl Clone for Channel {
    fn clone(&self) -> (res: Self)
        ensures
            channel_equal(res, *self),
    {
        Channel {
            id: self.id.clone(),
            name: opt_string_dup(&self.name),
            is_im: self.is_im,
            is_mpim: self.is_mpim,
            is_private: self.is_private,
            is_member: self.is_member,
            is_user_deleted: self.is_user_deleted,
            created: self.created,
            updated: self.updated,
            user: opt_string_dup(&self.user),
        }
    }
}

pub fn channel_eq(a: &Channel, b: &Channel) -> (r: bool)
    ensures
        r == channel_equal(*a, *b),
{
    a.id == b.id && opt_string_eq(&a.name, &b.name) && a.is_im == b.is_im
        && a.is_mpim == b.is_mpim && a.is_private == b.is_private
        && a.is_member == b.is_member && a.is_user_deleted == b.is_user_deleted
        && a.created == b.created && a.updated == b.updated
        && opt_string_eq(&a.user, &b.user)
}

pub fn channels_eq(a: &Vec<Channel>, b: &Vec<Channel>) -> (r: bool)
    ensures
        r == channels_equal(a@, b@),
{
    if a.len() != b.len() {
        return false;
    }
    let n = a.len();
    let mut i: usize = 0;
    while i < n
        invariant
            n == a.len() == b.len(),
            0 <= i <= n,
            forall|j: int| 0 <= j < i ==> channel_equal(a@[j], b@[j]),
        decreases n - i,
    {
        if !channel_eq(&a[i], &b[i]) {
            return false;
        }
        i += 1;
    }
    true
}

pub fn opt_channel_eq(a: &Option<Channel>, b: &Option<Channel>) -> (r: bool)
    ensures
        r == opt_channel_equal(*a, *b),
{
    match (a, b) {
        (Option::None, Option::None) => true,
        (Option::Some(x), Option::Some(y)) => channel_eq(x, y),
        _ => false,
    }
}

pub fn opt_channel_dup(a: &Option<Channel>) -> (r: Option<Channel>)
    ensures
        opt_channel_equal(r, *a),
{
    match a {
        Option::None => Option::None,
        Option::Some(c) => Option::Some(c.clone()),
    }
}

pub fn channels_dup(a: &Vec<Channel>) -> (r: Vec<Channel>)
    ensures
        channels_equal(r@, a@),
{
    let mut r: Vec<Channel> = Vec::new();
    let n = a.len();
    let mut i: usize = 0;
    while i < n
        invariant
            n == a.len(),
            0 <= i <= n,
            r@.len() == i,
            forall|j: int| 0 <= j < i ==> channel_equal(r@[j], a@[j]),
        decreases n - i,
    {
        r.push(a[i].clone());
        i += 1;
    }
    r
}

} // verus!
