//! Workspace members, and one page of the member listing.

use vstd::prelude::*;

use crate::eqv::{opt_string_dup, opt_string_eq, opt_string_equal};

verus! {

pub struct Member {
    pub id: String,
    pub name: String,
    pub deleted: bool,
    pub color: Option<String>,
    pub is_bot: bool,
    pub profile: MemberProfile,
}

pub struct MemberProfile {
    pub display_name: String,
    pub real_name: Option<String>,
}

/// One page of the member listing, with the cursor that leads to the next.
pub struct ApiResponse {
    pub ok: bool,
    pub members: Vec<Member>,
    pub response_metadata: ResponseMetadata,
}

pub struct ResponseMetadata {
    pub next_cursor: String,
}

pub open spec fn member_profile_equal(a: MemberProfile, b: MemberProfile) -> bool {
    a.display_name@ == b.display_name@ && opt_string_equal(a.real_name, b.real_name)
}

pub open spec fn member_equal(a: Member, b: Member) -> bool {
    &&& a.id@ == b.id@
    &&& a.name@ == b.name@
    &&& a.deleted == b.deleted
    &&& opt_string_equal(a.color, b.color)
    &&& a.is_bot == b.is_bot
    &&& member_profile_equal(a.profile, b.profile)
}

pub open spec fn members_equal(a: Seq<Member>, b: Seq<Member>) -> bool {
    a.len() == b.len() && forall|i: int| 0 <= i < a.len() ==> member_equal(a[i], b[i])
}

impl Clone for MemberProfile {
    fn clone(&self) -> (res: Self)
        ensures
            member_profile_equal(res, *self),
    {
        MemberProfile {
            display_name: self.display_name.clone(),
            real_name: opt_string_dup(&self.real_name),
        }
    }
}

impl Clone for Member {
    fn clone(&self) -> (res: Self)
        ensures
            member_equal(res, *self),
    {
        Member {
            id: self.id.clone(),
            name: self.name.clone(),
            deleted: self.deleted,
            color: opt_string_dup(&self.color),
            is_bot: self.is_bot,
            profile: self.profile.clone(),
        }
    }
}

pub fn member_eq(a: &Member, b: &Member) -> (r: bool)
    ensures
        r == member_equal(*a, *b),
{
    a.id == b.id && a.name == b.name && a.deleted == b.deleted
        && opt_string_eq(&a.color, &b.color) && a.is_bot == b.is_bot
        && a.profile.display_name == b.profile.display_name
        && opt_string_eq(&a.profile.real_name, &b.profile.real_name)
}

pub fn members_eq(a: &Vec<Member>, b: &Vec<Member>) -> (r: bool)
    ensures
        r == members_equal(a@, b@),
{
    if a.len() != b.len() {
        return false;
    }
    let n = a.len();
    let mut i: usize = 0;
    while i < n
        invariant
            n == a.len() == b.len(),
            0 <= i <= n,
            forall|j: int| 0 <= j < i ==> member_equal(a@[j], b@[j]),
        decreases n - i,
    {
        if !member_eq(&a[i], &b[i]) {
            return false;
        }
        i += 1;
    }
    true
}

pub fn members_dup(a: &Vec<Member>) -> (r: Vec<Member>)
    ensures
        members_equal(r@, a@),
{
    let mut r: Vec<Member> = Vec::new();
    let n = a.len();
    let mut i: usize = 0;
    while i < n
        invariant
            n == a.len(),
            0 <= i <= n,
            r@.len() == i,
            forall|j: int| 0 <= j < i ==> member_equal(r@[j], a@[j]),
        decreases n - i,
    {
        r.push(a[i].clone());
        i += 1;
    }
    r
}

} // verus!
