//! The authenticated session returned by the workspace's authorization flow.

use vstd::prelude::*;

verus! {

pub struct Authorization {
    pub ok: bool,
    pub app_id: String,
    pub authed_user: AuthedUser,
    pub team: Team,
}

pub struct AuthedUser {
    pub id: String,
    pub scope: String,
    pub access_token: String,
    pub token_type: String,
}

pub struct Team {
    pub id: String,
    pub name: String,
}

pub open spec fn authed_user_equal(a: AuthedUser, b: AuthedUser) -> bool {
    &&& a.id@ == b.id@
    &&& a.scope@ == b.scope@
    &&& a.access_token@ == b.access_token@
    &&& a.token_type@ == b.token_type@
}

pub open spec fn team_equal(a: Team, b: Team) -> bool {
    a.id@ == b.id@ && a.name@ == b.name@
}

pub open spec fn authorization_equal(a: Authorization, b: Authorization) -> bool {
    &&& a.ok == b.ok
    &&& a.app_id@ == b.app_id@
    &&& authed_user_equal(a.authed_user, b.authed_user)
    &&& team_equal(a.team, b.team)
}

impl Clone for AuthedUser {
    fn clone(&self) -> (res: Self)
        ensures
            authed_user_equal(res, *self),
    {
        AuthedUser {
            id: self.id.clone(),
            scope: self.scope.clone(),
            access_token: self.access_token.clone(),
            token_type: self.token_type.clone(),
        }
    }
}

impl Clone for Team {
    fn clone(&self) -> (res: Self)
        ensures
            team_equal(res, *self),
    {
        Team { id: self.id.clone(), name: self.name.clone() }
    }
}

impl Clone for Authorization {
    fn clone(&self) -> (res: Self)
        ensures
            authorization_equal(res, *self),
    {
        Authorization {
            ok: self.ok,
            app_id: self.app_id.clone(),
            authed_user: self.authed_user.clone(),
            team: self.team.clone(),
        }
    }
}

pub fn authed_user_eq(a: &AuthedUser, b: &AuthedUser) -> (r: bool)
    ensures
        r == authed_user_equal(*a, *b),
{
    a.id == b.id && a.scope == b.scope && a.access_token == b.access_token
        && a.token_type == b.token_type
}

pub fn team_eq(a: &Team, b: &Team) -> (r: bool)
    ensures
        r == team_equal(*a, *b),
{
    a.id == b.id && a.name == b.name
}

pub fn authorization_eq(a: &Authorization, b: &Authorization) -> (r: bool)
    ensures
        r == authorization_equal(*a, *b),
{
    a.ok == b.ok && a.app_id == b.app_id && authed_user_eq(&a.authed_user, &b.authed_user)
        && team_eq(&a.team, &b.team)
}

} // verus!
