//! Messages as the client tracks them, and one fetched batch of history.
//!
//! A message's moment is a timestamp in microseconds; batches arrive ordered
//! or not and are sorted before they are merged into the cached history.

use vstd::prelude::*;

use crate::eqv::{opt_string_dup, opt_string_eq, opt_string_equal};

verus! {

pub struct Message {
    pub user: Option<String>,
    pub bot_id: Option<String>,
    /// Timestamp in microseconds; the message's identity within its channel.
    pub ts: u64,
    pub text: Option<String>,
    pub reply_count: Option<u32>,
    pub reactions: Option<Vec<Reaction>>,
}

pub struct Reaction {
    pub name: String,
    pub count: u32,
}

/// One fetched batch of messages.
pub struct ApiResponse {
    pub ok: bool,
    pub messages: Vec<Message>,
}

pub open spec fn reaction_equal(a: Reaction, b: Reaction) -> bool {
    a.name@ == b.name@ && a.count == b.count
}

pub open spec fn reactions_equal(a: Seq<Reaction>, b: Seq<Reaction>) -> bool {
    a.len() == b.len() && forall|i: int| 0 <= i < a.len() ==> reaction_equal(a[i], b[i])
}

pub open spec fn opt_reactions_equal(a: Option<Vec<Reaction>>, b: Option<Vec<Reaction>>) -> bool {
    match (a, b) {
        (Option::None, Option::None) => true,
        (Option::Some(x), Option::Some(y)) => reactions_equal(x@, y@),
        _ => false,
    }
}

pub open spec fn message_equal(a: Message, b: Message) -> bool {
    &&& opt_string_equal(a.user, b.user)
    &&& opt_string_equal(a.bot_id, b.bot_id)
    &&& a.ts == b.ts
    &&& opt_string_equal(a.text, b.text)
    &&& a.reply_count == b.reply_count
    &&& opt_reactions_equal(a.reactions, b.reactions)
}

pub open spec fn messages_equal(a: Seq<Message>, b: Seq<Message>) -> bool {
    a.len() == b.len() && forall|i: int| 0 <= i < a.len() ==> message_equal(a[i], b[i])
}

pub open spec fn opt_message_equal(a: Option<Message>, b: Option<Message>) -> bool {
    match (a, b) {
        (Option::None, Option::None) => true,
        (Option::Some(x), Option::Some(y)) => message_equal(x, y),
        _ => false,
    }
}

impl Clone for Reaction {
    fn clone(&self) -> (res: Self)
        ensures
            reaction_equal(res, *self),
    {
        Reaction { name: self.name.clone(), count: self.count }
    }
}

fn reactions_dup(a: &Vec<Reaction>) -> (r: Vec<Reaction>)
    ensures
        reactions_equal(r@, a@),
{
    let mut r: Vec<Reaction> = Vec::new();
    let n = a.len();
    let mut i: usize = 0;
    while i < n
        invariant
            n == a.len(),
            0 <= i <= n,
            r@.len() == i,
            forall|j: int| 0 <= j < i ==> reaction_equal(r@[j], a@[j]),
        decreases n - i,
    {
        r.push(a[i].clone());
        i += 1;
    }
    r
}

impl Clone for Message {
    fn clone(&self) -> (res: Self)
        ensures
            message_equal(res, *self),
    {
        Message {
            user: opt_string_dup(&self.user),
            bot_id: opt_string_dup(&self.bot_id),
            ts: self.ts,
            text: opt_string_dup(&self.text),
            reply_count: self.reply_count,
            reactions: match &self.reactions {
                Option::None => Option::None,
                Option::Some(v) => Option::Some(reactions_dup(v)),
            },
        }
    }
}

pub fn reaction_eq(a: &Reaction, b: &Reaction) -> (r: bool)
    ensures
        r == reaction_equal(*a, *b),
{
    a.name == b.name && a.count == b.count
}

pub fn reactions_eq(a: &Vec<Reaction>, b: &Vec<Reaction>) -> (r: bool)
    ensures
        r == reactions_equal(a@, b@),
{
    if a.len() != b.len() {
        return false;
    }
    let n = a.len();
    let mut i: usize = 0;
    while i < n
        invariant
            n == a.len() == b.len(),
            0 <= i <= n,
            forall|j: int| 0 <= j < i ==> reaction_equal(a@[j], b@[j]),
        decreases n - i,
    {
        if !reaction_eq(&a[i], &b[i]) {
            return false;
        }
        i += 1;
    }
    true
}

pub fn message_eq(a: &Message, b: &Message) -> (r: bool)
    ensures
        r == message_equal(*a, *b),
{
    opt_string_eq(&a.user, &b.user) && opt_string_eq(&a.bot_id, &b.bot_id) && a.ts == b.ts
        && opt_string_eq(&a.text, &b.text) && a.reply_count == b.reply_count
        && match (&a.reactions, &b.reactions) {
            (Option::None, Option::None) => true,
            (Option::Some(x), Option::Some(y)) => reactions_eq(x, y),
            _ => false,
        }
}

pub fn messages_eq(a: &Vec<Message>, b: &Vec<Message>) -> (r: bool)
    ensures
        r == messages_equal(a@, b@),
{
    if a.len() != b.len() {
        return false;
    }
    let n = a.len();
    let mut i: usize = 0;
    while i < n
        invariant
            n == a.len() == b.len(),
            0 <= i <= n,
            forall|j: int| 0 <= j < i ==> message_equal(a@[j], b@[j]),
        decreases n - i,
    {
        if !message_eq(&a[i], &b[i]) {
            return false;
        }
        i += 1;
    }
    true
}

pub fn opt_message_eq(a: &Option<Message>, b: &Option<Message>) -> (r: bool)
    ensures
        r == opt_message_equal(*a, *b),
{
    match (a, b) {
        (Option::None, Option::None) => true,
        (Option::Some(x), Option::Some(y)) => message_eq(x, y),
        _ => false,
    }
}

pub fn opt_message_dup(a: &Option<Message>) -> (r: Option<Message>)
    ensures
        opt_message_equal(r, *a),
{
    match a {
        Option::None => Option::None,
        Option::Some(m) => Option::Some(m.clone()),
    }
}

pub fn messages_dup(a: &Vec<Message>) -> (r: Vec<Message>)
    ensures
        messages_equal(r@, a@),
{
    let mut r: Vec<Message> = Vec::new();
    let n = a.len();
    let mut i: usize = 0;
    while i < n
        invariant
            n == a.len(),
            0 <= i <= n,
            r@.len() == i,
            forall|j: int| 0 <= j < i ==> message_equal(r@[j], a@[j]),
        decreases n - i,
    {
        r.push(a[i].clone());
        i += 1;
    }
    r
}

} // verus!
