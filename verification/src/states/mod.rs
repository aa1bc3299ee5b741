//! The domain half of the snapshot: what the workspace looks like to the
//! client right now, split by screen section.

pub mod initial;

use vstd::prelude::*;

use crate::entities::conversations::{
    channels_dup, channels_eq, channels_equal, opt_channel_dup, opt_channel_eq, opt_channel_equal,
    Channel,
};
use crate::entities::messages::{
    messages_dup, messages_eq, messages_equal, opt_message_dup, opt_message_eq, opt_message_equal,
    Message,
};
use crate::entities::users::{member_equal, members_dup, members_eq, members_equal, Member};
use crate::enums::section::Section;

verus! {

pub struct State {
    pub global: GlobalState,
    pub channel: ChannelState,
    pub message: MessageState,
    pub input: InputState,
    pub thread: ThreadState,
}

pub struct GlobalState {
    pub members: Vec<Member>,
    pub section: Section,
    pub exit: bool,
}

pub struct InputState {
    pub value: String,
    pub send: bool,
}

pub struct ChannelState {
    pub channels: Vec<Channel>,
    pub direct_messages: Vec<Channel>,
    pub selected: Option<Channel>,
    pub selected_index: Option<usize>,
    pub opened: Option<Channel>,
    pub search: String,
}

pub struct MessageState {
    pub messages: Vec<Message>,
    pub selected: Option<Message>,
    pub selected_index: Option<usize>,
    pub opened: Option<Message>,
}

pub struct ThreadState {
    pub messages: Vec<Message>,
    pub selected: Option<Message>,
    pub selected_index: Option<usize>,
}

pub open spec fn global_equal(a: GlobalState, b: GlobalState) -> bool {
    members_equal(a.members@, b.members@) && a.section == b.section && a.exit == b.exit
}

pub open spec fn input_equal(a: InputState, b: InputState) -> bool {
    a.value@ == b.value@ && a.send == b.send
}

pub open spec fn channel_state_equal(a: ChannelState, b: ChannelState) -> bool {
    &&& channels_equal(a.channels@, b.channels@)
    &&& channels_equal(a.direct_messages@, b.direct_messages@)
    &&& opt_channel_equal(a.selected, b.selected)
    &&& a.selected_index == b.selected_index
    &&& opt_channel_equal(a.opened, b.opened)
    &&& a.search@ == b.search@
}

pub open spec fn message_state_equal(a: MessageState, b: MessageState) -> bool {
    &&& messages_equal(a.messages@, b.messages@)
    &&& opt_message_equal(a.selected, b.selected)
    &&& a.selected_index == b.selected_index
    &&& opt_message_equal(a.opened, b.opened)
}

pub open spec fn thread_state_equal(a: ThreadState, b: ThreadState) -> bool {
    &&& messages_equal(a.messages@, b.messages@)
    &&& opt_message_equal(a.selected, b.selected)
    &&& a.selected_index == b.selected_index
}

pub open spec fn state_equal(a: State, b: State) -> bool {
    &&& global_equal(a.global, b.global)
    &&& channel_state_equal(a.channel, b.channel)
    &&& message_state_equal(a.message, b.message)
    &&& input_equal(a.input, b.input)
    &&& thread_state_equal(a.thread, b.thread)
}

/// What a fresh state is: nothing fetched, nothing selected, the channel
/// list focused, not exiting.
pub open spec fn is_initial_state(s: State) -> bool {
    &&& s.global.members@.len() == 0
    &&& s.global.section == Section::Channel
    &&& s.global.exit == false
    &&& s.channel.channels@.len() == 0
    &&& s.channel.direct_messages@.len() == 0
    &&& s.channel.selected is None
    &&& s.channel.selected_index is None
    &&& s.channel.opened is None
    &&& s.channel.search@.len() == 0
    &&& is_initial_message_state(s.message)
    &&& s.input.value@.len() == 0
    &&& s.input.send == false
    &&& is_initial_thread_state(s.thread)
}

pub open spec fn is_initial_message_state(m: MessageState) -> bool {
    &&& m.messages@.len() == 0
    &&& m.selected is None
    &&& m.selected_index is None
    &&& m.opened is None
}

pub open spec fn is_initial_thread_state(t: ThreadState) -> bool {
    &&& t.messages@.len() == 0
    &&& t.selected is None
    &&& t.selected_index is None
}

impl State {
    pub fn new() -> (r: State)
        ensures
            is_initial_state(r),
    {
        State {
            global: GlobalState::new(),
            channel: ChannelState::new(),
            message: MessageState::new(),
            input: InputState::new(),
            thread: ThreadState::new(),
        }
    }
}

impl GlobalState {
    pub fn new() -> (r: GlobalState)
        ensures
            r.members@.len() == 0,
            r.section == Section::Channel,
            r.exit == false,
    {
        GlobalState { members: Vec::new(), section: Section::Channel, exit: false }
    }

    /// The first member with the given identifier, if any.
    pub fn get_user(&self, id: String) -> (r: Option<Member>)
        ensures
            match r {
                Option::None => forall|i: int|
                    0 <= i < self.members@.len() ==> self.members@[i].id@ != id@,
                Option::Some(m) => exists|i: int|
                    0 <= i < self.members@.len() && self.members@[i].id@ == id@ && member_equal(
                        m,
                        self.members@[i],
                    ) && forall|j: int| 0 <= j < i ==> self.members@[j].id@ != id@,
            },
    {
        let n = self.members.len();
        let mut i: usize = 0;
        while i < n
            invariant
                n == self.members@.len(),
                0 <= i <= n,
                forall|j: int| 0 <= j < i ==> self.members@[j].id@ != id@,
            decreases n - i,
        {
            if self.members[i].id == id {
                let m = self.members[i].clone();
                return Option::Some(m);
            }
            i += 1;
        }
        Option::None
    }
}

impl ChannelState {
    pub fn new() -> (r: ChannelState)
        ensures
            r.channels@.len() == 0,
            r.direct_messages@.len() == 0,
            r.selected is None,
            r.selected_index is None,
            r.opened is None,
            r.search@.len() == 0,
    {
        ChannelState {
            channels: Vec::new(),
            direct_messages: Vec::new(),
            selected: Option::None,
            selected_index: Option::None,
            opened: Option::None,
            search: String::new(),
        }
    }
}

impl MessageState {
    pub fn new() -> (r: MessageState)
        ensures
            is_initial_message_state(r),
    {
        MessageState {
            messages: Vec::new(),
            selected: Option::None,
            selected_index: Option::None,
            opened: Option::None,
        }
    }
}

impl InputState {
    pub fn new() -> (r: InputState)
        ensures
            r.value@.len() == 0,
            r.send == false,
    {
        InputState { value: String::new(), send: false }
    }
}

impl ThreadState {
    pub fn new() -> (r: ThreadState)
        ensures
            is_initial_thread_state(r),
    {
        ThreadState { messages: Vec::new(), selected: Option::None, selected_index: Option::None }
    }
}

impl Clone for GlobalState {
    fn clone(&self) -> (res: Self)
        ensures
            global_equal(res, *self),
    {
        GlobalState {
            members: members_dup(&self.members),
            section: self.section,
            exit: self.exit,
        }
    }
}

impl Clone for InputState {
    fn clone(&self) -> (res: Self)
        ensures
            input_equal(res, *self),
    {
        InputState { value: self.value.clone(), send: self.send }
    }
}

impl Clone for ChannelState {
    fn clone(&self) -> (res: Self)
        ensures
            channel_state_equal(res, *self),
    {
        ChannelState {
            channels: channels_dup(&self.channels),
            direct_messages: channels_dup(&self.direct_messages),
            selected: opt_channel_dup(&self.selected),
            selected_index: self.selected_index,
            opened: opt_channel_dup(&self.opened),
            search: self.search.clone(),
        }
    }
}

impl Clone for MessageState {
    fn clone(&self) -> (res: Self)
        ensures
            message_state_equal(res, *self),
    {
        MessageState {
            messages: messages_dup(&self.messages),
            selected: opt_message_dup(&self.selected),
            selected_index: self.selected_index,
            opened: opt_message_dup(&self.opened),
        }
    }
}

impl Clone for ThreadState {
    fn clone(&self) -> (res: Self)
        ensures
            thread_state_equal(res, *self),
    {
        ThreadState {
            messages: messages_dup(&self.messages),
            selected: opt_message_dup(&self.selected),
            selected_index: self.selected_index,
        }
    }
}

impl Clone for State {
    fn clone(&self) -> (res: Self)
        ensures
            state_equal(res, *self),
    {
        State {
            global: self.global.clone(),
            channel: self.channel.clone(),
            message: self.message.clone(),
            input: self.input.clone(),
            thread: self.thread.clone(),
        }
    }
}

pub fn global_eq(a: &GlobalState, b: &GlobalState) -> (r: bool)
    ensures
        r == global_equal(*a, *b),
{
    members_eq(&a.members, &b.members) && a.section == b.section && a.exit == b.exit
}

pub fn input_eq(a: &InputState, b: &InputState) -> (r: bool)
    ensures
        r == input_equal(*a, *b),
{
    a.value == b.value && a.send == b.send
}

fn opt_usize_eq(a: &Option<usize>, b: &Option<usize>) -> (r: bool)
    ensures
        r == (*a == *b),
{
    match (a, b) {
        (Option::None, Option::None) => true,
        (Option::Some(x), Option::Some(y)) => *x == *y,
        _ => false,
    }
}

pub fn channel_state_eq(a: &ChannelState, b: &ChannelState) -> (r: bool)
    ensures
        r == channel_state_equal(*a, *b),
{
    channels_eq(&a.channels, &b.channels) && channels_eq(&a.direct_messages, &b.direct_messages)
        && opt_channel_eq(&a.selected, &b.selected)
        && opt_usize_eq(&a.selected_index, &b.selected_index)
        && opt_channel_eq(&a.opened, &b.opened) && a.search == b.search
}

pub fn message_state_eq(a: &MessageState, b: &MessageState) -> (r: bool)
    ensures
        r == message_state_equal(*a, *b),
{
    messages_eq(&a.messages, &b.messages) && opt_message_eq(&a.selected, &b.selected)
        && opt_usize_eq(&a.selected_index, &b.selected_index)
        && opt_message_eq(&a.opened, &b.opened)
}

pub fn thread_state_eq(a: &ThreadState, b: &ThreadState) -> (r: bool)
    ensures
        r == thread_state_equal(*a, *b),
{
    messages_eq(&a.messages, &b.messages) && opt_message_eq(&a.selected, &b.selected)
        && opt_usize_eq(&a.selected_index, &b.selected_index)
}

pub fn state_eq(a: &State, b: &State) -> (r: bool)
    ensures
        r == state_equal(*a, *b),
{
    global_eq(&a.global, &b.global) && channel_state_eq(&a.channel, &b.channel)
        && message_state_eq(&a.message, &b.message) && input_eq(&a.input, &b.input)
        && thread_state_eq(&a.thread, &b.thread)
}

} // verus!
