//! Messages and conversation snapshots.
use vstd::prelude::*;

verus! {

#[derive(Clone, Copy, Debug, PartialEq, Eq, Structural)]
pub enum Role {
    System,
    User,
    Assistant,
    Tool,
}

/// A tool invocation asked for by an assistant message.
#[derive(Clone, Debug, PartialEq, Eq)]
pub struct ToolCall {
    pub id: String,
    pub name: String,
    /// Serialized arguments.
    pub args: String,
}

pub struct ToolCallView {
    pub id: Seq<char>,
    pub name: Seq<char>,
    pub args: Seq<char>,
}

impl View for ToolCall {
    type V = ToolCallView;

    open spec fn view(&self) -> ToolCallView {
        ToolCallView { id: self.id@, name: self.name@, args: self.args@ }
    }
}

impl ToolCall {
    pub fn duplicate(&self) -> (copy: ToolCall)
        ensures
            copy == *self,
    {
        ToolCall { id: self.id.clone(), name: self.name.clone(), args: self.args.clone() }
    }

    fn same(&self, other: &ToolCall) -> (same: bool)
        ensures
            same == (self@ == other@),
    {
        self.id == other.id && self.name == other.name && self.args == other.args
    }
}

/// One message of a conversation.
#[derive(Clone, Debug, PartialEq, Eq)]
pub struct Message {
    pub role: Role,
    pub text: String,
    /// Injected by the runtime rather than written by the user or the model.
    pub synthetic: bool,
    pub tool_calls: Vec<ToolCall>,
    /// What else is stored with the message, such as its usage and its images, as JSON text;
    /// empty where there is nothing else.
    pub rest: String,
}

pub struct MessageView {
    pub role: Role,
    pub text: Seq<char>,
    pub synthetic: bool,
    pub tool_calls: Seq<ToolCallView>,
    pub rest: Seq<char>,
}

impl View for Message {
    type V = MessageView;

    open spec fn view(&self) -> MessageView {
        MessageView {
            role: self.role,
            text: self.text@,
            synthetic: self.synthetic,
            tool_calls: self.tool_calls@.map_values(|call: ToolCall| call@),
            rest: self.rest@,
        }
    }
}

impl MessageView {
    /// A prompt that the user wrote.
    pub open spec fn is_prompt(self) -> bool {
        self.role == Role::User && !self.synthetic
    }

    pub open spec fn plain(role: Role, text: Seq<char>, synthetic: bool) -> MessageView {
        MessageView { role, text, synthetic, tool_calls: Seq::empty(), rest: Seq::empty() }
    }
}

impl Message {
    fn plain(role: Role, text: String, synthetic: bool) -> (message: Message)
        ensures
            message@ == MessageView::plain(role, text@, synthetic),
    {
        let message = Message {
            role,
            text,
            synthetic,
            tool_calls: Vec::new(),
            rest: String::new(),
        };
        assert(message@.tool_calls =~= Seq::empty());
        message
    }

    pub fn system(text: &str) -> (message: Message)
        ensures
            message@ == MessageView::plain(Role::System, text@, false),
    {
        Message::plain(Role::System, text.to_owned(), false)
    }

    pub fn user(text: &str) -> (message: Message)
        ensures
            message@ == MessageView::plain(Role::User, text@, false),
    {
        Message::plain(Role::User, text.to_owned(), false)
    }

    /// A user-role message that the runtime injects.
    pub fn synthetic_user(text: String) -> (message: Message)
        ensures
            message@ == MessageView::plain(Role::User, text@, true),
    {
        Message::plain(Role::User, text, true)
    }

    pub fn assistant(text: &str, tool_calls: Vec<ToolCall>) -> (message: Message)
        ensures
            message@ == (MessageView {
                role: Role::Assistant,
                text: text@,
                synthetic: false,
                tool_calls: tool_calls@.map_values(|call: ToolCall| call@),
                rest: Seq::empty(),
            }),
    {
        Message {
            role: Role::Assistant,
            text: text.to_owned(),
            synthetic: false,
            tool_calls,
            rest: String::new(),
        }
    }

    pub fn is_prompt(&self) -> (prompt: bool)
        ensures
            prompt == self@.is_prompt(),
    {
        self.role == Role::User && !self.synthetic
    }

    pub fn duplicate(&self) -> (copy: Message)
        ensures
            copy@ == self@,
    {
        let mut tool_calls: Vec<ToolCall> = Vec::new();
        let mut i: usize = 0;
        while i < self.tool_calls.len()
            invariant
                0 <= i <= self.tool_calls.len(),
                tool_calls@ == self.tool_calls@.take(i as int),
            decreases self.tool_calls.len() - i,
        {
            tool_calls.push(self.tool_calls[i].duplicate());
            assert(tool_calls@ =~= self.tool_calls@.take(i + 1));
            i = i + 1;
        }
        assert(tool_calls@ =~= self.tool_calls@);
        Message {
            role: self.role,
            text: self.text.clone(),
            synthetic: self.synthetic,
            tool_calls,
            rest: self.rest.clone(),
        }
    }

    pub fn same(&self, other: &Message) -> (same: bool)
        ensures
            same == (self@ == other@),
    {
        if self.role != other.role || self.synthetic != other.synthetic || self.text
            != other.text || self.rest != other.rest {
            return false;
        }
        if self.tool_calls.len() != other.tool_calls.len() {
            assert(self@.tool_calls.len() != other@.tool_calls.len());
            return false;
        }
        let mut i: usize = 0;
        while i < self.tool_calls.len()
            invariant
                0 <= i <= self.tool_calls.len(),
                self.tool_calls.len() == other.tool_calls.len(),
                forall|j: int|
                    0 <= j < i ==> self@.tool_calls[j] == #[trigger] other@.tool_calls[j],
            decreases self.tool_calls.len() - i,
        {
            if !self.tool_calls[i].same(&other.tool_calls[i]) {
                assert(self@.tool_calls[i as int] != other@.tool_calls[i as int]);
                return false;
            }
            i = i + 1;
        }
        assert(self@.tool_calls =~= other@.tool_calls);
        true
    }
}

/// Messages as values.
pub open spec fn message_views(messages: Seq<Message>) -> Seq<MessageView> {
    messages.map_values(|message: Message| message@)
}

/// How many prompts of the user a conversation holds.
pub open spec fn prompt_count(messages: Seq<MessageView>) -> nat
    decreases messages.len(),
{
    if messages.len() == 0 {
        0
    } else {
        prompt_count(messages.drop_last()) + if messages.last().is_prompt() {
            1nat
        } else {
            0nat
        }
    }
}

/// A longer prefix holds at least as many prompts.
pub proof fn prompt_count_grows(messages: Seq<MessageView>, i: int, j: int)
    requires
        0 <= i <= j <= messages.len(),
    ensures
        prompt_count(messages.take(i)) <= prompt_count(messages.take(j)),
        prompt_count(messages.take(j)) <= j,
    decreases j,
{
    if j == 0 {
    } else {
        assert(messages.take(j).drop_last() =~= messages.take(j - 1));
        if i < j {
            prompt_count_grows(messages, i, j - 1);
        } else {
            prompt_count_grows(messages, j - 1, j - 1);
        }
    }
}

/// A copy of the first `count` messages.
pub fn copy_prefix(messages: &Vec<Message>, count: usize) -> (copy: Vec<Message>)
    requires
        count <= messages.len(),
    ensures
        message_views(copy@) == message_views(messages@).take(count as int),
{
    let mut copy: Vec<Message> = Vec::new();
    let mut i: usize = 0;
    while i < count
        invariant
            0 <= i <= count <= messages.len(),
            message_views(copy@) == message_views(messages@).take(i as int),
        decreases count - i,
    {
        let ghost before = message_views(copy@);
        let message = messages[i].duplicate();
        copy.push(message);
        assert(message_views(copy@) =~= before.push(message@));
        assert(message_views(copy@) =~= message_views(messages@).take(i + 1));
        i = i + 1;
    }
    copy
}

/// Durable state of a conversation.
#[derive(Clone, Debug, PartialEq, Eq)]
pub struct SessionSnapshot {
    pub messages: Vec<Message>,
    pub turn_counter: u64,
    pub request_counter: u64,
    /// What else is stored with the snapshot, as JSON text.
    pub rest: String,
}

pub struct SnapshotView {
    pub messages: Seq<MessageView>,
    pub turn_counter: u64,
    pub request_counter: u64,
    pub rest: Seq<char>,
}

impl View for SessionSnapshot {
    type V = SnapshotView;

    open spec fn view(&self) -> SnapshotView {
        SnapshotView {
            messages: message_views(self.messages@),
            turn_counter: self.turn_counter,
            request_counter: self.request_counter,
            rest: self.rest@,
        }
    }
}

impl SessionSnapshot {
    pub fn new(messages: Vec<Message>) -> (snapshot: SessionSnapshot)
        ensures
            snapshot@ == (SnapshotView {
                messages: message_views(messages@),
                turn_counter: 0,
                request_counter: 0,
                rest: Seq::empty(),
            }),
    {
        SessionSnapshot { messages, turn_counter: 0, request_counter: 0, rest: String::new() }
    }

    pub fn same(&self, other: &SessionSnapshot) -> (same: bool)
        ensures
            same == (self@ == other@),
    {
        if self.turn_counter != other.turn_counter || self.request_counter
            != other.request_counter || self.rest != other.rest {
            return false;
        }
        if self.messages.len() != other.messages.len() {
            assert(self@.messages.len() != other@.messages.len());
            return false;
        }
        let mut i: usize = 0;
        while i < self.messages.len()
            invariant
                0 <= i <= self.messages.len(),
                self.messages.len() == other.messages.len(),
                forall|j: int| 0 <= j < i ==> self@.messages[j] == #[trigger] other@.messages[j],
            decreases self.messages.len() - i,
        {
            if !self.messages[i].same(&other.messages[i]) {
                assert(self@.messages[i as int] != other@.messages[i as int]);
                return false;
            }
            i = i + 1;
        }
        assert(self@.messages =~= other@.messages);
        true
    }

    /// A copy of the snapshot.
    pub fn duplicate(&self) -> (copy: SessionSnapshot)
        ensures
            copy@ == self@,
    {
        let messages = copy_prefix(&self.messages, self.messages.len());
        assert(message_views(self.messages@).take(self.messages@.len() as int) =~= message_views(
            self.messages@,
        ));
        SessionSnapshot {
            messages,
            turn_counter: self.turn_counter,
            request_counter: self.request_counter,
            rest: self.rest.clone(),
        }
    }
}

} // verus!
