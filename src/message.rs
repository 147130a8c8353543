use vstd::prelude::*;

verus! {

/// A point in time: whole seconds since the Unix epoch and the nanoseconds
/// past that second (above 999_999_999 only during a leap second).
#[derive(Clone, Copy, Debug, PartialEq, Eq, Structural)]
pub struct Timestamp {
    pub secs: i64,
    pub nanos: u32,
}

/// `a` lies no later than `b`.
pub open spec fn not_after(a: Timestamp, b: Timestamp) -> bool {
    a.secs < b.secs || (a.secs == b.secs && a.nanos <= b.nanos)
}

impl Timestamp {
    /// Whether `self` lies no later than `other`.
    pub fn is_not_after(&self, other: &Timestamp) -> (r: bool)
        ensures
            r == not_after(*self, *other),
    {
        self.secs < other.secs || (self.secs == other.secs && self.nanos <= other.nanos)
    }
}

/// What a client sends to create a message.
pub struct MessageIncoming {
    pub text: String,
    pub user: Option<String>,
}

/// A stored message.
pub struct Message {
    pub id: u128,
    pub text: String,
    pub woops: u64,
    pub created: Timestamp,
    pub user: String,
}

/// A message as a mathematical value.
pub struct MessageView {
    pub id: u128,
    pub text: Seq<char>,
    pub woops: u64,
    pub created: Timestamp,
    pub user: Seq<char>,
}

impl View for Message {
    type V = MessageView;

    open spec fn view(&self) -> MessageView {
        MessageView {
            id: self.id,
            text: self.text@,
            woops: self.woops,
            created: self.created,
            user: self.user@,
        }
    }
}

/// The author recorded when a client names none.
pub open spec fn anonymous() -> Seq<char> {
    "Anonym"@
}

/// The author that a create request resolves to.
pub open spec fn author_of(user: Option<Seq<char>>) -> Seq<char> {
    match user {
        Some(u) => u,
        None => anonymous(),
    }
}

/// The message that a create request becomes, given its identifier and time.
pub open spec fn fresh_message(
    text: Seq<char>,
    user: Option<Seq<char>>,
    id: u128,
    created: Timestamp,
) -> MessageView {
    MessageView { id, text, woops: 0, created, user: author_of(user) }
}

impl MessageIncoming {
    /// The optional author as a mathematical value.
    pub open spec fn user_view(&self) -> Option<Seq<char>> {
        match self.user {
            Some(u) => Some(u@),
            None => None,
        }
    }
}

impl Message {
    /// Builds the message that `msg` asks for, under identifier `id`, created
    /// at `created`, with no woops yet.
    pub fn from_parts(msg: MessageIncoming, id: u128, created: Timestamp) -> (r: Message)
        ensures
            r@ == fresh_message(msg.text@, msg.user_view(), id, created),
    {
        let user = match msg.user {
            Some(u) => u,
            None => String::from_str("Anonym"),
        };
        Message { id, text: msg.text, woops: 0, created, user }
    }

    /// Builds the message that `msg` asks for, with a fresh random identifier
    /// and the current time.
    pub fn from_incoming(msg: MessageIncoming) -> (r: Message)
        ensures
            r.text@ == msg.text@,
            r.user@ == author_of(msg.user_view()),
            r.woops == 0,
    {
        let id = crate::ident::new_id();
        let created = crate::clock::now();
        Message::from_parts(msg, id, created)
    }

    /// A copy of this message.
    pub fn duplicate(&self) -> (r: Message)
        ensures
            r@ == self@,
    {
        Message {
            id: self.id,
            text: self.text.clone(),
            woops: self.woops,
            created: self.created,
            user: self.user.clone(),
        }
    }
}

} // verus!
