//! The records that the server writes to and reads from the document store,
//! made from what the routes have read.

use crate::model::{Message, User};
use crate::object_id::{lower_hex, new_object_id, object_id_to_string, ObjectIdBytes};
use crate::password::{bcrypt_hash, bcrypt_verified, HASH_COST};
use crate::routes::authorization::login_outcome;
use crate::routes::{
    login_spec, DbError, MessageDBOId, MessageTwoUsers, Status, UserDboIdUser, UserDboPassUser,
};
use crate::text::strings_view;
use vstd::prelude::*;

verus! {

/// The account record for a registration, with the given identifier and password hash.
pub fn account_record(user: &UserDboPassUser, id: ObjectIdBytes, hash_password: String) -> (r:
    User)
    ensures
        r._id == id,
        r.username@ == user.username@,
        r.password == hash_password,
{
    User { _id: id, username: user.username.clone(), password: hash_password }
}

/// The account record to store for a registration: a fresh identifier, the
/// name, and the bcrypt hash (cost 4, so it begins `$2b$04$`) of the password;
/// `None` where hashing fails. Logging in with the same password against the record succeeds.
pub fn new_account_record(user: &UserDboPassUser) -> (r: Option<User>)
    ensures
        r matches Some(u) ==> {
            &&& u.username@ == user.username@
            &&& u.password@.len() == 60
            &&& u.password@.take(7) == seq!['$', '2', 'b', '$', '0', '4', '$']
            &&& bcrypt_verified(user.password@, u.password@) == Some(true)
            &&& login_outcome(user.password@, login_spec(Ok(Some(u)))) == Ok::<Status, Status>(
                Status::Success,
            )
        },
{
    match bcrypt_hash(user.password.as_str(), HASH_COST) {
        Some(hash_password) => {
            let id = ObjectIdBytes { bytes: new_object_id() };
            proof {
                let h = hash_password@;
                assert(h[4] as u32 == 48);
                assert(h[5] as u32 == 52);
                vstd::utf8::char_u32_cast(h[4], 48);
                vstd::utf8::char_u32_cast('0', 48);
                vstd::utf8::char_u32_cast(h[5], 52);
                vstd::utf8::char_u32_cast('4', 52);
                assert(h[4] == '0');
                assert(h[5] == '4');
                assert(h.take(7) =~= seq!['$', '2', 'b', '$', '0', '4', '$']) by {
                    assert(h.take(7)[0] == h.take(4)[0]);
                    assert(h.take(7)[1] == h.take(4)[1]);
                    assert(h.take(7)[2] == h.take(4)[2]);
                    assert(h.take(7)[3] == h.take(4)[3]);
                }
            }
            Some(account_record(user, id, hash_password))
        },
        None => None,
    }
}

/// How an account is listed: its identifier in lower-case hex, and its name.
pub fn user_summary(user: &User) -> (r: UserDboIdUser)
    ensures
        r._id@ == lower_hex(user._id.bytes@),
        r.username@ == user.username@,
{
    UserDboIdUser { _id: object_id_to_string(user._id.bytes), username: user.username.clone() }
}

/// Whether `c` is one of the digits 0 to 9.
pub open spec fn is_decimal_digit(c: char) -> bool {
    ('0' as u32) <= (c as u32) <= ('9' as u32)
}

/// The value of the two decimal digits at `i` and `i + 1`.
pub open spec fn two_digit_value(t: Seq<char>, i: int) -> int {
    (t[i] as u32 - ('0' as u32)) * 10 + (t[i + 1] as u32 - ('0' as u32))
}

/// Whether `t` reads as a time of day the way `NaiveTime` displays one:
/// `HH:MM:SS`, hours below 24, minutes below 60, seconds up to 60 (a leap
/// second), then either nothing or `.` and 3, 6 or 9 digits of the fraction.
pub open spec fn is_clock_text(t: Seq<char>) -> bool {
    &&& t.len() == 8 || t.len() == 12 || t.len() == 15 || t.len() == 18
    &&& t[2] == ':'
    &&& t[5] == ':'
    &&& t.len() > 8 ==> t[8] == '.'
    &&& forall|i: int| 0 <= i < t.len() && i != 2 && i != 5 && i != 8 ==> #[trigger] is_decimal_digit(t[i])
    &&& two_digit_value(t, 0) < 24
    &&& two_digit_value(t, 3) < 60
    &&& two_digit_value(t, 6) <= 60
}

/// `Utc::now().time().to_string()`: the time of day on the clock, in UTC.
/// Which time it is depends on the clock and is not stated; the contract states
/// its shape, as `NaiveTime`'s `Display` writes it: hour, minute and second in
/// two digits each (the second may be 60 in a leap second), separated by `:`,
/// then, unless the fraction is zero, `.` and the fraction in 3, 6 or 9 digits.
#[verifier::external_body]
fn current_time_text() -> (r: String)
    ensures
        is_clock_text(r@),
{
    chrono::Utc::now().time().to_string()
}

/// The message record for a message, stamped with the given time of day.
pub fn message_record(message_dbo: MessageDBOId, time: String) -> (r: Message)
    ensures
        r.body == message_dbo.body,
        r.to == message_dbo.to,
        r.from == message_dbo.from,
        r.time == time,
{
    Message { body: message_dbo.body, to: message_dbo.to, from: message_dbo.from, time }
}

/// The message record to store for a message, stamped with the current time of day.
pub fn post_message_record(message_dbo: MessageDBOId) -> (r: Message)
    ensures
        r.body == message_dbo.body,
        r.to == message_dbo.to,
        r.from == message_dbo.from,
        is_clock_text(r.time@),
{
    let time = current_time_text();
    message_record(message_dbo, time)
}

/// A stored message between two accounts, with both named.
pub fn message_between(message: &Message, to_user: &User, from_user: &User) -> (r:
    MessageTwoUsers)
    ensures
        r.body@ == message.body@,
        r.to@ == to_user.username@,
        r.from@ == from_user.username@,
        r.time@ == message.time@,
{
    MessageTwoUsers {
        body: message.body.clone(),
        to: to_user.username.clone(),
        from: from_user.username.clone(),
        time: message.time.clone(),
    }
}

/// The names of the accounts that have written to someone, each once, in
/// the order in which they were first seen.
#[derive(Debug)]
pub struct UsernameSet {
    names: Vec<String>,
}

impl View for UsernameSet {
    type V = Seq<Seq<char>>;

    closed spec fn view(&self) -> Seq<Seq<char>> {
        strings_view(self.names@)
    }
}

impl UsernameSet {
    #[verifier::type_invariant]
    closed spec fn names_distinct(self) -> bool {
        strings_view(self.names@).no_duplicates()
    }

    /// No names yet.
    pub fn new() -> (r: UsernameSet)
        ensures
            r@ == Seq::<Seq<char>>::empty(),
    {
        let r = UsernameSet { names: Vec::new() };
        assert(strings_view(r.names@) =~= Seq::<Seq<char>>::empty());
        r
    }

    /// How many names there are.
    pub fn len(&self) -> (r: usize)
        ensures
            r == self@.len(),
    {
        self.names.len()
    }

    /// Whether the name is among them.
    pub fn contains(&self, name: &str) -> (r: bool)
        ensures
            r == self@.contains(name@),
    {
        let n = self.names.len();
        let mut i: usize = 0;
        while i < n
            invariant
                n == self.names@.len(),
                i <= n,
                forall|j: int| 0 <= j < i ==> self.names@[j]@ != name@,
            decreases n - i,
        {
            if crate::text::text_eq(self.names[i].as_str(), name) {
                assert(self@[i as int] == name@);
                return true;
            }
            i = i + 1;
        }
        assert forall|j: int| 0 <= j < self@.len() implies self@[j] != name@ by {
            assert(self@[j] == self.names@[j]@);
        }
        false
    }

    /// Adds the name unless it is already there; says whether it was added.
    pub fn insert(&mut self, name: String) -> (r: bool)
        ensures
            r == !old(self)@.contains(name@),
            final(self)@ == (if r {
                old(self)@.push(name@)
            } else {
                old(self)@
            }),
            final(self)@.no_duplicates(),
    {
        proof {
            use_type_invariant(&*self);
        }
        if self.contains(name.as_str()) {
            return false;
        }
        let ghost before = self@;
        let mut names = Vec::new();
        std::mem::swap(&mut names, &mut self.names);
        let ghost nm = name@;
        names.push(name);
        assert(strings_view(names@) =~= before.push(nm));
        self.names = names;
        true
    }

    /// The names, in the order in which they were first added.
    pub fn into_vec(self) -> (r: Vec<String>)
        ensures
            strings_view(r@) == self@,
    {
        self.names
    }
}

/// What the store reports while a listing is put together: a message that
/// matched the query, an account that matched a sender's or a recipient's
/// identifier, the end of the messages, or a failed request.
#[derive(Debug)]
pub enum StoreEvent {
    MessageFound(Message),
    SenderFound(User),
    RecipientFound(User),
    NoMoreMessages,
    Failed(DbError),
}

/// Whether `entry` lists message `m` as sent by `from` to `to`.
pub open spec fn lists_message(entry: MessageTwoUsers, m: Message, to: User, from: User) -> bool {
    &&& entry.body@ == m.body@
    &&& entry.to@ == to.username@
    &&& entry.from@ == from.username@
    &&& entry.time@ == m.time@
}

/// Where listing the messages between two accounts stands: the entries so
/// far, the message being completed and its sender, once found.
#[derive(Debug)]
pub struct TwoUsersState {
    pub found: Vec<MessageTwoUsers>,
    pub message: Option<Message>,
    pub sender: Option<User>,
}

/// What listing the messages between two accounts does next.
#[derive(Debug)]
pub enum TwoUsersAction {
    /// Find the messages with this recipient and this sender.
    FindMessages { to: ObjectIdBytes, from: ObjectIdBytes },
    /// Find the accounts with this identifier, as the message's sender.
    FindSenders(ObjectIdBytes),
    /// Find the accounts with this identifier, as the message's recipient.
    FindRecipients(ObjectIdBytes),
    /// Go on reading what the store reports.
    Continue,
    /// Answer with the entries, or with the failure.
    Answer(Result<Vec<MessageTwoUsers>, DbError>),
}

/// Starts listing the messages sent by `from_id` to `to_id`.
pub fn two_users_start(to_id: ObjectIdBytes, from_id: ObjectIdBytes) -> (r: (
    TwoUsersState,
    TwoUsersAction,
))
    ensures
        r.0.found@.len() == 0,
        r.0.message is None,
        r.0.sender is None,
        r.1 == (TwoUsersAction::FindMessages { to: to_id, from: from_id }),
{
    (TwoUsersState { found: Vec::new(), message: None, sender: None }, TwoUsersAction::FindMessages {
        to: to_id,
        from: from_id,
    })
}

/// One step of listing the messages between two accounts. A message found
/// is held and its sender looked up; a sender found is held and the
/// message's recipient looked up; a recipient found adds the entry for the
/// held message, sender and recipient. An event that comes out of that order
/// changes nothing. The end of the messages answers the entries; a failure
/// answers the failure.
pub fn two_users_step(state: TwoUsersState, event: StoreEvent) -> (r: (TwoUsersState, TwoUsersAction))
    ensures
        match event {
            StoreEvent::MessageFound(m) => {
                &&& r.0 == (TwoUsersState { found: state.found, message: Some(m), sender: None })
                &&& r.1 == TwoUsersAction::FindSenders(m.from)
            },
            StoreEvent::SenderFound(u) => match state.message {
                Some(m) => {
                    &&& r.0 == (TwoUsersState {
                        found: state.found,
                        message: Some(m),
                        sender: Some(u),
                    })
                    &&& r.1 == TwoUsersAction::FindRecipients(m.to)
                },
                None => r.0 == state && r.1 == TwoUsersAction::Continue,
            },
            StoreEvent::RecipientFound(u) => match (state.message, state.sender) {
                (Some(m), Some(snd)) => {
                    &&& r.0.message == state.message
                    &&& r.0.sender == state.sender
                    &&& r.0.found@.len() == state.found@.len() + 1
                    &&& r.0.found@.take(state.found@.len() as int) == state.found@
                    &&& lists_message(r.0.found@.last(), m, u, snd)
                    &&& r.1 == TwoUsersAction::Continue
                },
                _ => r.0 == state && r.1 == TwoUsersAction::Continue,
            },
            StoreEvent::NoMoreMessages => {
                &&& r.0.found@.len() == 0
                &&& r.0.message is None
                &&& r.0.sender is None
                &&& r.1 == TwoUsersAction::Answer(Ok(state.found))
            },
            StoreEvent::Failed(e) => {
                &&& r.0.found@.len() == 0
                &&& r.0.message is None
                &&& r.0.sender is None
                &&& r.1 == TwoUsersAction::Answer(Err(e))
            },
        },
{
    let TwoUsersState { found, message, sender } = state;
    match event {
        StoreEvent::MessageFound(m) => {
            let next = m.from;
            (TwoUsersState { found, message: Some(m), sender: None }, TwoUsersAction::FindSenders(
                next,
            ))
        },
        StoreEvent::SenderFound(u) => match message {
            Some(m) => {
                let next = m.to;
                (TwoUsersState { found, message: Some(m), sender: Some(u) },
                TwoUsersAction::FindRecipients(next))
            },
            None => (TwoUsersState { found, message: None, sender }, TwoUsersAction::Continue),
        },
        StoreEvent::RecipientFound(u) => {
            let mut found = found;
            match (&message, &sender) {
                (Some(m), Some(snd)) => {
                    let ghost before = found@;
                    let entry = message_between(m, &u, snd);
                    found.push(entry);
                    assert(found@.take(before.len() as int) =~= before);
                },
                _ => {},
            }
            (TwoUsersState { found, message, sender }, TwoUsersAction::Continue)
        },
        StoreEvent::NoMoreMessages => (
            TwoUsersState { found: Vec::new(), message: None, sender: None },
            TwoUsersAction::Answer(Ok(found)),
        ),
        StoreEvent::Failed(e) => (
            TwoUsersState { found: Vec::new(), message: None, sender: None },
            TwoUsersAction::Answer(Err(e)),
        ),
    }
}

/// Where listing the correspondents of an account stands: the names so far.
#[derive(Debug)]
pub struct PreviewState {
    pub names: UsernameSet,
}

/// What listing the correspondents of an account does next.
#[derive(Debug)]
pub enum PreviewAction {
    /// Find the messages sent to this account.
    FindMessagesTo(ObjectIdBytes),
    /// Find the accounts with this identifier, as a message's sender.
    FindSenders(ObjectIdBytes),
    /// Go on reading what the store reports.
    Continue,
    /// Answer with the names, or with the failure.
    Answer(Result<UsernameSet, DbError>),
}

/// Starts listing who has written to `id`.
pub fn preview_start(id: ObjectIdBytes) -> (r: (PreviewState, PreviewAction))
    ensures
        r.0.names@.len() == 0,
        r.1 == PreviewAction::FindMessagesTo(id),
{
    (PreviewState { names: UsernameSet::new() }, PreviewAction::FindMessagesTo(id))
}

/// One step of listing who has written to an account. A message found has
/// its sender looked up; a sender found has its name added, once; a
/// recipient changes nothing. The end of the messages answers the names; a
/// failure answers the failure.
pub fn preview_step(state: PreviewState, event: StoreEvent) -> (r: (PreviewState, PreviewAction))
    ensures
        match event {
            StoreEvent::MessageFound(m) => r.0 == state && r.1 == PreviewAction::FindSenders(m.from),
            StoreEvent::SenderFound(u) => {
                &&& r.0.names@ == (if state.names@.contains(u.username@) {
                    state.names@
                } else {
                    state.names@.push(u.username@)
                })
                &&& r.1 == PreviewAction::Continue
            },
            StoreEvent::RecipientFound(_) => r.0 == state && r.1 == PreviewAction::Continue,
            StoreEvent::NoMoreMessages => {
                &&& r.0.names@.len() == 0
                &&& r.1 == PreviewAction::Answer(Ok(state.names))
            },
            StoreEvent::Failed(e) => {
                &&& r.0.names@.len() == 0
                &&& r.1 == PreviewAction::Answer(Err(e))
            },
        },
{
    match event {
        StoreEvent::MessageFound(m) => {
            let next = m.from;
            (state, PreviewAction::FindSenders(next))
        },
        StoreEvent::SenderFound(u) => {
            let mut names = state.names;
            names.insert(u.username);
            (PreviewState { names }, PreviewAction::Continue)
        },
        StoreEvent::RecipientFound(_) => (state, PreviewAction::Continue),
        StoreEvent::NoMoreMessages => (
            PreviewState { names: UsernameSet::new() },
            PreviewAction::Answer(Ok(state.names)),
        ),
        StoreEvent::Failed(e) => (
            PreviewState { names: UsernameSet::new() },
            PreviewAction::Answer(Err(e)),
        ),
    }
}

} // verus!
