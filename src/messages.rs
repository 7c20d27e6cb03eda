//! Folders, messages and their recipients, and decoding one message from its detail.

use vstd::prelude::*;

use crate::client::{grouped, SynergiaClient};
use crate::content::{decode_content, decoded_text, remove_content_prefix_and_suffix, without_envelope};
use crate::decimal::{decimal, decimal_text};
use crate::error::ApiError;
use crate::json::{deref_opt, items_of, lookup, text_of, Json};
use crate::users::{User, UserName, UserSet};

verus! {

/// The address every API path of the portal's messaging service is relative to.
pub const API_BASE: &'static str = "https://wiadomosci.librus.pl/api/";

/// The three mailbox folders of the portal; each can also be read from the archive.
#[derive(Debug, Clone, Copy, PartialEq, Eq, Structural)]
pub enum MessageType {
    Inbox,
    Sent,
    Trash,
}

/// The last part of a folder's path.
pub open spec fn folder_name(t: MessageType) -> Seq<char> {
    match t {
        MessageType::Inbox => "inbox"@,
        MessageType::Sent => "outbox"@,
        MessageType::Trash => "trash-bin"@,
    }
}

/// The API path of a folder, under `archive/` for the archived one.
pub open spec fn folder_path(t: MessageType, archive: bool) -> Seq<char> {
    if archive {
        "archive/"@ + folder_name(t)
    } else {
        folder_name(t)
    }
}

/// Every pair of folder type and archive flag has its own path.
pub proof fn lemma_folder_paths_distinct(t1: MessageType, a1: bool, t2: MessageType, a2: bool)
    ensures
        folder_path(t1, a1) == folder_path(t2, a2) ==> t1 == t2 && a1 == a2,
{
    reveal_strlit("inbox");
    reveal_strlit("outbox");
    reveal_strlit("trash-bin");
    reveal_strlit("archive/");
    let p1 = folder_path(t1, a1);
    let p2 = folder_path(t2, a2);
    if p1 == p2 {
        assert(p1[0] == p2[0]);
        if a1 && a2 {
            assert(p1[8] == p2[8]);
        }
    }
}

impl MessageType {
    /// The API path of this folder, or of its archived counterpart.
    pub fn get_path(&self, archive: bool) -> (r: String)
        ensures
            r@ == folder_path(*self, archive),
    {
        let path_end = match self {
            MessageType::Inbox => "inbox",
            MessageType::Sent => "outbox",
            MessageType::Trash => "trash-bin",
        };
        if archive {
            let mut path = "archive/".to_string();
            path.append(path_end);
            path
        } else {
            path_end.to_string()
        }
    }
}

/// Which member of a message's detail holds its content, for each folder type.
/// The portal has not been consistent about these names, so they are data.
#[derive(Debug, Clone)]
pub struct ContentFields {
    pub inbox: String,
    pub sent: String,
    pub trash: String,
}

impl ContentFields {
    /// The member name for folder type `t`.
    pub open spec fn field_for(&self, t: MessageType) -> Seq<char> {
        match t {
            MessageType::Inbox => self.inbox@,
            MessageType::Sent => self.sent@,
            MessageType::Trash => self.trash@,
        }
    }

    /// The names the portal uses today: `content`, but `Message` for sent messages.
    pub fn standard() -> (r: ContentFields)
        ensures
            r.inbox@ == "content"@,
            r.sent@ == "Message"@,
            r.trash@ == "content"@,
    {
        ContentFields {
            inbox: "content".to_string(),
            sent: "Message".to_string(),
            trash: "content".to_string(),
        }
    }

    /// The member name for folder type `t`.
    pub fn get(&self, t: MessageType) -> (r: &String)
        ensures
            r@ == self.field_for(t),
    {
        match t {
            MessageType::Inbox => &self.inbox,
            MessageType::Sent => &self.sent,
            MessageType::Trash => &self.trash,
        }
    }
}

/// The recipients of a message: a small set is written out, a large one is the index of
/// its slot in the session's registry.
#[derive(Debug, Clone)]
pub enum UserGroup {
    Small(UserSet),
    Large(usize),
}

/// Whether `g` is what the registry gives for the set `s` when it answers `slot`
/// (`None`: not registered).
pub open spec fn group_matches(g: UserGroup, s: Set<UserName>, slot: Option<int>) -> bool {
    match g {
        UserGroup::Small(users) => slot is None && users@ == s && users.wf(),
        UserGroup::Large(i) => slot == Some(i as int),
    }
}

/// A fully decoded message.
#[derive(Debug, Clone)]
pub struct Message {
    pub sender: User,
    pub topic: String,
    pub content: String,
    pub send_date: String,
    pub receivers: UserGroup,
}

/// Whether `e` reports the member `name` as missing or of the wrong shape.
pub open spec fn is_missing(e: ApiError, name: Seq<char>) -> bool {
    e matches ApiError::Deserialization(f) && f@ == name
}

/// A member's text, or the empty text when it is absent or not a string.
pub open spec fn text_or_empty(v: Option<Json>) -> Seq<char> {
    match text_of(v) {
        Some(t) => t,
        None => Seq::empty(),
    }
}

/// The user that one element of a recipient list names.
pub open spec fn receiver_name(e: Json) -> UserName {
    (text_or_empty(lookup(Some(e), "firstName"@)), text_or_empty(lookup(Some(e), "lastName"@)))
}

/// The set of users that a recipient list names.
pub open spec fn receivers_set(items: Seq<Json>) -> Set<UserName> {
    items.map_values(|e: Json| receiver_name(e)).to_set()
}

/// The text of member `key` of `v`, or the empty string.
fn member_text_or_empty(v: &Json, key: &str) -> (r: String)
    ensures
        r@ == text_or_empty(lookup(Some(*v), key@)),
{
    match v.get(key) {
        Some(m) => match m.as_str() {
            Some(s) => s.clone(),
            None => String::new(),
        },
        None => String::new(),
    }
}

/// Reads a recipient list into a set of users; a missing name counts as empty.
pub fn parse_receivers(receivers: Option<&Json>) -> (r: Result<UserSet, ApiError>)
    ensures
        match (r, receivers) {
            (Ok(users), Some(v)) => items_of(Some(*v)) matches Some(items) && users.wf()
                && users@ == receivers_set(items),
            (Err(e), Some(v)) => items_of(Some(*v)) is None && is_missing(e, "receivers"@),
            (Err(e), None) => is_missing(e, "receivers"@),
            (Ok(_), None) => false,
        },
{
    let items = match receivers {
        Some(v) => match v.as_array() {
            Some(items) => items,
            None => return Err(ApiError::Deserialization("receivers".to_string())),
        },
        None => return Err(ApiError::Deserialization("receivers".to_string())),
    };
    let mut users = UserSet::new();
    let mut i: usize = 0;
    while i < items.len()
        invariant
            0 <= i <= items@.len(),
            users.wf(),
            users@ == receivers_set(items@.subrange(0, i as int)),
        decreases items.len() - i,
    {
        let first_name = member_text_or_empty(&items[i], "firstName");
        let last_name = member_text_or_empty(&items[i], "lastName");
        let user = User::new(first_name, last_name);
        assert(user@ == receiver_name(items@[i as int]));
        users.insert(user);
        proof {
            let before = items@.subrange(0, i as int).map_values(|e: Json| receiver_name(e));
            assert(items@.subrange(0, i + 1).map_values(|e: Json| receiver_name(e)) =~= before.push(
                user@,
            ));
            before.lemma_push_to_set_commute(user@);
        }
        i = i + 1;
    }
    assert(items@.subrange(0, items@.len() as int) == items@);
    Ok(users)
}

/// Whether every member that decoding reads is present in `data` and well formed,
/// with `field` as the member that holds the content.
pub open spec fn detail_complete(data: Option<Json>, field: Seq<char>) -> bool {
    &&& text_of(lookup(data, field)) matches Some(enc) && decoded_text(enc) is Some
    &&& text_of(lookup(data, "topic"@)) is Some
    &&& text_of(lookup(data, "sendDate"@)) is Some
    &&& text_of(lookup(data, "senderFirstName"@)) is Some
    &&& text_of(lookup(data, "senderLastName"@)) is Some
    &&& items_of(lookup(data, "receivers"@)) is Some
}

/// Whether `e` is the error for the first step of decoding that fails on `data`.
pub open spec fn detail_error(e: ApiError, data: Option<Json>, field: Seq<char>) -> bool {
    if text_of(lookup(data, field)) is None {
        is_missing(e, field)
    } else if decoded_text(text_of(lookup(data, field))->0) is None {
        e is Decoding
    } else if text_of(lookup(data, "topic"@)) is None {
        is_missing(e, "topic"@)
    } else if text_of(lookup(data, "sendDate"@)) is None {
        is_missing(e, "sendDate"@)
    } else if text_of(lookup(data, "senderFirstName"@)) is None {
        is_missing(e, "senderFirstName"@)
    } else if text_of(lookup(data, "senderLastName"@)) is None {
        is_missing(e, "senderLastName"@)
    } else {
        is_missing(e, "receivers"@)
    }
}

/// The message that a complete `data` describes, but for its recipients.
pub open spec fn message_matches(m: Message, data: Option<Json>, field: Seq<char>) -> bool {
    &&& m.content@ == without_envelope(decoded_text(text_of(lookup(data, field))->0)->0)
    &&& m.topic@ == text_of(lookup(data, "topic"@))->0
    &&& m.send_date@ == text_of(lookup(data, "sendDate"@))->0
    &&& m.sender.first_name@ == text_of(lookup(data, "senderFirstName"@))->0
    &&& m.sender.last_name@ == text_of(lookup(data, "senderLastName"@))->0
}

/// The text of member `key` of `v`, or the error that names it.
fn required_text(v: Option<&Json>, key: &str) -> (r: Result<String, ApiError>)
    ensures
        match r {
            Ok(s) => text_of(lookup(deref_opt(v), key@)) == Some(s@),
            Err(e) => text_of(lookup(deref_opt(v), key@)) is None && is_missing(e, key@),
        },
{
    match v {
        Some(d) => match d.get(key) {
            Some(m) => match m.as_str() {
                Some(s) => Ok(s.clone()),
                None => Err(ApiError::Deserialization(key.to_string())),
            },
            None => Err(ApiError::Deserialization(key.to_string())),
        },
        None => Err(ApiError::Deserialization(key.to_string())),
    }
}

/// One message of a folder, not fetched yet: which folder, and its id there.
#[derive(Debug, Clone, Copy, PartialEq, Eq, Structural)]
pub struct MessageHandle {
    pub in_archive: bool,
    pub message_type: MessageType,
    pub id: i64,
}

impl MessageHandle {
    /// The handle of message `id` in the given folder.
    pub fn new(in_archive: bool, message_type: MessageType, id: i64) -> (r: MessageHandle)
        ensures
            r.in_archive == in_archive,
            r.message_type == message_type,
            r.id == id,
    {
        MessageHandle { in_archive, message_type, id }
    }

    /// The address of this message's detail.
    pub fn url(&self) -> (r: String)
        ensures
            r@ == API_BASE@ + folder_path(self.message_type, self.in_archive) + "/messages/"@
                + decimal(self.id as int),
    {
        let mut url = API_BASE.to_string();
        let path = self.message_type.get_path(self.in_archive);
        url.append(path.as_str());
        url.append("/messages/");
        let id = decimal_text(self.id);
        url.append(id.as_str());
        url
    }

    /// Decodes this message from its detail, as fetched from `url`, and files its
    /// recipients with the session's registry.
    pub fn get_message(&self, client: &mut SynergiaClient, detail: &Json) -> (r: Result<
        Message,
        ApiError,
    >)
        requires
            old(client).wf(),
        ensures
            final(client).wf(),
            final(client).min_big_group() == old(client).min_big_group(),
            final(client).content_fields() == old(client).content_fields(),
            ({
                let data = lookup(Some(*detail), "data"@);
                let field = old(client).content_fields().field_for(self.message_type);
                match r {
                    Ok(m) => {
                        &&& detail_complete(data, field)
                        &&& message_matches(m, data, field)
                        &&& items_of(lookup(data, "receivers"@)) matches Some(items) && ({
                            let s = receivers_set(items);
                            let (groups, slot) = grouped(
                                old(client).groups(),
                                s,
                                old(client).min_big_group() as nat,
                            );
                            final(client).groups() == groups && group_matches(
                                m.receivers,
                                s,
                                slot,
                            )
                        })
                    },
                    Err(e) => {
                        &&& !detail_complete(data, field)
                        &&& detail_error(e, data, field)
                        &&& final(client).groups() == old(client).groups()
                    },
                }
            }),
    {
        let data = detail.get("data");
        let field = client.content_fields_ref().get(self.message_type);
        let encoded = match required_text(data, field.as_str()) {
            Ok(t) => t,
            Err(e) => return Err(e),
        };
        let decoded = match decode_content(encoded.as_str()) {
            Ok(t) => t,
            Err(e) => return Err(e),
        };
        let content = remove_content_prefix_and_suffix(decoded);
        let topic = match required_text(data, "topic") {
            Ok(t) => t,
            Err(e) => return Err(e),
        };
        let send_date = match required_text(data, "sendDate") {
            Ok(t) => t,
            Err(e) => return Err(e),
        };
        let sender_first_name = match required_text(data, "senderFirstName") {
            Ok(t) => t,
            Err(e) => return Err(e),
        };
        let sender_last_name = match required_text(data, "senderLastName") {
            Ok(t) => t,
            Err(e) => return Err(e),
        };
        let receivers_value = match data {
            Some(d) => d.get("receivers"),
            None => None,
        };
        let receivers_set = match parse_receivers(receivers_value) {
            Ok(users) => users,
            Err(e) => return Err(e),
        };
        let receivers = client.intern(receivers_set);
        Ok(
            Message {
                sender: User::new(sender_first_name, sender_last_name),
                topic,
                content,
                send_date,
                receivers,
            },
        )
    }
}

} // verus!
