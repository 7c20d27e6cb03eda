//! The folders an export covers, and the files they go to.

use vstd::prelude::*;

use crate::messages::MessageType;

verus! {

/// A folder that can be exported: its name for display, which folder of the portal it
/// is, and the file its messages go to.
#[derive(Debug, Clone)]
pub struct MessageFolder {
    pub displayed_name: String,
    pub in_archive: bool,
    pub message_type: MessageType,
    pub filename: String,
}

/// The display name, archive flag, type and file name of the `i`-th exportable folder.
pub open spec fn export_folder(i: int) -> (Seq<char>, bool, MessageType, Seq<char>) {
    if i == 0 {
        ("Inbox"@, false, MessageType::Inbox, "messages_inbox.json"@)
    } else if i == 1 {
        ("Sent"@, false, MessageType::Sent, "messages_sent.json"@)
    } else if i == 2 {
        ("Trash"@, false, MessageType::Trash, "messages_trash.json"@)
    } else if i == 3 {
        ("Archive/Inbox"@, true, MessageType::Inbox, "messages_archive_inbox.json"@)
    } else if i == 4 {
        ("Archive/Sent"@, true, MessageType::Sent, "messages_archive_sent.json"@)
    } else {
        ("Archive/Trash"@, true, MessageType::Trash, "messages_archive_trash.json"@)
    }
}

/// Whether `f` is the `i`-th exportable folder.
pub open spec fn is_export_folder(f: MessageFolder, i: int) -> bool {
    (f.displayed_name@, f.in_archive, f.message_type, f.filename@) == export_folder(i)
}

fn folder(displayed_name: &str, in_archive: bool, message_type: MessageType, filename: &str) -> (r:
    MessageFolder)
    ensures
        r.displayed_name@ == displayed_name@,
        r.in_archive == in_archive,
        r.message_type == message_type,
        r.filename@ == filename@,
{
    MessageFolder {
        displayed_name: displayed_name.to_string(),
        in_archive,
        message_type,
        filename: filename.to_string(),
    }
}

impl MessageFolder {
    /// The name shown for this folder.
    pub fn to_string(&self) -> (r: String)
        ensures
            r@ == self.displayed_name@,
    {
        self.displayed_name.clone()
    }
}

/// The six folders of the portal, current ones first, then the archived ones.
pub fn export_folders() -> (r: Vec<MessageFolder>)
    ensures
        r@.len() == 6,
        forall|i: int| 0 <= i < 6 ==> is_export_folder(#[trigger] r@[i], i),
{
    let mut r: Vec<MessageFolder> = Vec::new();
    r.push(folder("Inbox", false, MessageType::Inbox, "messages_inbox.json"));
    r.push(folder("Sent", false, MessageType::Sent, "messages_sent.json"));
    r.push(folder("Trash", false, MessageType::Trash, "messages_trash.json"));
    r.push(folder("Archive/Inbox", true, MessageType::Inbox, "messages_archive_inbox.json"));
    r.push(folder("Archive/Sent", true, MessageType::Sent, "messages_archive_sent.json"));
    r.push(folder("Archive/Trash", true, MessageType::Trash, "messages_archive_trash.json"));
    assert(is_export_folder(r@[0], 0));
    assert(is_export_folder(r@[1], 1));
    assert(is_export_folder(r@[2], 2));
    assert(is_export_folder(r@[3], 3));
    assert(is_export_folder(r@[4], 4));
    assert(is_export_folder(r@[5], 5));
    r
}

} // verus!
