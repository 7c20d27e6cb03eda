use base64::Engine;
use librus_export::client::SynergiaClient;
use librus_export::content::{decode_content, remove_content_prefix_and_suffix};
use librus_export::error::ApiError;
use librus_export::folders::export_folders;
use librus_export::messages::{ContentFields, MessageType, UserGroup};
use librus_export::users::{User, UserSet};

const PREFIX: &str = "<Message><Content><![CDATA[";
const SUFFIX: &str = "]]></Content><Actions><Actions/></Actions></Message>";

fn set_of(names: &[(&str, &str)]) -> UserSet {
    let mut s = UserSet::new();
    for (f, l) in names {
        s.insert(User::new(f.to_string(), l.to_string()));
    }
    s
}

#[test]
fn folder_paths_are_all_distinct() {
    let types = [MessageType::Inbox, MessageType::Sent, MessageType::Trash];
    let mut paths = Vec::new();
    for t in types {
        for archive in [false, true] {
            paths.push(t.get_path(archive));
        }
    }
    assert_eq!(
        paths,
        vec![
            "inbox",
            "archive/inbox",
            "outbox",
            "archive/outbox",
            "trash-bin",
            "archive/trash-bin"
        ]
    );
    let mut unique = paths.clone();
    unique.sort();
    unique.dedup();
    assert_eq!(unique.len(), 6);
}

#[test]
fn same_set_in_any_order_gets_same_slot() {
    let mut c = SynergiaClient::new(2, ContentFields::standard());
    let a = c.get_group(set_of(&[("A", "1"), ("B", "2"), ("C", "3")]));
    let b = c.get_group(set_of(&[("C", "3"), ("A", "1"), ("B", "2")]));
    let other = c.get_group(set_of(&[("A", "1"), ("B", "2")]));
    assert_eq!(a, 0);
    assert_eq!(b, 0);
    assert_eq!(other, 1);
    assert_eq!(c.get_group(set_of(&[("B", "2"), ("A", "1")])), 1);
    assert_eq!(c.receivers_groups().len(), 2);
}

#[test]
fn threshold_boundary_decides_registration() {
    let mut c = SynergiaClient::new(3, ContentFields::standard());
    let at = c.intern(set_of(&[("A", "1"), ("B", "2"), ("C", "3")]));
    assert!(matches!(at, UserGroup::Large(0)));
    let below = c.intern(set_of(&[("A", "1"), ("B", "2")]));
    assert!(matches!(below, UserGroup::Small(_)));
    assert_eq!(c.threshold(), 3);
}

#[test]
fn zero_threshold_never_registers() {
    let mut c = SynergiaClient::new(0, ContentFields::standard());
    assert!(matches!(c.intern(set_of(&[])), UserGroup::Small(_)));
    assert!(matches!(c.intern(set_of(&[("A", "1"), ("B", "2")])), UserGroup::Small(_)));
    assert_eq!(c.receivers_groups().len(), 0);
}

#[test]
fn envelope_is_stripped_only_when_whole() {
    let x = "Zażółć <b>gęślą</b> jaźń";
    assert_eq!(remove_content_prefix_and_suffix(format!("{}{}{}", PREFIX, x, SUFFIX)), x);
    assert_eq!(remove_content_prefix_and_suffix(format!("{}{}", PREFIX, SUFFIX)), "");
    let no_suffix = format!("{}{}", PREFIX, x);
    assert_eq!(remove_content_prefix_and_suffix(no_suffix.clone()), no_suffix);
    let no_prefix = format!("{}{}", x, SUFFIX);
    assert_eq!(remove_content_prefix_and_suffix(no_prefix.clone()), no_prefix);
    assert_eq!(remove_content_prefix_and_suffix(String::new()), "");
    assert_eq!(remove_content_prefix_and_suffix(PREFIX.to_string()), PREFIX);
}

#[test]
fn content_round_trips_through_base64() {
    for payload in ["", "Hello", "Zażółć gęślą jaźń", "日本語 ✓ 🎉"] {
        let encoded = base64::engine::general_purpose::STANDARD.encode(payload);
        assert_eq!(decode_content(&encoded).unwrap(), payload);
    }
    assert_eq!(decode_content("SGVsbG8=").unwrap(), "Hello");
}

#[test]
fn undecodable_content_is_rejected() {
    assert!(matches!(decode_content("SGVsbG8"), Err(ApiError::Decoding)));
    assert!(matches!(decode_content("*#"), Err(ApiError::Decoding)));
    assert!(matches!(decode_content("wyg="), Err(ApiError::Decoding)));
}

#[test]
fn user_sets_compare_by_members() {
    let a = set_of(&[("A", "1"), ("B", "2")]);
    let b = set_of(&[("B", "2"), ("A", "1"), ("A", "1")]);
    assert!(a.same_members(&b));
    assert_eq!(b.len(), 2);
    assert!(b.contains(&User::new("A".to_string(), "1".to_string())));
    assert!(!b.contains(&User::new("A".to_string(), "2".to_string())));
    assert!(!a.same_members(&set_of(&[("A", "1")])));
}

#[test]
fn export_folders_cover_all_six() {
    let folders = export_folders();
    let names: Vec<String> = folders.iter().map(|f| f.to_string()).collect();
    assert_eq!(
        names,
        vec!["Inbox", "Sent", "Trash", "Archive/Inbox", "Archive/Sent", "Archive/Trash"]
    );
    assert_eq!(folders[4].filename, "messages_archive_sent.json");
    assert!(folders[4].in_archive);
    assert_eq!(folders[4].message_type, MessageType::Sent);
}
