//! A session's state: the registry of large recipient sets, and the listing of folders.

use vstd::prelude::*;

use crate::decimal::{decimal, decimal_text, id_value, parse_id};
use crate::error::ApiError;
use crate::json::{int_of, items_of, lookup, text_of, Json};
use crate::messages::{
    folder_path, group_matches, is_missing, ContentFields, MessageHandle, MessageType, UserGroup,
    API_BASE,
};
use crate::users::{UserName, UserSet};

verus! {

/// No two slots of the registry hold the same set.
pub open spec fn distinct(groups: Seq<Set<UserName>>) -> bool {
    forall|i: int, j: int| 0 <= i < j < groups.len() ==> groups[i] != groups[j]
}

/// The registry after filing `s`, and the slot that `s` has there: the slot that
/// already holds `s`, else a new one at the end.
pub open spec fn interned(groups: Seq<Set<UserName>>, s: Set<UserName>) -> (Seq<Set<UserName>>, int) {
    if groups.contains(s) {
        (groups, groups.index_of(s))
    } else {
        (groups.push(s), groups.len() as int)
    }
}

/// Whether a set of `size` users is filed in the registry under `threshold`:
/// sets of at least `threshold` users are, and none are when it is zero.
pub open spec fn registers(size: nat, threshold: nat) -> bool {
    threshold > 0 && size >= threshold
}

/// The registry after `s` has been handed to it under `threshold`, and the slot that
/// `s` was given (`None`: it stays inline and the registry is untouched).
pub open spec fn grouped(groups: Seq<Set<UserName>>, s: Set<UserName>, threshold: nat) -> (Seq<
    Set<UserName>,
>, Option<int>) {
    if registers(s.len(), threshold) {
        (interned(groups, s).0, Some(interned(groups, s).1))
    } else {
        (groups, None)
    }
}

/// Whether every element of a listing carries a decimal id.
pub open spec fn item_id(e: Json) -> Option<i64> {
    match text_of(lookup(Some(e), "messageId"@)) {
        Some(t) => id_value(t),
        None => None,
    }
}

/// Whether `e` is the error for a listing element whose id cannot be read.
pub open spec fn item_error(item: Json, e: ApiError) -> bool {
    match text_of(lookup(Some(item), "messageId"@)) {
        Some(t) => e matches ApiError::Parse(s) && s@ == t,
        None => is_missing(e, "messageId"@),
    }
}

/// Whether every element of a listing has an id that can be read.
pub open spec fn listing_accepted(items: Seq<Json>) -> bool {
    forall|i: int| 0 <= i < items.len() ==> (#[trigger] item_id(items[i])) is Some
}

/// The ids of a listing's elements, in order.
pub open spec fn listing_ids(items: Seq<Json>) -> Seq<i64> {
    items.map_values(|e: Json| item_id(e)->0)
}

/// The ids that some handles name, in order.
pub open spec fn handle_ids(handles: Seq<MessageHandle>) -> Seq<i64> {
    handles.map_values(|h: MessageHandle| h.id)
}

/// The address that lists the first `limit` messages of a folder.
pub open spec fn listing_url(t: MessageType, in_archive: bool, limit: int) -> Seq<char> {
    API_BASE@ + folder_path(t, in_archive) + "/messages?page=1&limit="@ + decimal(limit)
}

/// A logged-in session's state: the registry of large recipient sets, the size from
/// which a set is registered, and where each folder keeps message content.
pub struct SynergiaClient {
    receivers_groups: Vec<UserSet>,
    min_big_group: usize,
    content_fields: ContentFields,
}

impl SynergiaClient {
    /// The registry's slots, in order.
    pub closed spec fn groups(&self) -> Seq<Set<UserName>> {
        self.receivers_groups@.map_values(|g: UserSet| g@)
    }

    /// The size from which a recipient set is registered (zero: never).
    pub closed spec fn min_big_group(&self) -> usize {
        self.min_big_group
    }

    /// Where each folder type keeps message content.
    pub closed spec fn content_fields(&self) -> ContentFields {
        self.content_fields
    }

    /// The registry's slots are distinct sets.
    pub closed spec fn wf(&self) -> bool {
        &&& distinct(self.groups())
        &&& forall|i: int|
            0 <= i < self.receivers_groups@.len() ==> (#[trigger] self.receivers_groups@[i]).wf()
    }

    /// A session with an empty registry.
    pub fn new(min_big_group: usize, content_fields: ContentFields) -> (r: SynergiaClient)
        ensures
            r.wf(),
            r.groups() == Seq::<Set<UserName>>::empty(),
            r.min_big_group() == min_big_group,
            r.content_fields() == content_fields,
    {
        let r = SynergiaClient { receivers_groups: Vec::new(), min_big_group, content_fields };
        assert(r.groups() =~= Seq::<Set<UserName>>::empty());
        r
    }

    /// The size from which a recipient set is registered.
    pub fn threshold(&self) -> (r: usize)
        ensures
            r == self.min_big_group(),
    {
        self.min_big_group
    }

    /// Where each folder type keeps message content.
    pub fn content_fields_ref(&self) -> (r: &ContentFields)
        ensures
            *r == self.content_fields(),
    {
        &self.content_fields
    }

    /// The registry's slots, in order.
    pub fn receivers_groups(&self) -> (r: &Vec<UserSet>)
        ensures
            r@.map_values(|g: UserSet| g@) == self.groups(),
    {
        &self.receivers_groups
    }

    /// The slot of `users` in the registry, added at the end when no slot holds the
    /// same set.
    pub fn get_group(&mut self, users: UserSet) -> (idx: usize)
        requires
            old(self).wf(),
            users.wf(),
        ensures
            final(self).wf(),
            final(self).min_big_group() == old(self).min_big_group(),
            final(self).content_fields() == old(self).content_fields(),
            final(self).groups() == interned(old(self).groups(), users@).0,
            idx == interned(old(self).groups(), users@).1,
    {
        let ghost groups = self.groups();
        let mut i: usize = 0;
        while i < self.receivers_groups.len()
            invariant
                groups == self.groups(),
                self.wf(),
                0 <= i <= groups.len(),
                forall|j: int| 0 <= j < i ==> groups[j] != users@,
            decreases self.receivers_groups.len() - i,
        {
            if self.receivers_groups[i].same_members(&users) {
                assert(groups[i as int] == users@);
                proof {
                    assert(groups.contains(users@));
                    let k = groups.index_of(users@);
                    assert(groups[k] == users@);
                    assert(k == i);
                }
                return i;
            }
            i = i + 1;
        }
        assert(!groups.contains(users@));
        let ghost before = self.receivers_groups@;
        self.receivers_groups.push(users);
        assert(self.groups() =~= groups.push(users@));
        assert forall|j: int| 0 <= j < self.receivers_groups@.len() implies (
        #[trigger] self.receivers_groups@[j]).wf() by {
            if j < before.len() {
                assert(self.receivers_groups@[j] == before[j]);
            }
        }
        self.receivers_groups.len() - 1
    }

    /// Files a recipient set: inline when it is below the threshold (or the threshold is
    /// zero), else by its slot in the registry.
    pub fn intern(&mut self, users: UserSet) -> (r: UserGroup)
        requires
            old(self).wf(),
            users.wf(),
        ensures
            final(self).wf(),
            final(self).min_big_group() == old(self).min_big_group(),
            final(self).content_fields() == old(self).content_fields(),
            final(self).groups() == grouped(
                old(self).groups(),
                users@,
                old(self).min_big_group() as nat,
            ).0,
            group_matches(
                r,
                users@,
                grouped(old(self).groups(), users@, old(self).min_big_group() as nat).1,
            ),
    {
        let size = users.len();
        if self.min_big_group > 0 && size >= self.min_big_group {
            UserGroup::Large(self.get_group(users))
        } else {
            UserGroup::Small(users)
        }
    }

    /// The number of messages in a folder, as the answer to a listing of one message
    /// reports it.
    pub fn get_message_count(&self, probe: &Json) -> (r: Result<i64, ApiError>)
        ensures
            match int_of(lookup(Some(*probe), "total"@)) {
                Some(n) => r == Ok::<i64, ApiError>(n),
                None => r matches Err(e) && is_missing(e, "total"@),
            },
    {
        match probe.get("total") {
            Some(v) => match v.as_i64() {
                Some(n) => Ok(n),
                None => Err(ApiError::Deserialization("total".to_string())),
            },
            None => Err(ApiError::Deserialization("total".to_string())),
        }
    }

    /// The address that lists the first `limit` messages of a folder; a limit of one
    /// asks only for the count.
    pub fn messages_url(&self, in_archive: bool, message_type: MessageType, limit: i64) -> (r:
        String)
        ensures
            r@ == listing_url(message_type, in_archive, limit as int),
    {
        let mut url = API_BASE.to_string();
        let path = message_type.get_path(in_archive);
        url.append(path.as_str());
        url.append("/messages?page=1&limit=");
        let n = decimal_text(limit);
        url.append(n.as_str());
        url
    }

    /// The handles of the messages that a folder's listing names, in its order.
    pub fn get_messages(&self, in_archive: bool, message_type: MessageType, listing: &Json) -> (r:
        Result<Vec<MessageHandle>, ApiError>)
        ensures
            match items_of(lookup(Some(*listing), "data"@)) {
                None => r matches Err(e) && is_missing(e, "data"@),
                Some(items) => {
                    &&& (r is Ok <==> listing_accepted(items))
                    &&& r matches Ok(handles) ==> {
                        &&& handle_ids(handles@) == listing_ids(items)
                        &&& forall|i: int|
                            0 <= i < handles@.len() ==> (#[trigger] handles@[i]).in_archive
                                == in_archive && handles@[i].message_type == message_type
                    }
                    &&& r matches Err(e) ==> exists|i: int|
                        0 <= i < items.len() && item_error(#[trigger] items[i], e) && item_id(
                            items[i],
                        ) is None
                },
            },
    {
        let items = match listing.get("data") {
            Some(v) => match v.as_array() {
                Some(items) => items,
                None => return Err(ApiError::Deserialization("data".to_string())),
            },
            None => return Err(ApiError::Deserialization("data".to_string())),
        };
        let mut handles: Vec<MessageHandle> = Vec::new();
        let mut i: usize = 0;
        while i < items.len()
            invariant
                0 <= i <= items@.len(),
                items_of(lookup(Some(*listing), "data"@)) == Some(items@),
                handles@.len() == i,
                forall|j: int| 0 <= j < i ==> (#[trigger] item_id(items@[j])) is Some,
                forall|j: int|
                    0 <= j < i ==> (#[trigger] handles@[j]).id == item_id(items@[j])->0
                        && handles@[j].in_archive == in_archive && handles@[j].message_type
                        == message_type,
            decreases items.len() - i,
        {
            let missing = ApiError::Deserialization("messageId".to_string());
            let id_text = match items[i].get("messageId") {
                Some(v) => match v.as_str() {
                    Some(t) => t,
                    None => {
                        assert(item_error(items@[i as int], missing));
                        assert(item_id(items@[i as int]) is None);
                        return Err(missing);
                    },
                },
                None => {
                    assert(item_error(items@[i as int], missing));
                    assert(item_id(items@[i as int]) is None);
                    return Err(missing);
                },
            };
            let id = match parse_id(id_text.as_str()) {
                Some(id) => id,
                None => {
                    let e = ApiError::Parse(id_text.clone());
                    assert(item_error(items@[i as int], e));
                    assert(item_id(items@[i as int]) is None);
                    return Err(e);
                },
            };
            handles.push(MessageHandle::new(in_archive, message_type, id));
            i = i + 1;
        }
        assert(handle_ids(handles@) =~= listing_ids(items@));
        Ok(handles)
    }
}

/// Handing the registry two sets gives them the same slot exactly when they are the
/// same set, whatever order their members were listed in; and the registry stays free
/// of repeated sets.
pub proof fn lemma_intern_by_value(groups: Seq<Set<UserName>>, a: Set<UserName>, b: Set<UserName>)
    requires
        distinct(groups),
    ensures
        distinct(interned(groups, a).0),
        (interned(groups, a).1 == interned(interned(groups, a).0, b).1) <==> (a == b),
        a == b ==> interned(interned(groups, a).0, b).0 == interned(groups, a).0,
{
    let (g1, i) = interned(groups, a);
    let (g2, j) = interned(g1, b);
    if groups.contains(a) {
        assert(groups[i] == a);
    } else {
        assert(g1[groups.len() as int] == a);
        assert forall|x: int, y: int| 0 <= x < y < g1.len() implies g1[x] != g1[y] by {
            if y == groups.len() {
                assert(g1[x] == groups[x]);
                assert(groups.contains(groups[x]));
            }
        }
    }
    assert(g1[i] == a);
    assert(g1.contains(a));
    if g1.contains(b) {
        assert(g1[j] == b);
        if a == b {
            assert(j == i);
        }
    } else {
        assert(j == g1.len());
    }
}

/// A set of exactly `threshold` users is registered, and one of `threshold - 1` is not,
/// for every threshold above zero.
pub proof fn lemma_threshold_boundary(threshold: nat)
    requires
        threshold > 0,
    ensures
        registers(threshold, threshold),
        !registers((threshold - 1) as nat, threshold),
{
}

/// With a threshold of zero no set is ever registered.
pub proof fn lemma_zero_threshold_never_registers(size: nat)
    ensures
        !registers(size, 0),
{
}

/// A listing with no elements is accepted and names no message.
pub proof fn lemma_empty_listing()
    ensures
        listing_accepted(Seq::<Json>::empty()),
        listing_ids(Seq::<Json>::empty()) == Seq::<i64>::empty(),
{
    assert(listing_ids(Seq::<Json>::empty()) =~= Seq::<i64>::empty());
}

} // verus!
