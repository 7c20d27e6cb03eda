//! Users and sets of users, compared by their names.

use vstd::prelude::*;

verus! {

/// A person as the portal names them: two users with the same names are the same user.
#[derive(Debug, Clone, Hash)]
pub struct User {
    pub first_name: String,
    pub last_name: String,
}

/// The value of a user: its first and last name.
pub type UserName = (Seq<char>, Seq<char>);

impl View for User {
    type V = UserName;

    open spec fn view(&self) -> UserName {
        (self.first_name@, self.last_name@)
    }
}

impl User {
    /// A user with the given names.
    pub fn new(first_name: String, last_name: String) -> (r: User)
        ensures
            r.first_name@ == first_name@,
            r.last_name@ == last_name@,
    {
        User { first_name, last_name }
    }

    /// Whether both users carry the same names.
    pub fn same_as(&self, other: &User) -> (r: bool)
        ensures
            r == (self@ == other@),
    {
        self.first_name == other.first_name && self.last_name == other.last_name
    }
}

impl PartialEq for User {
    fn eq(&self, other: &User) -> (r: bool) {
        self.same_as(other)
    }
}

impl vstd::std_specs::cmp::PartialEqSpecImpl for User {
    open spec fn obeys_eq_spec() -> bool {
        true
    }

    open spec fn eq_spec(&self, other: &User) -> bool {
        self@ == other@
    }
}

impl Eq for User {
}

/// The names of a sequence of users, in order.
pub open spec fn names_of(users: Seq<User>) -> Seq<UserName> {
    users.map_values(|u: User| u@)
}

/// A set of users, kept as a sequence in which no name occurs twice.
#[derive(Debug, Clone)]
pub struct UserSet {
    users: Vec<User>,
}

impl View for UserSet {
    type V = Set<UserName>;

    closed spec fn view(&self) -> Set<UserName> {
        names_of(self.users@).to_set()
    }
}

impl UserSet {
    /// No user occurs twice.
    pub closed spec fn wf(&self) -> bool {
        names_of(self.users@).no_duplicates()
    }

    /// The members in the order in which they were first inserted.
    pub closed spec fn members(&self) -> Seq<User> {
        self.users@
    }

    /// The empty set.
    pub fn new() -> (r: UserSet)
        ensures
            r.wf(),
            r@ == Set::<UserName>::empty(),
    {
        let r = UserSet { users: Vec::new() };
        assert(names_of(r.users@) =~= Seq::<UserName>::empty());
        r
    }

    /// Whether a user with the same names is a member.
    pub fn contains(&self, user: &User) -> (r: bool)
        ensures
            r == self@.contains(user@),
    {
        let mut i: usize = 0;
        while i < self.users.len()
            invariant
                0 <= i <= self.users@.len(),
                forall|j: int| 0 <= j < i ==> self.users@[j]@ != user@,
            decreases self.users.len() - i,
        {
            if self.users[i].same_as(user) {
                assert(names_of(self.users@)[i as int] == user@);
                return true;
            }
            i = i + 1;
        }
        assert(!names_of(self.users@).contains(user@));
        false
    }

    /// Adds `user` unless a user with the same names is already a member;
    /// says whether it was added.
    pub fn insert(&mut self, user: User) -> (added: bool)
        requires
            old(self).wf(),
        ensures
            final(self).wf(),
            final(self)@ == old(self)@.insert(user@),
            added == !old(self)@.contains(user@),
    {
        if self.contains(&user) {
            return false;
        }
        let ghost before = names_of(self.users@);
        self.users.push(user);
        assert(names_of(self.users@) =~= before.push(user@));
        proof {
            before.lemma_push_to_set_commute(user@);
        }
        true
    }

    /// The number of members.
    pub fn len(&self) -> (r: usize)
        requires
            self.wf(),
        ensures
            r == self@.len(),
    {
        proof {
            names_of(self.users@).unique_seq_to_set();
        }
        self.users.len()
    }

    /// Whether both sets have exactly the same members, whatever their order.
    pub fn same_members(&self, other: &UserSet) -> (r: bool)
        ensures
            r == (self@ == other@),
    {
        let mut i: usize = 0;
        while i < self.users.len()
            invariant
                0 <= i <= self.users@.len(),
                forall|j: int| 0 <= j < i ==> other@.contains(#[trigger] self.users@[j]@),
            decreases self.users.len() - i,
        {
            if !other.contains(&self.users[i]) {
                assert(self@.contains(self.users@[i as int]@)) by {
                    assert(names_of(self.users@)[i as int] == self.users@[i as int]@);
                }
                return false;
            }
            i = i + 1;
        }
        let mut k: usize = 0;
        while k < other.users.len()
            invariant
                0 <= k <= other.users@.len(),
                forall|j: int| 0 <= j < k ==> self@.contains(#[trigger] other.users@[j]@),
            decreases other.users.len() - k,
        {
            if !self.contains(&other.users[k]) {
                assert(other@.contains(other.users@[k as int]@)) by {
                    assert(names_of(other.users@)[k as int] == other.users@[k as int]@);
                }
                return false;
            }
            k = k + 1;
        }
        assert forall|x: UserName| self@.contains(x) implies other@.contains(x) by {
            let j = names_of(self.users@).index_of(x);
            assert(self.users@[j]@ == x);
        }
        assert forall|x: UserName| other@.contains(x) implies self@.contains(x) by {
            let j = names_of(other.users@).index_of(x);
            assert(other.users@[j]@ == x);
        }
        assert(self@ =~= other@);
        true
    }

    /// The members, in the order in which they were first inserted.
    pub fn users(&self) -> (r: &Vec<User>)
        ensures
            r@ == self.members(),
            names_of(r@).to_set() == self@,
    {
        &self.users
    }
}

} // verus!
