//! The permission store: which named permissions each user holds.

use vstd::prelude::*;

verus! {

/// The permission that lets a user administer the site.
pub const ADMIN: &'static str = "admin";

/// The permission that marks a user as banned.
pub const BANNED: &'static str = "banned";

/// The names in a list of permissions, as a set: order and repetition do not
/// matter to anyone who asks what a user may do.
pub open spec fn name_set(names: Seq<String>) -> Set<Seq<char>> {
    Set::new(|name: Seq<char>| exists|i: int| 0 <= i < names.len() && #[trigger] names[i]@ == name)
}

/// Whether no name occurs twice in the list.
pub open spec fn distinct_names(names: Seq<String>) -> bool {
    forall|i: int, j: int|
        0 <= i < j < names.len() ==> #[trigger] names[i]@ != #[trigger] names[j]@
}

/// Whether `names` is the list `spelled`, name by name, in order.
pub open spec fn spells(names: Seq<String>, spelled: Seq<Seq<char>>) -> bool {
    &&& names.len() == spelled.len()
    &&& forall|i: int| 0 <= i < names.len() ==> (#[trigger] names[i])@ == spelled[i]
}

/// One grant: the user `gh_user_id` holds the permission `name`.
#[derive(Debug, PartialEq, Eq)]
pub struct Permission {
    pub gh_user_id: i64,
    pub name: String,
}

/// All grants. The guards only read it; grants are made by whoever
/// administers the site.
pub struct PermissionStore {
    grants: Vec<Permission>,
}

/// The names that a list of grants gives to `user_id`, in the order of the
/// grants.
pub open spec fn granted_to(grants: Seq<Permission>, user_id: i64) -> Seq<Seq<char>>
    decreases grants.len(),
{
    if grants.len() == 0 {
        Seq::empty()
    } else if grants.last().gh_user_id == user_id {
        granted_to(grants.drop_last(), user_id).push(grants.last().name@)
    } else {
        granted_to(grants.drop_last(), user_id)
    }
}

/// Whether `names` holds a name equal to `name`.
pub fn contains_name(names: &Vec<String>, name: &str) -> (found: bool)
    ensures
        found == name_set(names@).contains(name@),
{
    let wanted = name.to_owned();
    let mut i: usize = 0;
    while i < names.len()
        invariant
            i <= names.len(),
            wanted@ == name@,
            forall|k: int| 0 <= k < i ==> (#[trigger] names[k])@ != name@,
        decreases names.len() - i,
    {
        if names[i] == wanted {
            return true;
        }
        i += 1;
    }
    false
}

impl PermissionStore {
    #[verifier::type_invariant]
    spec fn no_grant_twice(self) -> bool {
        forall|i: int, j: int|
            0 <= i < j < self.grants@.len() ==> !(#[trigger] self.grants@[i].gh_user_id
                == #[trigger] self.grants@[j].gh_user_id && self.grants@[i].name@
                == self.grants@[j].name@)
    }

    /// The permissions that `user_id` holds: the empty set for a user nobody
    /// granted anything.
    pub closed spec fn names(&self, user_id: i64) -> Set<Seq<char>> {
        Set::new(
            |name: Seq<char>|
                exists|i: int|
                    0 <= i < self.grants@.len() && #[trigger] self.grants@[i].gh_user_id
                        == user_id && self.grants@[i].name@ == name,
        )
    }

    /// The permissions that `user_id` holds, in the order in which they were
    /// granted.
    pub closed spec fn name_list(&self, user_id: i64) -> Seq<Seq<char>> {
        granted_to(self.grants@, user_id)
    }

    /// A store without grants.
    pub fn new() -> (store: Self)
        ensures
            forall|user_id: i64| store.names(user_id) == Set::<Seq<char>>::empty(),
            forall|user_id: i64| store.name_list(user_id) == Seq::<Seq<char>>::empty(),
    {
        let store = PermissionStore { grants: Vec::new() };
        assert forall|user_id: i64| store.names(user_id) == Set::<Seq<char>>::empty() by {
            assert(store.names(user_id) =~= Set::<Seq<char>>::empty());
        }
        store
    }

    /// Whether `user_id` holds the permission `name`.
    pub fn holds(&self, user_id: i64, name: &str) -> (held: bool)
        ensures
            held == self.names(user_id).contains(name@),
    {
        let wanted = name.to_owned();
        let mut i: usize = 0;
        while i < self.grants.len()
            invariant
                i <= self.grants@.len(),
                wanted@ == name@,
                forall|k: int|
                    0 <= k < i ==> !(#[trigger] self.grants@[k].gh_user_id == user_id
                        && self.grants@[k].name@ == name@),
            decreases self.grants.len() - i,
        {
            if self.grants[i].gh_user_id == user_id && self.grants[i].name == wanted {
                return true;
            }
            i += 1;
        }
        false
    }

    /// Grants `user_id` the permission `name`. Granting what the user already
    /// holds changes nothing; a new permission comes last in the user's
    /// list. Nobody else's permissions are touched.
    pub fn grant(&mut self, user_id: i64, name: &str)
        ensures
            final(self).names(user_id) == old(self).names(user_id).insert(name@),
            final(self).name_list(user_id) == if old(self).names(user_id).contains(name@) {
                old(self).name_list(user_id)
            } else {
                old(self).name_list(user_id).push(name@)
            },
            forall|other: i64|
                other != user_id ==> final(self).names(other) == old(self).names(other)
                    && final(self).name_list(other) == old(self).name_list(other),
    {
        proof {
            use_type_invariant(&*self);
        }
        if self.holds(user_id, name) {
            assert(old(self).names(user_id).insert(name@) =~= old(self).names(user_id));
            return ;
        }
        let granted = Permission { gh_user_id: user_id, name: name.to_owned() };
        let mut grants: Vec<Permission> = Vec::new();
        core::mem::swap(&mut self.grants, &mut grants);
        grants.push(granted);
        core::mem::swap(&mut self.grants, &mut grants);
        proof {
            let before = old(self).grants@;
            let after = final(self).grants@;
            assert(after == before.push(granted));
            assert(after.drop_last() =~= before);
            assert(after.last() == granted);
            assert forall|other: i64, n: Seq<char>|
                final(self).names(other).contains(n) == (old(self).names(other).contains(n) || (
                other == user_id && n == name@)) by {
                if final(self).names(other).contains(n) {
                    let k = choose|k: int|
                        0 <= k < after.len() && #[trigger] after[k].gh_user_id == other
                            && after[k].name@ == n;
                    if k < before.len() {
                        assert(before[k].gh_user_id == other && before[k].name@ == n);
                    }
                }
                if old(self).names(other).contains(n) {
                    let k = choose|k: int|
                        0 <= k < before.len() && #[trigger] before[k].gh_user_id == other
                            && before[k].name@ == n;
                    assert(after[k].gh_user_id == other && after[k].name@ == n);
                }
                if other == user_id && n == name@ {
                    let last = before.len() as int;
                    assert(after[last].gh_user_id == other && after[last].name@ == n);
                }
            }
            assert(final(self).names(user_id) =~= old(self).names(user_id).insert(name@));
            assert forall|other: i64| other != user_id implies final(self).names(other) == old(
                self,
            ).names(other) && final(self).name_list(other) == old(self).name_list(other) by {
                assert(final(self).names(other) =~= old(self).names(other));
            }
        }
    }

    /// The names of the permissions that `user_id` holds, each once, in the
    /// order in which they were granted: an empty list, never an error, for a
    /// user without permissions.
    pub fn find_by_user_id(&self, user_id: i64) -> (names: Vec<String>)
        ensures
            spells(names@, self.name_list(user_id)),
            name_set(names@) == self.names(user_id),
            distinct_names(names@),
    {
        proof {
            use_type_invariant(self);
        }
        let mut names: Vec<String> = Vec::new();
        let ghost mut origin: Seq<int> = Seq::empty();
        let mut i: usize = 0;
        while i < self.grants.len()
            invariant
                i <= self.grants@.len(),
                origin.len() == names@.len(),
                spells(names@, granted_to(self.grants@.take(i as int), user_id)),
                forall|k: int|
                    0 <= k < origin.len() ==> 0 <= #[trigger] origin[k] < i
                        && self.grants@[origin[k]].gh_user_id == user_id
                        && self.grants@[origin[k]].name@ == names@[k]@,
                forall|k: int, l: int| 0 <= k < l < origin.len() ==> origin[k] < origin[l],
                forall|g: int|
                    0 <= g < i && (#[trigger] self.grants@[g]).gh_user_id == user_id
                        ==> name_set(names@).contains(self.grants@[g].name@),
            decreases self.grants.len() - i,
        {
            proof {
                let next = self.grants@.take(i + 1);
                assert(next.drop_last() =~= self.grants@.take(i as int));
                assert(next.last() == self.grants@[i as int]);
            }
            if self.grants[i].gh_user_id == user_id {
                let ghost earlier = names@;
                names.push(self.grants[i].name.clone());
                proof {
                    origin = origin.push(i as int);
                    assert forall|k: int| 0 <= k < names@.len() implies (#[trigger] names@[k])@
                        == granted_to(self.grants@.take(i + 1), user_id)[k] by {
                        if k < earlier.len() {
                            assert(names@[k] == earlier[k]);
                        }
                    }
                    assert forall|g: int|
                        0 <= g < i + 1 && (#[trigger] self.grants@[g]).gh_user_id
                            == user_id implies name_set(names@).contains(
                        self.grants@[g].name@,
                    ) by {
                        if g < i {
                            let k = choose|k: int|
                                0 <= k < earlier.len() && #[trigger] earlier[k]@
                                    == self.grants@[g].name@;
                            assert(names@[k]@ == self.grants@[g].name@);
                        } else {
                            assert(names@[earlier.len() as int]@ == self.grants@[g].name@);
                        }
                    }
                }
            }
            i += 1;
        }
        proof {
            assert(self.grants@.take(i as int) =~= self.grants@);
            assert forall|n: Seq<char>| name_set(names@).contains(n) == self.names(
                user_id,
            ).contains(n) by {
                if name_set(names@).contains(n) {
                    let k = choose|k: int| 0 <= k < names@.len() && #[trigger] names@[k]@ == n;
                    assert(self.grants@[origin[k]].gh_user_id == user_id);
                }
                if self.names(user_id).contains(n) {
                    let g = choose|g: int|
                        0 <= g < self.grants@.len() && #[trigger] self.grants@[g].gh_user_id
                            == user_id && self.grants@[g].name@ == n;
                    assert(name_set(names@).contains(self.grants@[g].name@));
                }
            }
            assert(name_set(names@) =~= self.names(user_id));
            assert forall|k: int, l: int| 0 <= k < l < names@.len() implies #[trigger] names@[k]@
                != #[trigger] names@[l]@ by {
                assert(origin[k] < origin[l]);
                assert(self.grants@[origin[k]].gh_user_id == self.grants@[origin[l]].gh_user_id);
            }
        }
        names
    }
}

} // verus!
