//! The user directory: the locally cached identity of everyone who has signed
//! in, one record per provider id.

use std::collections::HashMap;
use vstd::prelude::*;
use vstd::std_specs::hash::group_hash_axioms;

verus! {

broadcast use group_hash_axioms;

/// The cached identity of one user. `id` is the provider's numeric user id:
/// it never changes and is what sessions and permissions refer to. The other
/// fields are what the provider last said about the user; `profile_url` is
/// the address of the user's page at the provider.
#[derive(Debug, PartialEq, Eq)]
pub struct UserRecord {
    pub id: i64,
    pub login: String,
    pub avatar_url: String,
    pub profile_url: String,
}

/// What a [`UserRecord`] holds, as mathematical values.
pub struct UserRecordView {
    pub id: i64,
    pub login: Seq<char>,
    pub avatar_url: Seq<char>,
    pub profile_url: Seq<char>,
}

impl View for UserRecord {
    type V = UserRecordView;

    open spec fn view(&self) -> UserRecordView {
        UserRecordView {
            id: self.id,
            login: self.login@,
            avatar_url: self.avatar_url@,
            profile_url: self.profile_url@,
        }
    }
}

impl Clone for UserRecord {
    fn clone(&self) -> (copy: Self)
        ensures
            copy@ == self@,
    {
        UserRecord {
            id: self.id,
            login: self.login.clone(),
            avatar_url: self.avatar_url.clone(),
            profile_url: self.profile_url.clone(),
        }
    }
}

/// The directory after an upsert: the record for `provider_id` holds the
/// given fields, whether or not there was one before, and every other record
/// is as it was.
pub open spec fn upserted(
    directory: Map<i64, UserRecordView>,
    provider_id: i64,
    login: Seq<char>,
    avatar_url: Seq<char>,
    profile_url: Seq<char>,
) -> Map<i64, UserRecordView> {
    directory.insert(
        provider_id,
        UserRecordView { id: provider_id, login, avatar_url, profile_url },
    )
}

/// Whether a map of records is a directory: it is finite and files every
/// record under the record's own id.
pub open spec fn is_directory(records: Map<i64, UserRecordView>) -> bool {
    &&& records.dom().finite()
    &&& forall|id: i64| #[trigger] records.contains_key(id) ==> records[id].id == id
}

/// Two sign-ins of the same user leave one record for that user, whatever the
/// directory held before: the record carries what the second sign-in said,
/// under the id that the first one filed it under, and the second sign-in
/// adds no record. Nobody else's record changes.
pub proof fn lemma_second_sign_in_overwrites(
    directory: Map<i64, UserRecordView>,
    provider_id: i64,
    first_login: Seq<char>,
    first_avatar_url: Seq<char>,
    first_profile_url: Seq<char>,
    second_login: Seq<char>,
    second_avatar_url: Seq<char>,
    second_profile_url: Seq<char>,
)
    requires
        is_directory(directory),
    ensures
        ({
            let once = upserted(
                directory,
                provider_id,
                first_login,
                first_avatar_url,
                first_profile_url,
            );
            let twice = upserted(
                once,
                provider_id,
                second_login,
                second_avatar_url,
                second_profile_url,
            );
            &&& is_directory(once) && is_directory(twice)
            &&& twice.contains_key(provider_id)
            &&& twice[provider_id].id == provider_id
            &&& twice[provider_id].login == second_login
            &&& twice[provider_id].avatar_url == second_avatar_url
            &&& twice[provider_id].profile_url == second_profile_url
            &&& twice.dom() == once.dom()
            &&& twice.len() == once.len()
            &&& once.len() == if directory.contains_key(provider_id) {
                directory.len()
            } else {
                directory.len() + 1
            }
            &&& twice == upserted(
                directory,
                provider_id,
                second_login,
                second_avatar_url,
                second_profile_url,
            )
            &&& forall|other: i64|
                other != provider_id ==> twice.contains_key(other) == directory.contains_key(other)
                    && (directory.contains_key(other) ==> twice[other] == directory[other])
        }),
{
    let once = upserted(directory, provider_id, first_login, first_avatar_url, first_profile_url);
    let twice = upserted(once, provider_id, second_login, second_avatar_url, second_profile_url);
    assert(twice.dom() =~= once.dom());
    assert(twice =~= upserted(
        directory,
        provider_id,
        second_login,
        second_avatar_url,
        second_profile_url,
    ));
}

/// The users known to the site, keyed by provider id.
pub struct UserDirectory {
    records: HashMap<i64, UserRecord>,
}

impl View for UserDirectory {
    type V = Map<i64, UserRecordView>;

    closed spec fn view(&self) -> Map<i64, UserRecordView> {
        Map::new(|id: i64| self.records@.contains_key(id), |id: i64| self.records@[id]@)
    }
}

impl UserDirectory {
    #[verifier::type_invariant]
    spec fn filed_by_id(self) -> bool {
        forall|id: i64| #[trigger] self.records@.contains_key(id) ==> self.records@[id].id == id
    }

    /// An empty directory.
    pub fn new() -> (directory: Self)
        ensures
            directory@ == Map::<i64, UserRecordView>::empty(),
            is_directory(directory@),
    {
        let directory = UserDirectory { records: HashMap::new() };
        assert(directory@ =~= Map::<i64, UserRecordView>::empty());
        directory
    }

    /// The number of records.
    pub fn len(&self) -> (count: usize)
        ensures
            count == self@.len(),
            is_directory(self@),
    {
        proof {
            use_type_invariant(self);
            assert(self@.dom() =~= self.records@.dom());
        }
        self.records.len()
    }

    /// Records what the provider says about the user `provider_id`, in one
    /// step: a first sign-in creates the record, a later one overwrites the
    /// login, the avatar and the profile address and leaves the id alone.
    /// Returns the record as it now stands.
    pub fn find_and_update(
        &mut self,
        provider_id: i64,
        login: &str,
        avatar_url: &str,
        profile_url: &str,
    ) -> (record: UserRecord)
        ensures
            final(self)@ == upserted(old(self)@, provider_id, login@, avatar_url@, profile_url@),
            record@ == final(self)@[provider_id],
            is_directory(final(self)@),
    {
        proof {
            use_type_invariant(&*self);
        }
        let stored = UserRecord {
            id: provider_id,
            login: login.to_owned(),
            avatar_url: avatar_url.to_owned(),
            profile_url: profile_url.to_owned(),
        };
        let record = stored.clone();
        let mut records: HashMap<i64, UserRecord> = HashMap::new();
        core::mem::swap(&mut self.records, &mut records);
        records.insert(provider_id, stored);
        core::mem::swap(&mut self.records, &mut records);
        proof {
            assert(final(self)@ =~= upserted(
                old(self)@,
                provider_id,
                login@,
                avatar_url@,
                profile_url@,
            ));
            assert(final(self)@.dom() =~= final(self).records@.dom());
        }
        record
    }

    /// Looks a user up by id. Changes nothing.
    pub fn find_by_id(&self, id: i64) -> (found: Option<UserRecord>)
        ensures
            found.is_some() == self@.contains_key(id),
            found matches Some(record) ==> record@ == self@[id] && record.id == id,
            is_directory(self@),
    {
        proof {
            use_type_invariant(self);
            assert(self@.dom() =~= self.records@.dom());
        }
        match self.records.get(&id) {
            Some(record) => Some(record.clone()),
            None => None,
        }
    }
}

} // verus!
