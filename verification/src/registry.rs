use vstd::prelude::*;
use vstd::hash_map::StringHashMap;
use crate::user::{email_view, User, UserView};

verus! {

/// Relies on uuid::Uuid::new_v4 and its Display form: a version-4 random
/// identifier rendered as the 36-character hyphenated string. The value is
/// random, so nothing relates two calls; a collision between calls is
/// cryptographically negligible but possible, and nothing here rules it out.
#[verifier::external_body]
fn new_random_id() -> (id: String)
    ensures
        id@.len() == 36,
{
    uuid::Uuid::new_v4().to_string()
}

/// Relies on chrono::Utc::now and DateTime::timestamp_millis: the current
/// wall-clock time as milliseconds since the Unix epoch. Nothing is assumed
/// of the value: the clock may move either way between calls.
#[verifier::external_body]
fn now_millis() -> i64 {
    chrono::Utc::now().timestamp_millis()
}

/// An in-process registry of user records, keyed by generated identifier.
///
/// It stores a backing location verbatim and never acts on it: no I/O ever
/// occurs. Records are created only through the registry, never updated and
/// never removed.
pub struct UserService {
    db_url: String,
    users: StringHashMap<User>,
    last_created_at: i64,
}

impl UserService {
    /// The records held: a map from identifier to record view.
    pub closed spec fn records(&self) -> Map<Seq<char>, UserView> {
        self.users@.map_values(|u: User| u@)
    }

    /// The backing location, stored verbatim at construction.
    pub closed spec fn backing_location(&self) -> Seq<char> {
        self.db_url@
    }

    /// The latest timestamp the registry has stamped a record with, or
    /// `i64::MIN` before the first creation.
    pub closed spec fn last_created(&self) -> i64 {
        self.last_created_at
    }

    /// Well-formed: every record sits under its own identifier, and no stored
    /// timestamp exceeds the latest one stamped.
    pub open spec fn wf(&self) -> bool {
        forall|id: Seq<char>| self.records().contains_key(id) ==> {
            &&& (#[trigger] self.records()[id]).id == id
            &&& self.records()[id].created_at <= self.last_created()
        }
    }

    /// Creates an empty registry. The backing location is kept verbatim and
    /// not acted upon: no connection attempt is made, and this never fails.
    pub fn new(db_url: String) -> (s: Self)
        ensures
            s.wf(),
            s.records() == Map::<Seq<char>, UserView>::empty(),
            s.backing_location() == db_url@,
            s.last_created() == i64::MIN,
    {
        let s = UserService {
            db_url,
            users: StringHashMap::new(),
            last_created_at: i64::MIN,
        };
        proof {
            assert(s.records() =~= Map::<Seq<char>, UserView>::empty());
        }
        s
    }

    /// Builds the record for the given parts under the given identifier and
    /// clock reading, stores it, and returns the caller's own copy.
    ///
    /// The stamped timestamp never goes below the registry's latest one, so
    /// successive creations carry non-decreasing timestamps even if the clock
    /// reading moved backwards. If the identifier is already present — which a
    /// fresh random identifier makes cryptographically negligible — the record
    /// under it is replaced, as the mapping's insert says.
    pub fn create_user_with(
        &mut self,
        name: String,
        age: u32,
        email: Option<String>,
        id: String,
        now: i64,
    ) -> (u: User)
        requires
            old(self).wf(),
        ensures
            final(self).wf(),
            u@.id == id@,
            u@.name == name@,
            u@.age == age,
            u@.email == email_view(email),
            u@.created_at == if now >= old(self).last_created() {
                now
            } else {
                old(self).last_created()
            },
            final(self).last_created() == u@.created_at,
            final(self).records() == old(self).records().insert(id@, u@),
            final(self).backing_location() == old(self).backing_location(),
    {
        let created_at: i64 = if now >= self.last_created_at {
            now
        } else {
            self.last_created_at
        };
        let user = User { id, name, age, email, created_at };
        let copy = user.clone();
        self.users.insert(user.id.clone(), user);
        self.last_created_at = created_at;
        proof {
            assert(self.records() =~= old(self).records().insert(copy@.id, copy@));
        }
        copy
    }

    /// Creates a user: generates a fresh random 128-bit identifier, captures
    /// the current time, constructs the record, stores it under its identifier
    /// and returns the caller's own copy. Total: no input is rejected and no
    /// validation is performed on name, age or email.
    pub fn create_user(&mut self, name: String, age: u32, email: Option<String>) -> (u: User)
        requires
            old(self).wf(),
        ensures
            final(self).wf(),
            u@.name == name@,
            u@.age == age,
            u@.email == email_view(email),
            u@.id.len() == 36,
            u@.created_at == final(self).last_created(),
            final(self).last_created() >= old(self).last_created(),
            final(self).records() == old(self).records().insert(u@.id, u@),
            final(self).backing_location() == old(self).backing_location(),
    {
        let id = new_random_id();
        let now = now_millis();
        self.create_user_with(name, age, email, id, now)
    }

    /// Looks up a record by identifier and returns a read-only view of it, or
    /// the absent result when no record has that identifier. Absence is a
    /// normal outcome, never an error; nothing is mutated.
    pub fn get_user(&self, user_id: &str) -> (r: Option<&User>)
        ensures
            match r {
                Some(u) => self.records().contains_key(user_id@)
                    && u@ == self.records()[user_id@],
                None => !self.records().contains_key(user_id@),
            },
    {
        self.users.get(user_id)
    }
}

} // verus!
