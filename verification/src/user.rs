use vstd::prelude::*;

verus! {

/// A user record, immutable after creation.
///
/// The identifier is generated by the registry, never supplied by the caller;
/// the timestamp is captured at creation time as milliseconds since the Unix
/// epoch. Name, age and email are caller-supplied and accepted as given: the
/// registry enforces no length, range or format validation on them.
#[derive(Debug)]
pub struct User {
    pub id: String,
    pub name: String,
    pub age: u32,
    pub email: Option<String>,
    pub created_at: i64,
}

/// The mathematical view of a record: each field as a plain spec value.
pub ghost struct UserView {
    pub id: Seq<char>,
    pub name: Seq<char>,
    pub age: u32,
    pub email: Option<Seq<char>>,
    pub created_at: i64,
}

/// The view of an optional string: present or absent, as its characters.
pub open spec fn email_view(e: Option<String>) -> Option<Seq<char>> {
    match e {
        Some(s) => Some(s@),
        None => None,
    }
}

impl View for User {
    type V = UserView;

    open spec fn view(&self) -> UserView {
        UserView {
            id: self.id@,
            name: self.name@,
            age: self.age,
            email: email_view(self.email),
            created_at: self.created_at,
        }
    }
}

impl Clone for User {
    /// A clone carries exactly the fields of the original: the copy a caller
    /// receives does not alias the registry's stored value.
    fn clone(&self) -> (res: Self)
        ensures
            res@ == self@,
    {
        User {
            id: self.id.clone(),
            name: self.name.clone(),
            age: self.age,
            email: match &self.email {
                Some(e) => Some(e.clone()),
                None => None,
            },
            created_at: self.created_at,
        }
    }
}

} // verus!
