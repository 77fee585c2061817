use vstd::prelude::*;

use crate::ids::UserId;

verus! {

/// Why contact details were refused.
#[derive(Clone, Copy, Debug, PartialEq, Eq, Structural)]
pub enum ContactError {
    PhoneRequired,
    EmailRequired,
    /// Neither a phone number nor an email was given.
    IdentifierRequired,
}

impl ContactError {
    /// Message shown to the caller.
    pub fn message(&self) -> (r: String)
        ensures
            r@ == contact_message(*self),
    {
        match self {
            ContactError::PhoneRequired => String::from_str("Phone number is required"),
            ContactError::EmailRequired => String::from_str("Email is required"),
            ContactError::IdentifierRequired => String::from_str(
                "At least one of phone or email is required",
            ),
        }
    }
}

pub open spec fn contact_message(e: ContactError) -> Seq<char> {
    match e {
        ContactError::PhoneRequired => "Phone number is required"@,
        ContactError::EmailRequired => "Email is required"@,
        ContactError::IdentifierRequired => "At least one of phone or email is required"@,
    }
}

/// A given, non-empty text.
pub open spec fn present(s: Option<String>) -> bool {
    s is Some && s->0@.len() > 0
}

/// The phone number and email of a new user; both are required and must not
/// be empty, the phone number being checked first.
pub fn required_contact(phone: Option<String>, email: Option<String>) -> (r: Result<
    (String, String),
    ContactError,
>)
    ensures
        !present(phone) ==> r == Err::<(String, String), ContactError>(ContactError::PhoneRequired),
        present(phone) && !present(email) ==> r == Err::<(String, String), ContactError>(
            ContactError::EmailRequired,
        ),
        present(phone) && present(email) ==> r == Ok::<(String, String), ContactError>(
            (phone->0, email->0),
        ),
{
    let p = match phone {
        Some(p) => p,
        None => return Err(ContactError::PhoneRequired),
    };
    if p.as_str().is_empty() {
        return Err(ContactError::PhoneRequired);
    }
    let e = match email {
        Some(e) => e,
        None => return Err(ContactError::EmailRequired),
    };
    if e.as_str().is_empty() {
        return Err(ContactError::EmailRequired);
    }
    Ok((p, e))
}

/// How to find a user.
#[derive(Debug)]
pub enum Lookup {
    ByPhone(String),
    ByEmail(String),
}

/// The key to find a user by: the phone number when given, else the email.
pub fn lookup_key(phone: Option<String>, email: Option<String>) -> (r: Result<Lookup, ContactError>)
    ensures
        phone matches Some(p) ==> r == Ok::<Lookup, ContactError>(Lookup::ByPhone(p)),
        phone is None && email is Some ==> r == Ok::<Lookup, ContactError>(
            Lookup::ByEmail(email->0),
        ),
        phone is None && email is None ==> r == Err::<Lookup, ContactError>(
            ContactError::IdentifierRequired,
        ),
{
    match (phone, email) {
        (Some(p), _) => Ok(Lookup::ByPhone(p)),
        (None, Some(e)) => Ok(Lookup::ByEmail(e)),
        (None, None) => Err(ContactError::IdentifierRequired),
    }
}

/// One way of naming a stored user.
#[derive(Debug)]
pub enum UserKey {
    ById(UserId),
    ByEmail(String),
    ByPhone(String),
}

/// The keys to try when looking a user up: the id, then the email, then the
/// phone number, each where given.
pub open spec fn key_order(user_id: Option<UserId>, email: Option<String>, phone: Option<String>) -> Seq<
    UserKey,
> {
    (if user_id is Some {
        seq![UserKey::ById(user_id->0)]
    } else {
        Seq::empty()
    }) + (if email is Some {
        seq![UserKey::ByEmail(email->0)]
    } else {
        Seq::empty()
    }) + (if phone is Some {
        seq![UserKey::ByPhone(phone->0)]
    } else {
        Seq::empty()
    })
}

/// The order in which to try the given identifiers of a user: the first key
/// that names a stored user decides.
pub fn identifier_order(user_id: Option<UserId>, email: Option<String>, phone: Option<String>) -> (r:
    Vec<UserKey>)
    ensures
        r@ == key_order(user_id, email, phone),
{
    let ghost (i0, e0, p0) = (user_id, email, phone);
    let mut keys: Vec<UserKey> = Vec::new();
    if let Some(id) = user_id {
        keys.push(UserKey::ById(id));
    }
    if let Some(e) = email {
        keys.push(UserKey::ByEmail(e));
    }
    if let Some(p) = phone {
        keys.push(UserKey::ByPhone(p));
    }
    assert(keys@ =~= key_order(i0, e0, p0));
    keys
}

} // verus!
