//! Contacts: people a user deals with, shared between users through links.
//! A user sees, edits and extends only the contacts linked to them.
use vstd::prelude::*;
use crate::errors::ServiceError;

verus! {

/// A contact.
pub struct ContactRecord {
    pub id: String,
    pub name: String,
    pub phone: Option<String>,
    pub is_pinned: bool,
}

/// A way to recognise a contact (a UPI id, a phone number, ...).
pub struct IdentifierRecord {
    pub id: String,
    pub contact_id: String,
    /// The kind of identifier, as given.
    pub id_type: String,
    pub value: String,
    pub linked_user_id: Option<String>,
}

/// A contact linked to a user.
pub struct ContactLinkRecord {
    pub user_id: String,
    pub contact_id: String,
}

/// A new, unpinned contact linked to `user_id`.
pub fn new_contact(user_id: &str, name: String, phone: Option<String>) -> (r: (ContactRecord, ContactLinkRecord))
    ensures
        r.0.name == name,
        r.0.phone == phone,
        !r.0.is_pinned,
        r.1.user_id@ == user_id@,
        r.1.contact_id@ == r.0.id@,
{
    let contact = ContactRecord { id: crate::ids::new_id(), name, phone, is_pinned: false };
    let link = ContactLinkRecord { user_id: crate::text::owned(user_id), contact_id: contact.id.clone() };
    (contact, link)
}

/// Edits a contact the user is linked to; a field left `None` stays.
pub fn update_contact(link_found: bool, contact: Option<ContactRecord>, name: Option<String>, phone: Option<String>, is_pinned: Option<bool>) -> (r: Result<ContactRecord, ServiceError>)
    ensures
        !link_found ==> r == Err::<ContactRecord, ServiceError>(ServiceError::ContactLinkNotFound),
        link_found && contact is None ==> r == Err::<ContactRecord, ServiceError>(ServiceError::ContactNotFound),
        link_found && contact is Some ==> r is Ok,
        r matches Ok(c) ==> {
            let old = contact->0;
            &&& c.id == old.id
            &&& c.name == match name { Some(n) => n, None => old.name }
            &&& c.phone == match phone { Some(p) => Some(p), None => old.phone }
            &&& c.is_pinned == match is_pinned { Some(b) => b, None => old.is_pinned }
        },
{
    if !link_found {
        return Err(ServiceError::ContactLinkNotFound);
    }
    let mut c = match contact {
        Some(c) => c,
        None => {
            return Err(ServiceError::ContactNotFound);
        },
    };
    if let Some(n) = name {
        c.name = n;
    }
    if let Some(p) = phone {
        c.phone = Some(p);
    }
    if let Some(b) = is_pinned {
        c.is_pinned = b;
    }
    Ok(c)
}

/// The details of a contact the user is linked to: the contact itself, then
/// its identifiers and transactions as looked up.
pub fn contact_detail<I, T>(link_found: bool, contact: Option<ContactRecord>, identifiers: Vec<I>, transactions: Vec<T>) -> (r: Result<(ContactRecord, Vec<I>, Vec<T>), ServiceError>)
    ensures
        !link_found ==> r == Err::<(ContactRecord, Vec<I>, Vec<T>), ServiceError>(ServiceError::ContactLinkNotFound),
        link_found && contact is None ==> r == Err::<(ContactRecord, Vec<I>, Vec<T>), ServiceError>(ServiceError::ContactNotFound),
        link_found && contact is Some ==> r == Ok::<(ContactRecord, Vec<I>, Vec<T>), ServiceError>((contact->0, identifiers, transactions)),
{
    if !link_found {
        return Err(ServiceError::ContactLinkNotFound);
    }
    match contact {
        Some(c) => Ok((c, identifiers, transactions)),
        None => Err(ServiceError::ContactNotFound),
    }
}

/// A new identifier of a contact the user is linked to.
pub fn add_identifier(link_found: bool, contact_id: &str, id_type: String, value: String) -> (r: Result<IdentifierRecord, ServiceError>)
    ensures
        !link_found <==> r is Err,
        r matches Err(e) ==> e == ServiceError::ContactLinkNotFound,
        r matches Ok(i) ==> i.contact_id@ == contact_id@ && i.id_type == id_type && i.value == value && i.linked_user_id is None,
{
    if !link_found {
        return Err(ServiceError::ContactLinkNotFound);
    }
    Ok(IdentifierRecord {
        id: crate::ids::new_id(),
        contact_id: crate::text::owned(contact_id),
        id_type,
        value,
        linked_user_id: None,
    })
}

} // verus!
