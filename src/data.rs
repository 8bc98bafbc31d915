//! The records of the contact book and the errors of its store.
use vstd::prelude::*;

pub mod database;
pub mod row;
mod sqlite;

verus! {

/// Identifier of a record that the store has not assigned yet.
pub const UNASSIGNED: i32 = -1;

/// The ways in which an operation of the store fails.
#[derive(Debug)]
pub enum Error {
    /// A field held a value that the store does not accept.
    InvalidData,
    /// The row that an insert created has no identifier that a record can
    /// carry: none non-negative and within `i32`.
    NoId,
    /// No record has the identifier that was asked for.
    NotFound,
    /// The database engine failed.
    Sqlite(rusqlite::Error),
}

impl Error {
    /// A short text that names the error; the engine's own message for its
    /// failures.
    pub fn to_string(&self) -> (r: String)
        ensures
            self is InvalidData ==> r@ == "InvalidData"@,
            self is NoId ==> r@ == "NoID"@,
            self is NotFound ==> r@ == "NotFound"@,
    {
        match self {
            Error::InvalidData => "InvalidData".to_owned(),
            Error::NoId => "NoID".to_owned(),
            Error::NotFound => "NotFound".to_owned(),
            Error::Sqlite(e) => e.to_string(),
        }
    }
}

/// The mathematical value of an [`Address`].
pub struct AddressView {
    pub id: i32,
    pub street: Seq<char>,
    pub zip: Seq<char>,
    pub city: Seq<char>,
    pub phone: Option<Seq<char>>,
}

impl AddressView {
    /// The same address under identifier `id`.
    pub open spec fn with_id(self, id: i32) -> AddressView {
        AddressView { id, ..self }
    }
}

/// A postal address with an optional phone number.
#[derive(Debug)]
pub struct Address {
    /// Assigned by the store on insert; [`UNASSIGNED`] before.
    pub id: i32,
    pub street: String,
    pub zip: String,
    pub city: String,
    pub phone: Option<String>,
}

/// The view of an optional text.
pub open spec fn opt_text(s: Option<String>) -> Option<Seq<char>> {
    match s {
        Some(t) => Some(t@),
        None => None,
    }
}

impl View for Address {
    type V = AddressView;

    open spec fn view(&self) -> AddressView {
        AddressView {
            id: self.id,
            street: self.street@,
            zip: self.zip@,
            city: self.city@,
            phone: opt_text(self.phone),
        }
    }
}

/// Equality of two optional texts, by their characters.
pub fn opt_text_eq(a: &Option<String>, b: &Option<String>) -> (r: bool)
    ensures
        r == (opt_text(*a) == opt_text(*b)),
{
    match (a, b) {
        (Some(x), Some(y)) => *x == *y,
        (None, None) => true,
        _ => false,
    }
}

impl Address {
    /// An address that the store has not seen yet.
    pub fn new(street: String, zip: String, city: String, phone: Option<String>) -> (r: Address)
        ensures
            r@ == (AddressView { id: UNASSIGNED, street: street@, zip: zip@, city: city@, phone: opt_text(phone) }),
    {
        Address { id: UNASSIGNED, street, zip, city, phone }
    }
}

impl PartialEq for Address {
    fn eq(&self, other: &Address) -> (r: bool)
        ensures
            r == (self@ == other@),
    {
        self.id == other.id && self.street == other.street && self.zip == other.zip
            && self.city == other.city && opt_text_eq(&self.phone, &other.phone)
    }
}

impl vstd::std_specs::cmp::PartialEqSpecImpl for Address {
    open spec fn obeys_eq_spec() -> bool {
        true
    }

    open spec fn eq_spec(&self, other: &Address) -> bool {
        self@ == other@
    }
}

/// The mathematical value of a [`Person`].
pub struct PersonView {
    pub id: i32,
    pub first_name: Seq<char>,
    pub last_name: Seq<char>,
    pub mobile: Option<Seq<char>>,
    pub address_id: Option<i32>,
    pub address: Option<AddressView>,
}

impl PersonView {
    /// The same person under identifier `id`.
    pub open spec fn with_id(self, id: i32) -> PersonView {
        PersonView { id, ..self }
    }
}

/// A person, who may live at an address.
#[derive(Debug)]
pub struct Person {
    /// Assigned by the store on insert; [`UNASSIGNED`] before.
    pub id: i32,
    pub first_name: String,
    pub last_name: String,
    pub mobile: Option<String>,
    /// The identifier of the address row that the stored person refers to.
    pub address_id: Option<i32>,
    /// The address itself, once it is loaded or about to be stored.
    pub address: Option<Address>,
}

/// The view of an optional address.
pub open spec fn opt_address(a: Option<Address>) -> Option<AddressView> {
    match a {
        Some(x) => Some(x@),
        None => None,
    }
}

impl View for Person {
    type V = PersonView;

    open spec fn view(&self) -> PersonView {
        PersonView {
            id: self.id,
            first_name: self.first_name@,
            last_name: self.last_name@,
            mobile: opt_text(self.mobile),
            address_id: self.address_id,
            address: opt_address(self.address),
        }
    }
}

/// Two persons are equal when all but the address reference agree: the
/// reference only mirrors the embedded address's identifier.
pub open spec fn same_person(a: PersonView, b: PersonView) -> bool {
    &&& a.id == b.id
    &&& a.first_name == b.first_name
    &&& a.last_name == b.last_name
    &&& a.mobile == b.mobile
    &&& a.address == b.address
}

impl Person {
    /// A person that the store has not seen yet, living at `address` if
    /// one is given.
    pub fn new(first_name: String, last_name: String, mobile: Option<String>, address: Option<Address>) -> (r: Person)
        ensures
            r@ == (PersonView {
                id: UNASSIGNED,
                first_name: first_name@,
                last_name: last_name@,
                mobile: opt_text(mobile),
                address_id: None,
                address: opt_address(address),
            }),
    {
        Person { id: UNASSIGNED, first_name, last_name, mobile, address_id: None, address }
    }
}

impl PartialEq for Person {
    fn eq(&self, other: &Person) -> (r: bool)
        ensures
            r == same_person(self@, other@),
    {
        let same_address = match (&self.address, &other.address) {
            (Some(x), Some(y)) => *x == *y,
            (None, None) => true,
            _ => false,
        };
        self.id == other.id && self.first_name == other.first_name && self.last_name
            == other.last_name && opt_text_eq(&self.mobile, &other.mobile) && same_address
    }
}

impl vstd::std_specs::cmp::PartialEqSpecImpl for Person {
    open spec fn obeys_eq_spec() -> bool {
        true
    }

    open spec fn eq_spec(&self, other: &Person) -> bool {
        same_person(self@, other@)
    }
}

} // verus!
