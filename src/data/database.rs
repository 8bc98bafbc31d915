//! The store: a connection to the database file and the operations on it.
use rusqlite::Connection;
use vstd::prelude::*;

use crate::data::row::{
    address_insert_params, address_update_params, addresses_from_rows, id_params,
    identifier_from_rowid, person_insert_params, select_address, select_person,
};
use crate::data::row::SqlValue;
use crate::data::sqlite::{execute, open_connection, query_address_rows, query_person_rows};
use crate::data::{Address, Error, Person, PersonView};

verus! {

/// The file that holds the contact book.
pub const DATABASE_FILE: &'static str = "kontakte.db";

const CREATE_ADDRESS_TABLE: &'static str = "CREATE TABLE IF NOT EXISTS address (
    id INTEGER PRIMARY KEY,
    street TEXT NOT NULL,
    zip TEXT NOT NULL,
    city TEXT NOT NULL,
    phone TEXT
);";

const CREATE_PERSON_TABLE: &'static str = "CREATE TABLE IF NOT EXISTS person (
    id INTEGER PRIMARY KEY,
    first_name TEXT NOT NULL,
    last_name TEXT NOT NULL,
    mobile TEXT,
    address INTEGER,
    FOREIGN KEY(address) REFERENCES address(id)
);";

const DROP_ADDRESS_TABLE: &'static str = "DROP TABLE address;";

const DROP_PERSON_TABLE: &'static str = "DROP TABLE person;";

const INSERT_ADDRESS: &'static str = "INSERT INTO address (street, zip, city, phone) VALUES (?1, ?2, ?3, ?4)";

const SELECT_ADDRESS: &'static str = "SELECT id, street, zip, city, phone FROM address WHERE id = ?1";

const SELECT_ADDRESSES: &'static str = "SELECT id, street, zip, city, phone FROM address";

const UPDATE_ADDRESS: &'static str = "UPDATE address SET street = ?1, zip = ?2, city = ?3, phone = ?4 WHERE id = ?5";

const DELETE_ADDRESS: &'static str = "DELETE FROM address WHERE id = ?1";

const INSERT_PERSON: &'static str = "INSERT INTO person (first_name, last_name, mobile, address) VALUES (?1, ?2, ?3, ?4)";

const BEGIN: &'static str = "BEGIN";

const COMMIT: &'static str = "COMMIT";

const ROLLBACK: &'static str = "ROLLBACK";

const SELECT_PERSON: &'static str = "SELECT id, first_name, last_name, mobile, address FROM person WHERE id = ?1";

/// What storing a person leaves of it: names, mobile and address reference
/// are kept, and so is the embedded address but for its identifier; an
/// address that the person already refers to keeps that too.
pub open spec fn stored_person(old: PersonView, new: PersonView) -> bool {
    &&& new.first_name == old.first_name
    &&& new.last_name == old.last_name
    &&& new.mobile == old.mobile
    &&& new.address_id == old.address_id
    &&& (new.address is Some <==> old.address is Some)
    &&& new.address matches Some(na) ==> na == old.address->Some_0.with_id(na.id)
    &&& old.address_id is Some ==> new.address == old.address
}

/// A contact store on one database connection.
pub struct Database {
    connection: Connection,
}

impl Database {
    /// Opens the contact book in [`DATABASE_FILE`] and creates its tables
    /// where they are missing.
    pub fn open() -> (r: Result<Database, Error>)
        ensures
            r matches Err(e) ==> e is Sqlite,
    {
        match open_connection(DATABASE_FILE) {
            Ok(c) => Database::on_connection(c),
            Err(e) => Err(Error::Sqlite(e)),
        }
    }

    /// Opens a contact book that lives in memory only, with its tables.
    pub fn open_in_memory() -> (r: Result<Database, Error>)
        ensures
            r matches Err(e) ==> e is Sqlite,
    {
        match Connection::open_in_memory() {
            Ok(c) => Database::on_connection(c),
            Err(e) => Err(Error::Sqlite(e)),
        }
    }

    fn on_connection(connection: Connection) -> (r: Result<Database, Error>)
        ensures
            r matches Err(e) ==> e is Sqlite,
    {
        let db = Database { connection };
        match db.initialize() {
            Ok(()) => Ok(db),
            Err(e) => Err(e),
        }
    }

    fn run(&self, sql: &str, params: &Vec<SqlValue>) -> (r: Result<(), Error>)
        ensures
            r matches Err(e) ==> e is Sqlite,
    {
        match execute(&self.connection, sql, params) {
            Ok(_) => Ok(()),
            Err(e) => Err(Error::Sqlite(e)),
        }
    }

    fn initialize(&self) -> (r: Result<(), Error>)
        ensures
            r matches Err(e) ==> e is Sqlite,
    {
        let none = Vec::new();
        match self.run(CREATE_ADDRESS_TABLE, &none) {
            Ok(()) => {},
            Err(e) => return Err(e),
        }
        self.run(CREATE_PERSON_TABLE, &none)
    }

    /// Drops both tables and creates them anew, empty.
    pub fn reset(&self) -> (r: Result<(), Error>)
        ensures
            r matches Err(e) ==> e is Sqlite,
    {
        let none = Vec::new();
        match self.run(DROP_ADDRESS_TABLE, &none) {
            Ok(()) => {},
            Err(e) => return Err(e),
        }
        match self.run(DROP_PERSON_TABLE, &none) {
            Ok(()) => {},
            Err(e) => return Err(e),
        }
        self.initialize()
    }

    /// The identifier of the row that the latest insert created.
    fn inserted_id(&self) -> (r: Result<i32, Error>)
        ensures
            match r {
                Ok(id) => 0 <= id,
                Err(e) => e is NoId,
            },
    {
        identifier_from_rowid(self.connection.last_insert_rowid())
    }

    /// Stores `address` as a new row and gives it the row's identifier.
    pub fn insert_address(&self, address: &mut Address) -> (r: Result<i32, Error>)
        ensures
            match r {
                Ok(id) => 0 <= id && final(address)@ == old(address)@.with_id(id),
                Err(e) => final(address)@ == old(address)@ && (e is Sqlite || e is NoId),
            },
    {
        let params = address_insert_params(address);
        match self.run(INSERT_ADDRESS, &params) {
            Ok(()) => {},
            Err(e) => return Err(e),
        }
        match self.inserted_id() {
            Ok(id) => {
                address.id = id;
                Ok(id)
            },
            Err(e) => Err(e),
        }
    }

    /// The address with identifier `id`; `NotFound` when there is none.
    pub fn get_address_by_id(&self, id: i32) -> (r: Result<Address, Error>)
        ensures
            match r {
                Ok(a) => a.id == id,
                Err(e) => e is NotFound || e is Sqlite,
            },
    {
        match query_address_rows(&self.connection, SELECT_ADDRESS, &id_params(id)) {
            Ok(rows) => select_address(&rows, id),
            Err(e) => Err(Error::Sqlite(e)),
        }
    }

    /// All addresses, in the order in which the store keeps them.
    pub fn get_addresses(&self) -> (r: Result<Vec<Address>, Error>)
        ensures
            r matches Err(e) ==> e is Sqlite,
    {
        match query_address_rows(&self.connection, SELECT_ADDRESSES, &Vec::new()) {
            Ok(rows) => Ok(addresses_from_rows(&rows)),
            Err(e) => Err(Error::Sqlite(e)),
        }
    }

    /// Overwrites street, zip, city and phone of the row with `address`'s
    /// identifier; an absent phone clears it. No matching row is no error.
    pub fn update_address(&self, address: &Address) -> (r: Result<(), Error>)
        ensures
            r matches Err(e) ==> e is Sqlite,
    {
        self.run(UPDATE_ADDRESS, &address_update_params(address))
    }

    /// Removes the address row with identifier `id`, if there is one.
    pub fn delete_address(&self, id: i32) -> (r: Result<(), Error>)
        ensures
            r matches Err(e) ==> e is Sqlite,
    {
        self.run(DELETE_ADDRESS, &id_params(id))
    }

    /// Stores `person` as a new row and gives it the row's identifier. An
    /// embedded address is stored first: updated where the person already
    /// refers to it, else inserted, and the person row refers to it. Both
    /// rows are written in one transaction: on failure neither is, and
    /// `person` keeps its identifiers.
    pub fn insert_person(&self, person: &mut Person) -> (r: Result<i32, Error>)
        ensures
            stored_person(old(person)@, final(person)@),
            match r {
                Ok(id) => {
                    &&& 0 <= id
                    &&& final(person).id == id
                    &&& old(person).address_id is None ==> (final(person).address matches Some(a)
                        ==> 0 <= a.id)
                },
                Err(e) => final(person)@ == old(person)@ && (e is Sqlite || e is NoId),
            },
    {
        let none = Vec::new();
        match self.run(BEGIN, &none) {
            Ok(()) => {},
            Err(e) => return Err(e),
        }
        let id_before = person.id;
        let address_id_before = match &person.address {
            Some(a) => a.id,
            None => 0,
        };
        let result = match self.insert_person_rows(person) {
            Ok(id) => match self.run(COMMIT, &none) {
                Ok(()) => Ok(id),
                Err(e) => Err(e),
            },
            Err(e) => Err(e),
        };
        if result.is_err() {
            let _ = self.run(ROLLBACK, &none);
            person.id = id_before;
            match &mut person.address {
                Some(a) => {
                    a.id = address_id_before;
                },
                None => {},
            }
        }
        result
    }

    /// Writes the rows of `person` and its embedded address, outside of
    /// any transaction of its own.
    fn insert_person_rows(&self, person: &mut Person) -> (r: Result<i32, Error>)
        ensures
            stored_person(old(person)@, final(person)@),
            match r {
                Ok(id) => {
                    &&& 0 <= id
                    &&& final(person).id == id
                    &&& old(person).address_id is None ==> (final(person).address matches Some(a)
                        ==> 0 <= a.id)
                },
                Err(e) => final(person).id == old(person).id && (e is Sqlite || e is NoId),
            },
    {
        let has_ref = person.address_id.is_some();
        match &mut person.address {
            Some(address) => {
                if has_ref {
                    match self.update_address(address) {
                        Ok(()) => {},
                        Err(e) => return Err(e),
                    }
                } else {
                    match self.insert_address(address) {
                        Ok(_) => {},
                        Err(e) => return Err(e),
                    }
                }
            },
            None => {},
        }
        let params = person_insert_params(person);
        match self.run(INSERT_PERSON, &params) {
            Ok(()) => {},
            Err(e) => return Err(e),
        }
        match self.inserted_id() {
            Ok(id) => {
                person.id = id;
                Ok(id)
            },
            Err(e) => Err(e),
        }
    }

    /// The person with identifier `id`, with the address it refers to
    /// loaded; `NotFound` when there is no such person, and the address
    /// lookup's failure when the address is missing.
    pub fn get_person_by_id(&self, id: i32) -> (r: Result<Person, Error>)
        ensures
            match r {
                Ok(p) => {
                    &&& p.id == id
                    &&& p.address_id is None ==> p.address is None
                    &&& p.address_id matches Some(aid) ==> (p.address matches Some(a) && a.id == aid)
                },
                Err(e) => e is NotFound || e is Sqlite,
            },
    {
        let rows = match query_person_rows(&self.connection, SELECT_PERSON, &id_params(id)) {
            Ok(rows) => rows,
            Err(e) => return Err(Error::Sqlite(e)),
        };
        let mut person = match select_person(&rows, id) {
            Ok(p) => p,
            Err(e) => return Err(e),
        };
        match person.address_id {
            Some(aid) => match self.get_address_by_id(aid) {
                Ok(a) => {
                    person.address = Some(a);
                },
                Err(e) => return Err(e),
            },
            None => {},
        }
        Ok(person)
    }
}

} // verus!
