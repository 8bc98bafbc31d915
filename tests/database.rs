use hello_rusqlite::{Address, Database, Error, Person};

#[test]
fn insert_person() -> Result<(), Error> {
    let db = Database::open_in_memory()?;

    let mut person = Person {
        id: -1,
        first_name: String::from("Max"),
        last_name: String::from("Mustermann"),
        mobile: None,
        address_id: None,
        address: None,
    };

    let id = db.insert_person(&mut person)?;
    assert!(id >= 0);
    assert_eq!(id, person.id);

    Ok(())
}

#[test]
fn insert_person_mobile() -> Result<(), Error> {
    let db = Database::open_in_memory()?;

    let mut person = Person {
        id: -1,
        first_name: String::from("Max"),
        last_name: String::from("Mustermann"),
        mobile: Some(String::from("0123456789")),
        address_id: None,
        address: None,
    };

    let id = db.insert_person(&mut person)?;
    assert!(id >= 0);
    assert_eq!(id, person.id);

    Ok(())
}

#[test]
fn insert_person_address() -> Result<(), Error> {
    let db = Database::open_in_memory()?;

    let mut address = Address {
        id: -1,
        street: String::from("Musterstraße 1"),
        zip: String::from("00000"),
        city: String::from("Musterstadt"),
        phone: None,
    };

    let mut person = Person {
        id: -1,
        first_name: String::from("Max"),
        last_name: String::from("Mustermann"),
        mobile: None,
        address_id: None,
        address: Some(address),
    };

    let id = db.insert_person(&mut person)?;
    assert!(id >= 0);
    assert_eq!(id, person.id);

    Ok(())
}

#[test]
fn get_person_by_id() -> Result<(), Error> {
    let db = Database::open_in_memory()?;

    let mut address = Address {
        id: -1,
        street: String::from("Musterstraße 1"),
        zip: String::from("00000"),
        city: String::from("Musterstadt"),
        phone: None,
    };

    let mut person = Person {
        id: -1,
        first_name: String::from("Max"),
        last_name: String::from("Mustermann"),
        mobile: None,
        address_id: None,
        address: Some(address),
    };

    let id = db.insert_person(&mut person)?;
    assert!(id >= 0);
    assert_eq!(id, person.id);

    let person2 = db.get_person_by_id(id)?;
    assert_eq!(person, person2);

    Ok(())
}

#[test]
fn get_person_by_id_no_address() -> Result<(), Error> {
    let db = Database::open_in_memory()?;

    let mut person = Person {
        id: -1,
        first_name: String::from("Max"),
        last_name: String::from("Mustermann"),
        mobile: None,
        address_id: None,
        address: None,
    };

    let id = db.insert_person(&mut person)?;
    assert!(id >= 0);
    assert_eq!(id, person.id);

    let person2 = db.get_person_by_id(id)?;
    assert_eq!(person, person2);

    Ok(())
}

#[test]
fn database_insert_address() -> Result<(), Error> {
    let db = Database::open_in_memory()?;

    let mut address = Address {
        id: -1,
        street: String::from("Musterstraße 1"),
        zip: String::from("00000"),
        city: String::from("Musterstadt"),
        phone: None,
    };

    let id = db.insert_address(&mut address)?;
    assert!(id >= 0);
    assert_eq!(id, address.id);

    Ok(())
}

#[test]
fn database_insert_address_phone() -> Result<(), Error> {
    let db = Database::open_in_memory()?;

    let mut address = Address {
        id: -1,
        street: String::from("Musterstraße 2"),
        zip: String::from("00000"),
        city: String::from("Musterstadt"),
        phone: Some(String::from("01234567890")),
    };

    let id = db.insert_address(&mut address)?;
    assert!(id >= 0);
    assert_eq!(id, address.id);

    Ok(())
}

#[test]
fn database_get_address_by_id() -> Result<(), Error> {
    let db = Database::open_in_memory()?;

    let mut address = Address {
        id: -1,
        street: String::from("Musterstraße 3"),
        zip: String::from("12345"),
        city: String::from("Meinestadt"),
        phone: Some(String::from("098765431")),
    };

    let id = db.insert_address(&mut address)?;
    assert!(id >= 0);
    assert_eq!(id, address.id);

    let address2 = db.get_address_by_id(id)?;

    assert_eq!(address, address2);

    Ok(())
}

#[test]
fn database_update_address() -> Result<(), Error> {
    let db = Database::open_in_memory()?;

    let mut address = Address {
        id: -1,
        street: String::from("Musterstraße 4"),
        zip: String::from("54321"),
        city: String::from("Mycity"),
        phone: None,
    };

    let id = db.insert_address(&mut address)?;
    assert!(id >= 0);
    assert_eq!(id, address.id);

    let address2 = Address {
        street: String::from("Musterstraße 5"),
        zip: String::from("65432"),
        city: String::from("Anothercity"),
        phone: Some(String::from("099998888")),
        ..address
    };

    db.update_address(&address2)?;

    let address3 = db.get_address_by_id(id)?;

    assert_eq!(address2, address3);

    Ok(())
}

#[test]
fn database_get_addresses_empty() -> Result<(), Error> {
    let db = Database::open_in_memory()?;
    db.reset()?;

    let addresses = db.get_addresses()?;

    assert!(addresses.len() == 0);

    Ok(())
}

#[test]
fn database_get_addresses() -> Result<(), Error> {
    let db = Database::open_in_memory()?;
    db.reset()?;

    let mut address = Address {
        id: -1,
        street: String::from("Musterstraße 4"),
        zip: String::from("54321"),
        city: String::from("Mycity"),
        phone: None,
    };

    let id = db.insert_address(&mut address)?;
    assert!(id >= 0);
    assert_eq!(id, address.id);

    let mut address2 = Address {
        street: String::from("Musterstraße 5"),
        zip: String::from("65432"),
        city: String::from("Anothercity"),
        phone: Some(String::from("099998888")),
        ..address
    };

    let id = db.insert_address(&mut address2)?;
    assert!(id >= 0);
    assert_eq!(id, address2.id);

    let addresses = db.get_addresses()?;

    assert!(addresses.len() == 2);
    assert_eq!(addresses[0], address);
    assert_eq!(addresses[1], address2);

    Ok(())
}

#[test]
fn database_delete_address() -> Result<(), Error> {
    let db = Database::open_in_memory()?;

    let mut address = Address {
        id: -1,
        street: String::from("Musterstraße 4"),
        zip: String::from("54321"),
        city: String::from("Mycity"),
        phone: None,
    };

    let id = db.insert_address(&mut address)?;
    assert!(id >= 0);
    assert_eq!(id, address.id);

    db.delete_address(id)?;

    match db.get_address_by_id(id) {
        Ok(_) => panic!("address wasn't deleted!"),
        Err(_) => Ok(()),
    }
}

#[test]
fn inserted_address_without_phone_reads_back_equal() -> Result<(), Error> {
    let db = Database::open_in_memory()?;

    let mut address = Address {
        id: -1,
        street: String::from("Musterstraße 1"),
        zip: String::from("00000"),
        city: String::from("Musterstadt"),
        phone: None,
    };

    let id = db.insert_address(&mut address)?;
    assert!(id >= 0);
    assert_eq!(db.get_address_by_id(id)?, address);

    Ok(())
}

#[test]
fn update_address_clears_phone() -> Result<(), Error> {
    let db = Database::open_in_memory()?;

    let mut address = Address {
        id: -1,
        street: String::from("Musterstraße 6"),
        zip: String::from("11111"),
        city: String::from("Musterstadt"),
        phone: Some(String::from("0555")),
    };
    let id = db.insert_address(&mut address)?;

    let cleared = Address {
        phone: None,
        ..address
    };
    db.update_address(&cleared)?;

    let loaded = db.get_address_by_id(id)?;
    assert_eq!(loaded.phone, None);
    assert_eq!(loaded, cleared);

    Ok(())
}

#[test]
fn get_address_by_id_missing_is_not_found() -> Result<(), Error> {
    let db = Database::open_in_memory()?;
    db.reset()?;

    assert!(matches!(db.get_address_by_id(4711), Err(Error::NotFound)));

    Ok(())
}

#[test]
fn get_person_by_id_missing_is_not_found() -> Result<(), Error> {
    let db = Database::open_in_memory()?;
    db.reset()?;

    assert!(matches!(db.get_person_by_id(4711), Err(Error::NotFound)));

    Ok(())
}

#[test]
fn delete_address_removes_only_that_row() -> Result<(), Error> {
    let db = Database::open_in_memory()?;
    db.reset()?;

    let mut first = Address {
        id: -1,
        street: String::from("Musterstraße 7"),
        zip: String::from("22222"),
        city: String::from("Musterstadt"),
        phone: None,
    };
    let mut second = Address {
        id: -1,
        street: String::from("Musterstraße 8"),
        zip: String::from("33333"),
        city: String::from("Musterstadt"),
        phone: None,
    };
    let first_id = db.insert_address(&mut first)?;
    let second_id = db.insert_address(&mut second)?;

    db.delete_address(first_id)?;

    assert!(matches!(db.get_address_by_id(first_id), Err(Error::NotFound)));
    assert_eq!(db.get_address_by_id(second_id)?, second);
    assert_eq!(db.get_addresses()?, vec![second]);

    Ok(())
}

#[test]
fn insert_person_with_mobile_and_address_reads_back_equal() -> Result<(), Error> {
    let db = Database::open_in_memory()?;

    let mut person = Person {
        id: -1,
        first_name: String::from("Erika"),
        last_name: String::from("Musterfrau"),
        mobile: Some(String::from("0170")),
        address_id: None,
        address: Some(Address {
            id: -1,
            street: String::from("Musterweg 9"),
            zip: String::from("44444"),
            city: String::from("Musterdorf"),
            phone: Some(String::from("0333")),
        }),
    };

    let id = db.insert_person(&mut person)?;
    assert_eq!(id, person.id);
    let address_id = person.address.as_ref().map(|a| a.id).unwrap();
    assert!(address_id >= 0);

    let loaded = db.get_person_by_id(id)?;
    assert_eq!(loaded, person);
    assert_eq!(loaded.address_id, Some(address_id));

    Ok(())
}

#[test]
fn insert_person_with_address_reference_updates_address() -> Result<(), Error> {
    let db = Database::open_in_memory()?;

    let mut address = Address {
        id: -1,
        street: String::from("Altweg 1"),
        zip: String::from("55555"),
        city: String::from("Altstadt"),
        phone: None,
    };
    let address_id = db.insert_address(&mut address)?;

    let mut person = Person {
        id: -1,
        first_name: String::from("Max"),
        last_name: String::from("Mustermann"),
        mobile: None,
        address_id: Some(address_id),
        address: Some(Address {
            street: String::from("Neuweg 2"),
            ..address
        }),
    };
    let id = db.insert_person(&mut person)?;

    assert_eq!(person.address.as_ref().map(|a| a.id), Some(address_id));
    assert_eq!(db.get_address_by_id(address_id)?.street, "Neuweg 2");
    assert_eq!(db.get_person_by_id(id)?, person);

    Ok(())
}
