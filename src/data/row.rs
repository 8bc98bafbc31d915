//! How records become statement parameters, and how result rows become records.
use vstd::prelude::*;

use crate::data::{opt_text, Address, AddressView, Error, Person, PersonView};

verus! {

/// A value bound to a parameter of an SQL statement.
#[derive(Debug)]
pub enum SqlValue {
    Null,
    Integer(i64),
    Text(String),
}

/// The mathematical value of a [`SqlValue`].
pub enum SqlValueView {
    Null,
    Integer(i64),
    Text(Seq<char>),
}

impl View for SqlValue {
    type V = SqlValueView;

    open spec fn view(&self) -> SqlValueView {
        match self {
            SqlValue::Null => SqlValueView::Null,
            SqlValue::Integer(i) => SqlValueView::Integer(*i),
            SqlValue::Text(s) => SqlValueView::Text(s@),
        }
    }
}

/// The views of a list of parameter values.
pub open spec fn values_view(v: Seq<SqlValue>) -> Seq<SqlValueView> {
    v.map_values(|x: SqlValue| x@)
}

/// An optional text binds as text, or as NULL when absent.
pub open spec fn opt_text_value(s: Option<Seq<char>>) -> SqlValueView {
    match s {
        Some(t) => SqlValueView::Text(t),
        None => SqlValueView::Null,
    }
}

fn text_param(s: &String) -> (r: SqlValue)
    ensures
        r@ == SqlValueView::Text(s@),
{
    SqlValue::Text(s.clone())
}

fn opt_text_param(s: &Option<String>) -> (r: SqlValue)
    ensures
        r@ == opt_text_value(opt_text(*s)),
{
    match s {
        Some(t) => text_param(t),
        None => SqlValue::Null,
    }
}

/// Parameters of the address insert: street, zip, city and phone.
pub open spec fn address_insert_values(a: AddressView) -> Seq<SqlValueView> {
    seq![
        SqlValueView::Text(a.street),
        SqlValueView::Text(a.zip),
        SqlValueView::Text(a.city),
        opt_text_value(a.phone),
    ]
}

/// Parameters of the address update: the four columns, then the identifier
/// of the row to overwrite.
pub open spec fn address_update_values(a: AddressView) -> Seq<SqlValueView> {
    address_insert_values(a).push(SqlValueView::Integer(a.id as i64))
}

/// The address reference of a person row: the embedded address's identifier,
/// or NULL for a person without address.
pub open spec fn address_ref_value(a: Option<AddressView>) -> SqlValueView {
    match a {
        Some(x) => SqlValueView::Integer(x.id as i64),
        None => SqlValueView::Null,
    }
}

/// Parameters of the person insert: first name, last name, mobile and the
/// address reference.
pub open spec fn person_insert_values(p: PersonView) -> Seq<SqlValueView> {
    seq![
        SqlValueView::Text(p.first_name),
        SqlValueView::Text(p.last_name),
        opt_text_value(p.mobile),
        address_ref_value(p.address),
    ]
}

/// Parameters of a statement that picks a row by its identifier.
pub open spec fn id_values(id: i32) -> Seq<SqlValueView> {
    seq![SqlValueView::Integer(id as i64)]
}

/// The values that inserting `a` binds.
pub fn address_insert_params(a: &Address) -> (r: Vec<SqlValue>)
    ensures
        values_view(r@) == address_insert_values(a@),
{
    let r = vec![
        text_param(&a.street),
        text_param(&a.zip),
        text_param(&a.city),
        opt_text_param(&a.phone),
    ];
    assert(values_view(r@) =~= address_insert_values(a@));
    r
}

/// The values that updating the row of `a` to `a`'s fields binds; an absent
/// phone clears the column.
pub fn address_update_params(a: &Address) -> (r: Vec<SqlValue>)
    ensures
        values_view(r@) == address_update_values(a@),
{
    let mut r = address_insert_params(a);
    r.push(SqlValue::Integer(a.id as i64));
    assert(values_view(r@) =~= address_update_values(a@));
    r
}

/// The values that inserting `p` binds.
pub fn person_insert_params(p: &Person) -> (r: Vec<SqlValue>)
    ensures
        values_view(r@) == person_insert_values(p@),
{
    let address_ref = match &p.address {
        Some(a) => SqlValue::Integer(a.id as i64),
        None => SqlValue::Null,
    };
    let r = vec![
        text_param(&p.first_name),
        text_param(&p.last_name),
        opt_text_param(&p.mobile),
        address_ref,
    ];
    assert(values_view(r@) =~= person_insert_values(p@));
    r
}

/// The value that picks the row with identifier `id`.
pub fn id_params(id: i32) -> (r: Vec<SqlValue>)
    ensures
        values_view(r@) == id_values(id),
{
    let r = vec![SqlValue::Integer(id as i64)];
    assert(values_view(r@) =~= id_values(id));
    r
}

/// The columns of an address row: id, street, zip, city, phone.
pub type AddressRow = (i32, String, String, String, Option<String>);

/// The columns of a person row: id, first name, last name, mobile, address
/// reference.
pub type PersonRow = (i32, String, String, Option<String>, Option<i32>);

/// The address that an address row holds.
pub open spec fn address_of_row(row: AddressRow) -> AddressView {
    AddressView {
        id: row.0,
        street: row.1@,
        zip: row.2@,
        city: row.3@,
        phone: opt_text(row.4),
    }
}

/// The person that a person row holds; the address it refers to is not
/// loaded yet.
pub open spec fn person_of_row(row: PersonRow) -> PersonView {
    PersonView {
        id: row.0,
        first_name: row.1@,
        last_name: row.2@,
        mobile: opt_text(row.3),
        address_id: row.4,
        address: None,
    }
}

/// `k` is the first of `ids` that equals `id`.
pub open spec fn first_match(ids: Seq<i32>, id: i32, k: int) -> bool {
    &&& 0 <= k < ids.len()
    &&& ids[k] == id
    &&& forall|j: int| 0 <= j < k ==> ids[j] != id
}

/// The identifiers of address rows.
pub open spec fn address_row_ids(rows: Seq<AddressRow>) -> Seq<i32> {
    rows.map_values(|r: AddressRow| r.0)
}

/// The identifiers of person rows.
pub open spec fn person_row_ids(rows: Seq<PersonRow>) -> Seq<i32> {
    rows.map_values(|r: PersonRow| r.0)
}

/// An identifier that the engine reports is one the store can hand out:
/// non-negative, and within the range of a record's identifier.
pub open spec fn valid_rowid(rowid: i64) -> bool {
    0 <= rowid <= i32::MAX
}

fn clone_opt_text(s: &Option<String>) -> (r: Option<String>)
    ensures
        opt_text(r) == opt_text(*s),
{
    match s {
        Some(t) => Some(t.clone()),
        None => None,
    }
}

/// The address that `row` holds.
pub fn address_from_row(row: &AddressRow) -> (a: Address)
    ensures
        a@ == address_of_row(*row),
{
    Address {
        id: row.0,
        street: row.1.clone(),
        zip: row.2.clone(),
        city: row.3.clone(),
        phone: clone_opt_text(&row.4),
    }
}

/// The person that `row` holds, without its address.
pub fn person_from_row(row: &PersonRow) -> (p: Person)
    ensures
        p@ == person_of_row(*row),
{
    Person {
        id: row.0,
        first_name: row.1.clone(),
        last_name: row.2.clone(),
        mobile: clone_opt_text(&row.3),
        address_id: row.4,
        address: None,
    }
}

/// The addresses that `rows` hold, in the same order.
pub fn addresses_from_rows(rows: &Vec<AddressRow>) -> (r: Vec<Address>)
    ensures
        r@.len() == rows@.len(),
        forall|i: int| 0 <= i < rows@.len() ==> #[trigger] r@[i]@ == address_of_row(rows@[i]),
{
    let mut r: Vec<Address> = Vec::new();
    let mut i: usize = 0;
    while i < rows.len()
        invariant
            i <= rows@.len(),
            r@.len() == i,
            forall|j: int| 0 <= j < i ==> #[trigger] r@[j]@ == address_of_row(rows@[j]),
        decreases rows@.len() - i,
    {
        r.push(address_from_row(&rows[i]));
        i += 1;
    }
    r
}

/// The address of the first row with identifier `id`; `NotFound` when no
/// row has it.
pub fn select_address(rows: &Vec<AddressRow>, id: i32) -> (r: Result<Address, Error>)
    ensures
        match r {
            Ok(a) => exists|k: int|
                first_match(address_row_ids(rows@), id, k) && a@ == address_of_row(#[trigger] rows@[k]),
            Err(e) => e is NotFound && !address_row_ids(rows@).contains(id),
        },
{
    let mut i: usize = 0;
    while i < rows.len()
        invariant
            i <= rows@.len(),
            forall|j: int| 0 <= j < i ==> #[trigger] rows@[j].0 != id,
        decreases rows@.len() - i,
    {
        if rows[i].0 == id {
            let a = address_from_row(&rows[i]);
            assert(first_match(address_row_ids(rows@), id, i as int));
            return Ok(a);
        }
        i += 1;
    }
    assert(!address_row_ids(rows@).contains(id)) by {
        if address_row_ids(rows@).contains(id) {
            let k = choose|k: int| 0 <= k < address_row_ids(rows@).len() && address_row_ids(rows@)[k] == id;
            assert(rows@[k].0 != id);
        }
    }
    Err(Error::NotFound)
}

/// The person of the first row with identifier `id`, without its address;
/// `NotFound` when no row has it.
pub fn select_person(rows: &Vec<PersonRow>, id: i32) -> (r: Result<Person, Error>)
    ensures
        match r {
            Ok(p) => exists|k: int|
                first_match(person_row_ids(rows@), id, k) && p@ == person_of_row(#[trigger] rows@[k]),
            Err(e) => e is NotFound && !person_row_ids(rows@).contains(id),
        },
{
    let mut i: usize = 0;
    while i < rows.len()
        invariant
            i <= rows@.len(),
            forall|j: int| 0 <= j < i ==> #[trigger] rows@[j].0 != id,
        decreases rows@.len() - i,
    {
        if rows[i].0 == id {
            let p = person_from_row(&rows[i]);
            assert(first_match(person_row_ids(rows@), id, i as int));
            return Ok(p);
        }
        i += 1;
    }
    assert(!person_row_ids(rows@).contains(id)) by {
        if person_row_ids(rows@).contains(id) {
            let k = choose|k: int| 0 <= k < person_row_ids(rows@).len() && person_row_ids(rows@)[k] == id;
            assert(rows@[k].0 != id);
        }
    }
    Err(Error::NotFound)
}

/// The identifier for a row that the engine reports as `rowid`; `NoId` when
/// the store cannot hand it out.
pub fn identifier_from_rowid(rowid: i64) -> (r: Result<i32, Error>)
    ensures
        valid_rowid(rowid) ==> r == Ok::<i32, Error>(rowid as i32),
        !valid_rowid(rowid) ==> r matches Err(Error::NoId),
{
    if 0 <= rowid && rowid <= i32::MAX as i64 {
        Ok(rowid as i32)
    } else {
        Err(Error::NoId)
    }
}

/// The columns of an address row, in table order, as values.
pub open spec fn address_row_values(row: AddressRow) -> Seq<SqlValueView> {
    seq![
        SqlValueView::Integer(row.0 as i64),
        SqlValueView::Text(row.1@),
        SqlValueView::Text(row.2@),
        SqlValueView::Text(row.3@),
        opt_text_value(opt_text(row.4)),
    ]
}

/// An optional identifier as a value: the identifier, or NULL.
pub open spec fn opt_id_value(id: Option<i32>) -> SqlValueView {
    match id {
        Some(i) => SqlValueView::Integer(i as i64),
        None => SqlValueView::Null,
    }
}

/// The columns of a person row, in table order, as values.
pub open spec fn person_row_values(row: PersonRow) -> Seq<SqlValueView> {
    seq![
        SqlValueView::Integer(row.0 as i64),
        SqlValueView::Text(row.1@),
        SqlValueView::Text(row.2@),
        opt_text_value(opt_text(row.3)),
        opt_id_value(row.4),
    ]
}

proof fn lemma_opt_text_value_injective(a: Option<Seq<char>>, b: Option<Seq<char>>)
    requires
        opt_text_value(a) == opt_text_value(b),
    ensures
        a == b,
{
}

/// Reading back what an insert stored: an address row that holds, under
/// identifier `id`, the values that inserting `a` binds is `a` with that
/// identifier, an absent phone included.
pub proof fn lemma_address_insert_round_trip(a: AddressView, id: i32, row: AddressRow)
    requires
        address_row_values(row) == seq![SqlValueView::Integer(id as i64)] + address_insert_values(a),
    ensures
        address_of_row(row) == a.with_id(id),
{
    let stored = seq![SqlValueView::Integer(id as i64)] + address_insert_values(a);
    assert(address_row_values(row)[0] == stored[0]);
    assert(address_row_values(row)[1] == stored[1]);
    assert(address_row_values(row)[2] == stored[2]);
    assert(address_row_values(row)[3] == stored[3]);
    assert(address_row_values(row)[4] == stored[4]);
    lemma_opt_text_value_injective(opt_text(row.4), a.phone);
}

/// Reading back what an update stored: the row that the update picks by
/// `a`'s identifier, holding the four columns that it binds, is `a`; an
/// absent phone leaves the column NULL.
pub proof fn lemma_address_update_round_trip(a: AddressView, row: AddressRow)
    requires
        address_row_values(row) == seq![address_update_values(a)[4]] + address_update_values(
            a,
        ).take(4),
    ensures
        address_of_row(row) == a,
        a.phone is None ==> row.4 is None,
{
    let stored = seq![address_update_values(a)[4]] + address_update_values(a).take(4);
    assert(address_row_values(row)[0] == stored[0]);
    assert(address_row_values(row)[1] == stored[1]);
    assert(address_row_values(row)[2] == stored[2]);
    assert(address_row_values(row)[3] == stored[3]);
    assert(address_row_values(row)[4] == stored[4]);
    lemma_opt_text_value_injective(opt_text(row.4), a.phone);
}

/// Reading back what a person insert stored: a person row that holds,
/// under identifier `id`, the values that inserting `p` binds refers to
/// `p`'s embedded address by that address's identifier, and to no address
/// when `p` has none; names and mobile read back as `p`'s.
pub proof fn lemma_person_insert_round_trip(p: PersonView, id: i32, row: PersonRow)
    requires
        person_row_values(row) == seq![SqlValueView::Integer(id as i64)] + person_insert_values(p),
    ensures
        person_of_row(row).id == id,
        person_of_row(row).first_name == p.first_name,
        person_of_row(row).last_name == p.last_name,
        person_of_row(row).mobile == p.mobile,
        match p.address {
            Some(a) => row.4 == Some(a.id),
            None => row.4 is None,
        },
{
    let stored = seq![SqlValueView::Integer(id as i64)] + person_insert_values(p);
    assert(person_row_values(row)[0] == stored[0]);
    assert(person_row_values(row)[1] == stored[1]);
    assert(person_row_values(row)[2] == stored[2]);
    assert(person_row_values(row)[3] == stored[3]);
    assert(person_row_values(row)[4] == stored[4]);
    lemma_opt_text_value_injective(opt_text(row.3), p.mobile);
}

} // verus!
