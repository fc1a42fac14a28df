//! Custom attributes: writing a batch of them in one statement, and
//! gathering them from the rows of the account query.
//!
//! A batch is cut to the number of rows that one statement can bind; what
//! lies beyond is dropped without an error. Callers that must not lose rows
//! compare the length of what comes back with what they handed in.

use vstd::prelude::*;
use crate::ids::{fresh_ids, ID_LENGTH};
use crate::records::{
    attribute_views, AddCustomAttribute, AppUser, AttributeView, ErrorResponse, ErrorView,
    GetCustomAttribute, GetUser, Reply, ReplyView, StoreFailure, StoredAttributeView,
    SuccessResponse, UserView,
};

verus! {

/// The number of values that one statement can bind.
pub const BIND_LIMIT: usize = 65535;

/// The number of values that one attribute row binds.
pub const BINDS_PER_ROW: usize = 4;

/// The number of attribute rows that one statement can hold.
pub const MAX_BATCH: usize = BIND_LIMIT / BINDS_PER_ROW;

/// The number of rows of a batch that are written.
pub open spec fn batch_len(given: nat, max_batch: usize) -> nat {
    if given <= max_batch {
        given
    } else {
        max_batch as nat
    }
}

/// A stored row carries the key, the value and the owner that were handed
/// in, under a generated id.
pub open spec fn stores(row: StoredAttributeView, given: StoredAttributeView) -> bool {
    &&& row.key == given.key
    &&& row.value == given.value
    &&& row.user_id == given.user_id
    &&& row.id.len() == ID_LENGTH
}

/// The row that is stored for an attribute under the id that was drawn for
/// it: the key, the value and the owner as they were handed in, and of the
/// id that came with them nothing.
pub open spec fn row_under(given: StoredAttributeView, id: Seq<char>) -> StoredAttributeView {
    StoredAttributeView { id, key: given.key, value: given.value, user_id: given.user_id }
}

/// The rows are the first of the batch, as many as there are ids, in their
/// order, the row at each place under the id at that place.
pub open spec fn carries_ids(
    rows: Seq<AddCustomAttribute>,
    body: Seq<AddCustomAttribute>,
    ids: Seq<String>,
) -> bool {
    &&& rows.len() == ids.len()
    &&& forall|i: int| 0 <= i < rows.len() ==> #[trigger] rows[i]@ == row_under(body[i]@, ids[i]@)
}

/// No two of the ids are the same.
pub open spec fn pairwise_distinct(ids: Seq<String>) -> bool {
    forall|i: int, j: int| 0 <= i < j < ids.len() ==> (#[trigger] ids[i])@ != (#[trigger] ids[j])@
}

/// The rows of a batch differ in their ids wherever the ids that were drawn
/// for them differ: with ids of which no two are the same, no two rows
/// share an id, whatever the batch holds.
pub proof fn lemma_distinct_ids_make_distinct_rows(
    rows: Seq<AddCustomAttribute>,
    body: Seq<AddCustomAttribute>,
    ids: Seq<String>,
)
    requires
        carries_ids(rows, body, ids),
        pairwise_distinct(ids),
    ensures
        forall|i: int, j: int|
            0 <= i < j < rows.len() ==> (#[trigger] rows[i])@.id != (#[trigger] rows[j])@.id,
{
    assert forall|i: int, j: int| 0 <= i < j < rows.len() implies (#[trigger] rows[i])@.id != (
    #[trigger] rows[j])@.id by {
        assert(rows[i]@ == row_under(body[i]@, ids[i]@));
        assert(rows[j]@ == row_under(body[j]@, ids[j]@));
        assert(ids[i]@ != ids[j]@);
    }
}

/// The rows are the first of the batch, as many as the limit allows, in
/// their order, each under a generated id in place of the one it came with.
pub open spec fn is_batch_of(
    rows: Seq<AddCustomAttribute>,
    body: Seq<AddCustomAttribute>,
    max_batch: usize,
) -> bool {
    &&& rows.len() == batch_len(body.len(), max_batch)
    &&& forall|i: int| 0 <= i < rows.len() ==> stores(#[trigger] rows[i]@, body[i]@)
}

/// What the client is told of a store's answer to a batch write: the fixed
/// words of success, or status 400 in fixed words. The store's own message
/// stays with the caller, for the log.
pub open spec fn write_outcome(stored: Result<u64, StoreFailure>) -> Result<Seq<char>, ErrorView> {
    match stored {
        Ok(_) => Ok("custom attributes added"@),
        Err(_) => Err(ErrorView { message: "custom attributes not added"@, status: 400 }),
    }
}

/// What a batch write returns, seen as plain values.
pub open spec fn write_view(r: Result<SuccessResponse, ErrorResponse>) -> Result<
    Seq<char>,
    ErrorView,
> {
    match r {
        Ok(done) => Ok(done@),
        Err(e) => Err(e@),
    }
}

impl AddCustomAttribute {
    /// The row that is stored for an attribute as it was handed in: the
    /// same key, value and owner under the id `id`.
    pub fn stored_as(&self, id: String) -> (row: AddCustomAttribute)
        ensures
            row@ == (StoredAttributeView {
                id: id@,
                key: self.key@,
                value: self.value@,
                user_id: self.user_id@,
            }),
    {
        AddCustomAttribute {
            id,
            key: self.key.clone(),
            value: self.value.clone(),
            user_id: self.user_id.clone(),
        }
    }

    /// Puts the rows of one insert statement together from a batch and the
    /// ids that were drawn for it, one for each row that is written: see
    /// [`carries_ids`]. No row keeps the id it came with.
    pub fn batch_with_ids(body: &Vec<AddCustomAttribute>, ids: Vec<String>, max_batch: usize) -> (rows:
        Vec<AddCustomAttribute>)
        requires
            ids@.len() == batch_len(body@.len(), max_batch),
        ensures
            carries_ids(rows@, body@, ids@),
    {
        let mut rows: Vec<AddCustomAttribute> = Vec::new();
        let mut i: usize = 0;
        while i < ids.len()
            invariant
                i <= ids@.len() <= body@.len(),
                rows@.len() == i,
                forall|j: int| 0 <= j < i ==> #[trigger] rows@[j]@ == row_under(body@[j]@, ids@[j]@),
            decreases ids@.len() - i,
        {
            rows.push(body[i].stored_as(ids[i].clone()));
            i += 1;
        }
        rows
    }

    /// Makes the rows of one insert statement out of a batch, with room for
    /// `max_batch` rows: see [`is_batch_of`]. An id is drawn for each row
    /// that is written, and the rows are those of [`Self::batch_with_ids`]
    /// for the ids that were drawn.
    pub fn prepare_batch(body: Vec<AddCustomAttribute>, max_batch: usize) -> (rows: Vec<
        AddCustomAttribute,
    >)
        ensures
            is_batch_of(rows@, body@, max_batch),
    {
        let count = if body.len() <= max_batch {
            body.len()
        } else {
            max_batch
        };
        let ids = fresh_ids(count);
        let ghost drawn = ids@;
        let rows = AddCustomAttribute::batch_with_ids(&body, ids, max_batch);
        assert forall|i: int| 0 <= i < rows@.len() implies stores(#[trigger] rows@[i]@, body@[i]@) by {
            assert(rows@[i]@ == row_under(body@[i]@, drawn[i]@));
        }
        rows
    }

    /// Makes the rows of one insert statement out of a batch, as many as a
    /// statement can bind.
    pub fn add_custom_attributes(body: Vec<AddCustomAttribute>) -> (rows: Vec<AddCustomAttribute>)
        ensures
            is_batch_of(rows@, body@, MAX_BATCH),
            rows@.len() * BINDS_PER_ROW <= BIND_LIMIT,
    {
        AddCustomAttribute::prepare_batch(body, MAX_BATCH)
    }

    /// Reads the store's answer to the insert statement, which is the number
    /// of rows written or a failure: see [`write_outcome`]. The statement is
    /// one, so a failure means that no row was written.
    pub fn written(stored: &Result<u64, StoreFailure>) -> (r: Result<SuccessResponse, ErrorResponse>)
        ensures
            write_view(r) == write_outcome(*stored),
    {
        match stored {
            Ok(_) => Ok(SuccessResponse { message: "custom attributes added".to_owned() }),
            Err(_) => Err(
                ErrorResponse { message: "custom attributes not added".to_owned(), status: 400 },
            ),
        }
    }
}

/// The attribute that a row of the account query carries, if it carries one
/// in full.
pub open spec fn attribute_of(row: AppUser) -> Option<AttributeView> {
    if row.attr_id is Some && row.attr_key is Some && row.attr_value is Some {
        Some(
            AttributeView {
                id: row.attr_id->0@,
                key: row.attr_key->0@,
                value: row.attr_value->0@,
            },
        )
    } else {
        None
    }
}

/// The attributes that the rows carry, in the rows' order.
pub open spec fn attributes_of(rows: Seq<AppUser>) -> Seq<AttributeView>
    decreases rows.len(),
{
    if rows.len() == 0 {
        Seq::empty()
    } else {
        let before = attributes_of(rows.drop_last());
        match attribute_of(rows.last()) {
            Some(attribute) => before.push(attribute),
            None => before,
        }
    }
}

/// Gathers the attributes that the rows of the account query carry: see
/// [`attributes_of`].
pub fn collect_attributes(rows: &Vec<AppUser>) -> (attributes: Vec<GetCustomAttribute>)
    ensures
        attribute_views(attributes@) == attributes_of(rows@),
{
    let mut attributes: Vec<GetCustomAttribute> = Vec::new();
    let mut i: usize = 0;
    while i < rows.len()
        invariant
            i <= rows@.len(),
            attribute_views(attributes@) == attributes_of(rows@.take(i as int)),
        decreases rows@.len() - i,
    {
        let row = &rows[i];
        let ghost before = attributes@;
        match (&row.attr_id, &row.attr_key, &row.attr_value) {
            (Some(id), Some(key), Some(value)) => {
                let attribute = GetCustomAttribute {
                    id: id.clone(),
                    key: key.clone(),
                    value: value.clone(),
                };
                let ghost added = attribute@;
                attributes.push(attribute);
                assert(attribute_views(attributes@) == attribute_views(before).push(added));
            },
            _ => {},
        }
        assert(rows@.take(i + 1).drop_last() == rows@.take(i as int));
        i += 1;
    }
    assert(rows@.take(rows@.len() as int) == rows@);
    attributes
}

/// The account that the rows of the account query show.
///
/// No row means that there is no such account, or that it is switched off:
/// status 404. Otherwise the account is read from the first row, and its
/// attributes from all of them.
pub open spec fn account_of(rows: Seq<AppUser>) -> Result<UserView, ReplyView> {
    if rows.len() == 0 {
        Err(
            ReplyView {
                code: 404,
                status: "error"@,
                message: Some("No user found or is not active"@),
            },
        )
    } else {
        Ok(
            UserView {
                id: rows[0].id@,
                name: rows[0].name@,
                username: rows[0].username@,
                attributes: attributes_of(rows),
            },
        )
    }
}

/// What the account query comes to, seen as plain values.
pub open spec fn account_view(r: Result<GetUser, Reply>) -> Result<UserView, ReplyView> {
    match r {
        Ok(user) => Ok(user@),
        Err(e) => Err(e@),
    }
}

/// Puts an account together from the rows of the account query, which hold
/// the account once for each of its attributes: see [`account_of`].
pub fn get_active_user_by_id(rows: &Vec<AppUser>) -> (r: Result<GetUser, Reply>)
    ensures
        account_view(r) == account_of(rows@),
{
    if rows.len() == 0 {
        return Err(
            Reply {
                code: 404,
                status: "error".to_owned(),
                message: Some("No user found or is not active".to_owned()),
            },
        );
    }
    let attributes = collect_attributes(rows);
    Ok(
        GetUser {
            id: rows[0].id.clone(),
            username: rows[0].username.clone(),
            name: rows[0].name.clone(),
            attributes,
        },
    )
}

} // verus!
