//! The redirection row: the durable record that maps a short code to a
//! long URL.

use crate::time::{time_of, Timestamp};
use vstd::prelude::*;

verus! {

/// One redirection as the durable store holds it.
#[derive(Debug, PartialEq, Eq)]
pub struct Model {
    pub id: i32,
    pub long_url: String,
    pub short_url: String,
    pub creation_date: Timestamp,
    pub expiration_date: Option<Timestamp>,
    pub last_access_date: Timestamp,
    pub ip_address: String,
}

/// What a row says: text as sequences of characters, times in nanoseconds
/// since the start of 1970.
pub struct ModelView {
    pub id: int,
    pub long_url: Seq<char>,
    pub short_url: Seq<char>,
    pub creation_date: int,
    pub expiration_date: Option<int>,
    pub last_access_date: int,
    pub ip_address: Seq<char>,
}

impl ModelView {
    /// Whether the row's expiration lies before `now`. A row without one
    /// never expires.
    pub open spec fn is_expired_at(self, now: int) -> bool {
        self.expiration_date is Some && self.expiration_date->0 < now
    }
}

impl View for Model {
    type V = ModelView;

    open spec fn view(&self) -> ModelView {
        ModelView {
            id: self.id as int,
            long_url: self.long_url@,
            short_url: self.short_url@,
            creation_date: self.creation_date@,
            expiration_date: time_of(self.expiration_date),
            last_access_date: self.last_access_date@,
            ip_address: self.ip_address@,
        }
    }
}

impl Clone for Model {
    fn clone(&self) -> (r: Model)
        ensures
            r == *self,
    {
        Model {
            id: self.id,
            long_url: self.long_url.clone(),
            short_url: self.short_url.clone(),
            creation_date: self.creation_date,
            expiration_date: self.expiration_date,
            last_access_date: self.last_access_date,
            ip_address: self.ip_address.clone(),
        }
    }
}

impl Model {
    /// Whether the row's expiration lies before `now`.
    pub fn is_expired_at(&self, now: &Timestamp) -> (r: bool)
        ensures
            r == self@.is_expired_at(now@),
    {
        match &self.expiration_date {
            Some(t) => t.is_before(now),
            None => false,
        }
    }
}

/// The view of an optional row.
pub open spec fn row_view(row: Option<Model>) -> Option<ModelView> {
    match row {
        Some(row) => Some(row@),
        None => None,
    }
}

/// The views of a list of rows, in the same order.
pub open spec fn views(rows: Seq<Model>) -> Seq<ModelView> {
    rows.map_values(|m: Model| m@)
}

} // verus!

verus! {

/// Whether some row of the store's table carries the short code `code`.
pub open spec fn holds_code(rows: Seq<ModelView>, code: Seq<char>) -> bool {
    exists|i: int| 0 <= i < rows.len() && (#[trigger] rows[i]).short_url == code
}

/// Whether `found` is a true answer of the store, holding `rows`, to the
/// question which row carries the short code `code`.
pub open spec fn answers_code(rows: Seq<ModelView>, code: Seq<char>, found: Option<ModelView>) -> bool {
    match found {
        Some(row) => rows.contains(row) && row.short_url == code,
        None => !holds_code(rows, code),
    }
}

/// Whether some row of the store's table carries the identifier `id`.
pub open spec fn holds_id(rows: Seq<ModelView>, id: int) -> bool {
    exists|i: int| 0 <= i < rows.len() && (#[trigger] rows[i]).id == id
}

/// Whether `found` is a true answer of the store, holding `rows`, to the
/// question which row carries the identifier `id`.
pub open spec fn answers_id(rows: Seq<ModelView>, id: int, found: Option<ModelView>) -> bool {
    match found {
        Some(row) => rows.contains(row) && row.id == id,
        None => !holds_id(rows, id),
    }
}

} // verus!
