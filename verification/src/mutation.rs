//! Changes to the durable store: what to write for a new redirection, for
//! a new long URL and for a removal, decided from what the store answered.

use crate::code::{generate_random_string, is_short_code, code_allowed, SHORT_URL_LENGTH};
use crate::errors::RusError;
use crate::model::{
    answers_code, answers_id, holds_code, holds_id, row_view, Model, ModelView,
};
use crate::time::{in_range, time_of, Lifetime, Timestamp, CLOCK_LIMIT_SECS};
use vstd::prelude::*;

verus! {

/// The owner of the decisions on writes.
pub struct Mutation;

/// A redirection that is about to be created: all of it but the
/// identifier, which the store assigns.
#[derive(Debug)]
pub struct CreateMutation {
    long_url: String,
    short_url: String,
    ip_address: String,
    creation_date: Timestamp,
    expiration_date: Timestamp,
}

/// What a creation says.
pub struct CreateMutationView {
    pub long_url: Seq<char>,
    pub short_url: Seq<char>,
    pub ip_address: Seq<char>,
    pub creation_date: int,
    pub expiration_date: int,
}

/// The new long URL for the redirection with identifier `id`.
#[derive(Debug)]
pub struct UpdateMutation {
    id: i32,
    long_url: String,
}

/// The row that the store is to insert; it assigns the identifier.
#[derive(Debug, PartialEq, Eq)]
pub struct NewRedirection {
    pub long_url: String,
    pub short_url: String,
    pub ip_address: String,
    pub creation_date: Timestamp,
    pub expiration_date: Option<Timestamp>,
    pub last_access_date: Timestamp,
}

/// What a row to insert says.
pub struct NewRedirectionView {
    pub long_url: Seq<char>,
    pub short_url: Seq<char>,
    pub ip_address: Seq<char>,
    pub creation_date: int,
    pub expiration_date: Option<int>,
    pub last_access_date: int,
}

/// The next move of a creation.
#[derive(Debug)]
pub enum CreateStep {
    /// The code is free: the store is to insert this row.
    Insert(NewRedirection),
    /// The code is taken: the caller asks the store about the code of
    /// this creation, which is a new one.
    Retry(CreateMutation),
}

impl View for NewRedirection {
    type V = NewRedirectionView;

    open spec fn view(&self) -> NewRedirectionView {
        NewRedirectionView {
            long_url: self.long_url@,
            short_url: self.short_url@,
            ip_address: self.ip_address@,
            creation_date: self.creation_date@,
            expiration_date: time_of(self.expiration_date),
            last_access_date: self.last_access_date@,
        }
    }
}

impl View for CreateMutation {
    type V = CreateMutationView;

    closed spec fn view(&self) -> CreateMutationView {
        CreateMutationView {
            long_url: self.long_url@,
            short_url: self.short_url@,
            ip_address: self.ip_address@,
            creation_date: self.creation_date@,
            expiration_date: self.expiration_date@,
        }
    }
}

impl CreateMutationView {
    /// The row that creates this redirection: created and last accessed at
    /// the creation's time, expiring at its expiration.
    pub open spec fn insertion(self) -> NewRedirectionView {
        NewRedirectionView {
            long_url: self.long_url,
            short_url: self.short_url,
            ip_address: self.ip_address,
            creation_date: self.creation_date,
            expiration_date: Some(self.expiration_date),
            last_access_date: self.creation_date,
        }
    }
}

impl NewRedirectionView {
    /// The row as the store holds it under the identifier `id`.
    pub open spec fn with_id(self, id: int) -> ModelView {
        ModelView {
            id,
            long_url: self.long_url,
            short_url: self.short_url,
            creation_date: self.creation_date,
            expiration_date: self.expiration_date,
            last_access_date: self.last_access_date,
            ip_address: self.ip_address,
        }
    }
}

impl CreateStep {
    /// The row that this move has the store insert, if it is an insertion.
    pub open spec fn inserted(self) -> Option<NewRedirectionView> {
        match self {
            CreateStep::Insert(row) => Some(row@),
            CreateStep::Retry(_) => None,
        }
    }
}

impl NewRedirection {
    /// The row as the store holds it under the identifier `id`.
    pub fn with_id(self, id: i32) -> (row: Model)
        ensures
            row@ == self@.with_id(id as int),
    {
        Model {
            id,
            long_url: self.long_url,
            short_url: self.short_url,
            creation_date: self.creation_date,
            expiration_date: self.expiration_date,
            last_access_date: self.last_access_date,
            ip_address: self.ip_address,
        }
    }
}

impl UpdateMutation {
    /// The identifier of the redirection to change.
    pub closed spec fn spec_id(self) -> int {
        self.id as int
    }

    /// The long URL that it is to get.
    pub closed spec fn spec_long_url(self) -> Seq<char> {
        self.long_url@
    }

    /// The change of the redirection `id` to the long URL `long_url`.
    pub fn new(id: i32, long_url: String) -> (update: UpdateMutation)
        ensures
            update.spec_id() == id,
            update.spec_long_url() == long_url@,
    {
        UpdateMutation { id, long_url }
    }

    /// The identifier of the redirection to change.
    pub fn id(&self) -> (id: i32)
        ensures
            id == self.spec_id(),
    {
        self.id
    }
}

impl CreateMutation {
    /// The short code has the length and the alphabet of short codes.
    #[verifier::type_invariant]
    pub closed spec fn wf(self) -> bool {
        &&& is_short_code(self.short_url@, SHORT_URL_LENGTH as nat)
        &&& self.creation_date.wf()
        &&& self.expiration_date.wf()
    }

    /// What validity says of the view.
    pub proof fn lemma_wf(self)
        requires
            self.wf(),
        ensures
            is_short_code(self@.short_url, SHORT_URL_LENGTH as nat),
    {
    }

    /// The creation made at time `now` under the code `short_url`, to
    /// expire `link_lifetime` later. There is none where `short_url` is
    /// no short code of the configured length, or where the expiration
    /// lies beyond what a timestamp holds.
    pub fn from_parts(
        long_url: String,
        ip_address: String,
        link_lifetime: Lifetime,
        now: Timestamp,
        short_url: String,
    ) -> (r: Option<CreateMutation>)
        ensures
            r is Some <==> is_short_code(short_url@, SHORT_URL_LENGTH as nat) && in_range(
                now@ + link_lifetime@ * 1_000_000_000,
            ),
            r is Some ==> r->0.wf() && r->0@ == (CreateMutationView {
                long_url: long_url@,
                short_url: short_url@,
                ip_address: ip_address@,
                creation_date: now@,
                expiration_date: now@ + link_lifetime@ * 1_000_000_000,
            }),
    {
        proof {
            use_type_invariant(now);
        }
        if !code_allowed(short_url.as_str(), SHORT_URL_LENGTH) {
            return None;
        }
        match now.checked_plus(link_lifetime) {
            Some(expiration_date) => Some(
                CreateMutation {
                    long_url,
                    short_url,
                    ip_address,
                    creation_date: now,
                    expiration_date,
                },
            ),
            None => None,
        }
    }

    /// A creation made now, under a fresh random code, to expire
    /// `link_lifetime` from now.
    pub fn new(long_url: String, ip_address: String, link_lifetime: Lifetime) -> (r: CreateMutation)
        ensures
            r.wf(),
            r@.long_url == long_url@,
            r@.ip_address == ip_address@,
            is_short_code(r@.short_url, SHORT_URL_LENGTH as nat),
            0 <= r@.creation_date < CLOCK_LIMIT_SECS * 1_000_000_000,
            r@.expiration_date == r@.creation_date + link_lifetime@ * 1_000_000_000,
    {
        let now = Timestamp::now();
        let short_url = generate_random_string(SHORT_URL_LENGTH);
        proof {
            use_type_invariant(link_lifetime);
            link_lifetime.lemma_bounds();
        }
        match CreateMutation::from_parts(long_url, ip_address, link_lifetime, now, short_url) {
            Some(create) => create,
            None => vstd::pervasive::unreached(),
        }
    }

    /// The short code under which the redirection is to be created.
    pub fn short_url(&self) -> (code: &String)
        ensures
            code@ == self@.short_url,
            is_short_code(code@, SHORT_URL_LENGTH as nat),
    {
        proof {
            use_type_invariant(self);
        }
        &self.short_url
    }

    /// The same creation under the code `code`, if that is a short code
    /// of the configured length.
    pub fn with_short_url(self, code: String) -> (r: Option<CreateMutation>)
        ensures
            r is Some <==> is_short_code(code@, SHORT_URL_LENGTH as nat),
            r is Some ==> r->0.wf() && r->0@ == (CreateMutationView { short_url: code@, ..self@ }),
    {
        proof {
            use_type_invariant(&self);
        }
        if code_allowed(code.as_str(), SHORT_URL_LENGTH) {
            Some(
                CreateMutation {
                    long_url: self.long_url,
                    short_url: code,
                    ip_address: self.ip_address,
                    creation_date: self.creation_date,
                    expiration_date: self.expiration_date,
                },
            )
        } else {
            None
        }
    }

    /// Replaces the short code by a fresh random one.
    pub fn regenerate_short_url(&mut self)
        ensures
            final(self).wf(),
            is_short_code(final(self)@.short_url, SHORT_URL_LENGTH as nat),
            final(self)@ == (CreateMutationView { short_url: final(self)@.short_url, ..old(self)@ }),
    {
        proof {
            use_type_invariant(&*self);
        }
        self.short_url = generate_random_string(SHORT_URL_LENGTH);
    }

    /// The row that creates the redirection.
    pub fn into_insertion(self) -> (row: NewRedirection)
        ensures
            row@ == self@.insertion(),
    {
        proof {
            use_type_invariant(&self);
        }
        NewRedirection {
            long_url: self.long_url,
            short_url: self.short_url,
            ip_address: self.ip_address,
            creation_date: self.creation_date,
            expiration_date: Some(self.expiration_date),
            last_access_date: self.creation_date,
        }
    }
}

impl Mutation {
    /// The row that a creation has the store insert, given the store's
    /// answer for the creation's code: the creation's row where the code
    /// is free, and none where it is taken.
    pub open spec fn insertion_for(
        create: CreateMutationView,
        existing: Option<ModelView>,
    ) -> Option<NewRedirectionView> {
        match existing {
            None => Some(create.insertion()),
            Some(_) => None,
        }
    }

    /// The row that a change of long URL has the store write, given the
    /// store's answer for the change's identifier.
    pub open spec fn update_for(long_url: Seq<char>, found: Option<ModelView>) -> Result<
        ModelView,
        RusError,
    > {
        match found {
            None => Err(RusError::NotFound),
            Some(row) => Ok(ModelView { long_url, ..row }),
        }
    }

    /// The identifier that a removal has the store delete, given the
    /// store's answer for the row to be removed.
    pub open spec fn removal_for(found: Option<ModelView>) -> Result<int, RusError> {
        match found {
            None => Err(RusError::NotFound),
            Some(row) => Ok(row.id),
        }
    }

    /// The next move of a creation, given what the store answered when
    /// asked for a row under the creation's code. Where it found none the
    /// row is to be inserted as it stands. Where it found one the code is
    /// taken, and the creation comes back under a fresh random code, all
    /// else unchanged, for the caller to ask again: no number of tries is
    /// promised to be enough.
    pub fn create_redirection(create: CreateMutation, existing: Option<Model>) -> (step: CreateStep)
        ensures
            step.inserted() == Mutation::insertion_for(create@, row_view(existing)),
            existing is Some ==> step is Retry && step->Retry_0.wf() && is_short_code(
                step->Retry_0@.short_url,
                SHORT_URL_LENGTH as nat,
            ) && step->Retry_0@ == (CreateMutationView {
                short_url: step->Retry_0@.short_url,
                ..create@
            }),
    {
        match existing {
            None => CreateStep::Insert(create.into_insertion()),
            Some(_) => {
                let mut create = create;
                create.regenerate_short_url();
                CreateStep::Retry(create)
            },
        }
    }

    /// The row to write for a change of long URL, given what the store
    /// answered when asked for the row with the change's identifier.
    /// Where it found none, the change fails with `NotFound` and there is
    /// nothing to write. Where it found one, that row is to be written
    /// with the new long URL and all else as it was.
    pub fn update_redirection_by_id(update: UpdateMutation, found: Option<Model>) -> (r: Result<
        Model,
        RusError,
    >)
        ensures
            match Mutation::update_for(update.spec_long_url(), row_view(found)) {
                Ok(row) => r is Ok && r->Ok_0@ == row,
                Err(error) => r == Err::<Model, RusError>(error),
            },
    {
        match found {
            None => Err(RusError::NotFound),
            Some(row) => Ok(
                Model {
                    id: row.id,
                    long_url: update.long_url,
                    short_url: row.short_url,
                    creation_date: row.creation_date,
                    expiration_date: row.expiration_date,
                    last_access_date: row.last_access_date,
                    ip_address: row.ip_address,
                },
            ),
        }
    }

    /// The identifier of the row to remove, given what the store answered
    /// when asked for the row to be removed. Where it found none, the
    /// removal fails with `NotFound` and nothing is to be removed.
    pub fn delete_redirection(found: Option<Model>) -> (r: Result<i32, RusError>)
        ensures
            match Mutation::removal_for(row_view(found)) {
                Ok(id) => r == Ok::<i32, RusError>(found->0.id) && id == found->0.id,
                Err(error) => r == Err::<i32, RusError>(error),
            },
    {
        match found {
            None => Err(RusError::NotFound),
            Some(row) => Ok(row.id),
        }
    }
}

/// Whatever the table holds: where the store answers truly for the code
/// of a creation, a row is inserted exactly if no row of the table carries
/// that code, and the inserted row carries it: a code of the configured
/// length and alphabet that was not in the table when the store was asked.
pub proof fn lemma_inserted_code_is_free(
    rows: Seq<ModelView>,
    create: CreateMutation,
    existing: Option<ModelView>,
)
    requires
        create.wf(),
        answers_code(rows, create@.short_url, existing),
    ensures
        Mutation::insertion_for(create@, existing) is Some <==> !holds_code(
            rows,
            create@.short_url,
        ),
        Mutation::insertion_for(create@, existing) is Some ==> {
            let row = Mutation::insertion_for(create@, existing)->0;
            &&& !holds_code(rows, row.short_url)
            &&& is_short_code(row.short_url, SHORT_URL_LENGTH as nat)
            &&& row.short_url.len() == SHORT_URL_LENGTH
        },
{
    create.lemma_wf();
    if existing is Some {
        let row = existing->0;
        let i = choose|i: int| 0 <= i < rows.len() && rows[i] == row;
        assert(rows[i].short_url == create@.short_url);
    }
}

/// Whatever the table holds: where no row carries the identifier of a
/// change and the store answers truly, the change fails with `NotFound`,
/// and so hands back no row to write.
pub proof fn lemma_update_of_unknown_id_writes_nothing(
    rows: Seq<ModelView>,
    id: int,
    long_url: Seq<char>,
    found: Option<ModelView>,
)
    requires
        !holds_id(rows, id),
        answers_id(rows, id, found),
    ensures
        Mutation::update_for(long_url, found) == Err::<ModelView, RusError>(RusError::NotFound),
{
    if found is Some {
        let row = found->0;
        let i = choose|i: int| 0 <= i < rows.len() && rows[i] == row;
        assert(rows[i].id == id);
    }
}

} // verus!
