use vstd::prelude::*;

use core::marker::PhantomData;
use std::sync::Arc;

use crate::entity::todo::{random_id_marks, DescribeError, Repository, ToDo};

verus! {

/// A field-level API error: the only payload is a plain-text message,
/// quoted verbatim from the backend error's description.
#[derive(Debug)]
pub struct FieldError {
    message: String,
}

impl FieldError {
    /// The message carried by this error.
    pub closed spec fn message_view(&self) -> Seq<char> {
        self.message@
    }

    /// Wraps a message into a field error.
    pub fn new(message: String) -> (r: FieldError)
        ensures
            r.message_view() == message@,
    {
        FieldError { message }
    }

    /// A read-only view of the message.
    pub fn message(&self) -> (r: &String)
        ensures
            r@ == self.message_view(),
    {
        &self.message
    }
}

/// The outcome of a query or mutation field: either the value, or one
/// field error.
pub type FieldResult<T> = Result<T, FieldError>;

/// How a repository outcome reads once translated to a field result: a
/// success passes through untouched, and a failure becomes a field error
/// whose message is the backend error's description.
pub open spec fn translates<T, E: DescribeError>(r: Result<T, E>, out: FieldResult<T>) -> bool {
    match r {
        Ok(v) => out == FieldResult::<T>::Ok(v),
        Err(e) => out matches Err(fe) && fe.message_view() == e.spec_description(),
    }
}

/// Translates a repository outcome into a field result — nothing is
/// retried or recovered.
pub fn to_field_result<T, E: DescribeError>(r: Result<T, E>) -> (out: FieldResult<T>)
    ensures
        translates(r, out),
{
    match r {
        Ok(v) => Ok(v),
        Err(e) => Err(FieldError::new(e.description())),
    }
}

/// Relies on Arc::clone: the new handle refers to the same shared value.
#[verifier::external_body]
fn share<T>(handle: &Arc<T>) -> (r: Arc<T>)
    ensures
        r == *handle,
{
    Arc::clone(handle)
}

/// The query half of the schema: holds a shared, read-only handle to the
/// one repository and exposes the `todos` field.
pub struct QueryRoot<E: DescribeError, R: Repository<E>> {
    repository: Arc<R>,
    backend_error: PhantomData<E>,
}

impl<E: DescribeError, R: Repository<E>> QueryRoot<E, R> {
    /// The repository this root dispatches to.
    pub closed spec fn repository_view(&self) -> R {
        *self.repository
    }

    /// The query field `todos`: asks the repository for every known
    /// entity. The result is the translation of a genuine `list`
    /// outcome of this root's repository — a success passes the entities
    /// through untouched, and a failure surfaces as one field error
    /// carrying the backend's own description.
    pub fn todos(&self) -> (out: FieldResult<Vec<ToDo>>)
        ensures
            exists|lr: Result<Vec<ToDo>, E>|
                #[trigger] self.repository_view().list_post(lr) && translates(lr, out),
    {
        let lr = self.repository.list();
        let ghost listed = lr;
        let out = to_field_result(lr);
        proof {
            assert(self.repository_view().list_post(listed) && translates(listed, out));
        }
        out
    }
}

/// The mutation half of the schema: holds a shared, read-only handle to
/// the one repository and exposes the `register` field.
pub struct MutationRoot<E: DescribeError, R: Repository<E>> {
    repository: Arc<R>,
    backend_error: PhantomData<E>,
}

impl<E: DescribeError, R: Repository<E>> MutationRoot<E, R> {
    /// The repository this root dispatches to.
    pub closed spec fn repository_view(&self) -> R {
        *self.repository
    }

    /// The mutation field `register`: builds an entity that keeps the
    /// given text around a freshly generated random identifier, asks the
    /// repository to persist exactly that entity, and returns the
    /// translation of the genuine `create` outcome — the persisted
    /// entity, possibly normalized backend-side, or one field error
    /// carrying the backend's own description.
    pub fn register(&self, text: String) -> (out: FieldResult<ToDo>)
        ensures
            exists|sent: ToDo, cr: Result<ToDo, E>|
                sent.text_view() == text@ && random_id_marks(sent.id_bits())
                    && #[trigger] self.repository_view().create_post(sent, cr)
                    && translates(cr, out),
    {
        let todo = ToDo::new_random_id(text);
        let ghost sent = todo;
        let cr = self.repository.create(todo);
        let ghost created = cr;
        let out = to_field_result(cr);
        proof {
            assert(sent.text_view() == text@ && random_id_marks(sent.id_bits())
                && self.repository_view().create_post(sent, created)
                && translates(created, out));
        }
        out
    }
}

/// The whole API surface: one query root and one mutation root over one
/// shared repository.
pub struct Schema<E: DescribeError, R: Repository<E>> {
    pub query: QueryRoot<E, R>,
    pub mutation: MutationRoot<E, R>,
}

/// Builds the schema around one repository instance: both roots end up
/// holding handles to that same repository.
pub fn create_schema<E: DescribeError, R: Repository<E>>(repository: Arc<R>) -> (r: Schema<E, R>)
    ensures
        r.query.repository_view() == *repository,
        r.mutation.repository_view() == *repository,
{
    Schema {
        query: QueryRoot { repository: share(&repository), backend_error: PhantomData },
        mutation: MutationRoot { repository, backend_error: PhantomData },
    }
}

} // verus!
