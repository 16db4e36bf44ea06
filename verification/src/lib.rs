//! A minimal to-do domain: an immutable entity with a 128-bit identifier,
//! an abstract repository capability for listing and creating entities, and
//! a query/mutation schema layer that translates repository failures into
//! field-level errors.

pub mod entity;
pub mod schema;

pub use entity::todo::{DescribeError, MessageError, Repository, ToDo};
pub use schema::{create_schema, FieldError, FieldResult, MutationRoot, QueryRoot, Schema};
