pub mod todo;
