//! A generic singly linked list with structural equality and deep copies,
//! beside a few small generic and higher-order functions.

pub mod boxes;
pub mod closures;
pub mod generics;
pub mod list;
pub mod traits;
