//! Data model of the inventory catalogue and the boundary between its two
//! representations.
//!
//! A [`product_documents::ProductDocument`] is a catalogue record in the shape
//! the store keeps it; a [`book_entity::BookEntity`] is the same record as the
//! business logic sees it. The only way from one to the other is
//! [`product_documents::ProductDocument::to_entity`], a total projection that
//! keeps every shared field as it is and leaves the two storage fields behind.

pub mod book_entity;
pub mod product_documents;
