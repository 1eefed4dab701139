//! The domain side of the catalogue: a book as the business logic sees it.

use vstd::prelude::*;

verus! {

/// A catalogue item in the form the business logic works with.
///
/// It is a passive record: every field is required, none is validated, and
/// nothing in it refers back to the stored record it was made from.
pub struct BookEntity {
    /// Short label of the item; it does not identify it.
    pub tag: String,
    /// Display title.
    pub title: String,
    /// Display subtitle; may be empty.
    pub subtitle: String,
    /// Authors in credit order.
    pub authors: Vec<String>,
    /// Units available.
    pub amount_in_stock: i32,
    /// Time of creation, carried as text and never parsed.
    pub created_at: String,
    /// Time of the last change, carried as text and never parsed.
    pub updated_at: String,
    /// Number of pages.
    pub num_pages: i32,
    /// Classification labels, in the order given; repeats are kept.
    pub tags: Vec<String>,
}

/// The mathematical value of a [`BookEntity`]: texts as sequences of
/// characters, lists as sequences of texts, counts as integers.
#[verifier::ext_equal]
pub struct BookEntityView {
    pub tag: Seq<char>,
    pub title: Seq<char>,
    pub subtitle: Seq<char>,
    pub authors: Seq<Seq<char>>,
    pub amount_in_stock: int,
    pub created_at: Seq<char>,
    pub updated_at: Seq<char>,
    pub num_pages: int,
    pub tags: Seq<Seq<char>>,
}

impl View for BookEntity {
    type V = BookEntityView;

    open spec fn view(&self) -> BookEntityView {
        BookEntityView {
            tag: self.tag@,
            title: self.title@,
            subtitle: self.subtitle@,
            authors: self.authors.deep_view(),
            amount_in_stock: self.amount_in_stock as int,
            created_at: self.created_at@,
            updated_at: self.updated_at@,
            num_pages: self.num_pages as int,
            tags: self.tags.deep_view(),
        }
    }
}

} // verus!
