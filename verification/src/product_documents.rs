//! The storage side of the catalogue: a product as the store keeps it, and
//! its projection onto the domain entity.

use crate::book_entity::{BookEntity, BookEntityView};
use vstd::prelude::*;

verus! {

/// A catalogue record in the shape of the store.
///
/// It holds every field of a [`BookEntity`] under the same name, and two more
/// that only the store needs: `id` and `product_category`. The field names
/// are what the store reads and writes.
pub struct ProductDocument {
    /// Identifier of the record in the store.
    pub id: String,
    /// Which kind of product the record describes.
    pub product_category: String,
    pub tag: String,
    pub title: String,
    pub subtitle: String,
    pub authors: Vec<String>,
    pub amount_in_stock: i32,
    pub created_at: String,
    pub updated_at: String,
    pub num_pages: i32,
    pub tags: Vec<String>,
}

/// The mathematical value of a [`ProductDocument`].
#[verifier::ext_equal]
pub struct ProductDocumentView {
    pub id: Seq<char>,
    pub product_category: Seq<char>,
    pub tag: Seq<char>,
    pub title: Seq<char>,
    pub subtitle: Seq<char>,
    pub authors: Seq<Seq<char>>,
    pub amount_in_stock: int,
    pub created_at: Seq<char>,
    pub updated_at: Seq<char>,
    pub num_pages: int,
    pub tags: Seq<Seq<char>>,
}

impl View for ProductDocument {
    type V = ProductDocumentView;

    open spec fn view(&self) -> ProductDocumentView {
        ProductDocumentView {
            id: self.id@,
            product_category: self.product_category@,
            tag: self.tag@,
            title: self.title@,
            subtitle: self.subtitle@,
            authors: self.authors.deep_view(),
            amount_in_stock: self.amount_in_stock as int,
            created_at: self.created_at@,
            updated_at: self.updated_at@,
            num_pages: self.num_pages as int,
            tags: self.tags.deep_view(),
        }
    }
}

impl ProductDocumentView {
    /// The entity that a document stands for: its nine shared fields, each
    /// as it is. `id` and `product_category` do not occur in it.
    pub open spec fn projection(self) -> BookEntityView {
        BookEntityView {
            tag: self.tag,
            title: self.title,
            subtitle: self.subtitle,
            authors: self.authors,
            amount_in_stock: self.amount_in_stock,
            created_at: self.created_at,
            updated_at: self.updated_at,
            num_pages: self.num_pages,
            tags: self.tags,
        }
    }

    /// Two documents hold the same catalogue data: they agree on every field
    /// that an entity has. Their storage fields may differ.
    pub open spec fn same_shared_fields(self, other: ProductDocumentView) -> bool {
        &&& self.tag == other.tag
        &&& self.title == other.title
        &&& self.subtitle == other.subtitle
        &&& self.authors == other.authors
        &&& self.amount_in_stock == other.amount_in_stock
        &&& self.created_at == other.created_at
        &&& self.updated_at == other.updated_at
        &&& self.num_pages == other.num_pages
        &&& self.tags == other.tags
    }
}

impl ProductDocument {
    /// Turns the stored record into the domain entity, consuming it.
    ///
    /// The conversion is total. The entity holds the document's shared
    /// fields unchanged; the two storage fields are dropped. `authors` and
    /// `tags` keep their length and, position by position, their texts.
    pub fn to_entity(self) -> (entity: BookEntity)
        ensures
            entity@ == self@.projection(),
            entity.authors@.len() == self.authors@.len(),
            forall|i: int|
                0 <= i < self.authors@.len() ==> (#[trigger] entity.authors@[i])@
                    == self.authors@[i]@,
            entity.tags@.len() == self.tags@.len(),
            forall|i: int|
                0 <= i < self.tags@.len() ==> (#[trigger] entity.tags@[i])@ == self.tags@[i]@,
    {
        BookEntity {
            tag: self.tag,
            title: self.title,
            subtitle: self.subtitle,
            authors: self.authors,
            amount_in_stock: self.amount_in_stock,
            created_at: self.created_at,
            updated_at: self.updated_at,
            num_pages: self.num_pages,
            tags: self.tags,
        }
    }
}

/// Field preservation: an entity made from a document holds each of the nine
/// shared fields with the document's value, texts character for character
/// and counts as the same number.
pub proof fn lemma_entity_keeps_shared_fields(document: ProductDocument, entity: BookEntity)
    requires
        entity@ == document@.projection(),
    ensures
        entity.tag@ == document.tag@,
        entity.title@ == document.title@,
        entity.subtitle@ == document.subtitle@,
        entity.authors.deep_view() == document.authors.deep_view(),
        entity.amount_in_stock == document.amount_in_stock,
        entity.created_at@ == document.created_at@,
        entity.updated_at@ == document.updated_at@,
        entity.num_pages == document.num_pages,
        entity.tags.deep_view() == document.tags.deep_view(),
{
}

/// Sequences are not disturbed: `authors` and `tags` of the entity have as
/// many elements as the document's, and each position holds the same text as
/// before.
pub proof fn lemma_entity_keeps_sequence_order(document: ProductDocument, entity: BookEntity)
    requires
        entity@ == document@.projection(),
    ensures
        entity.authors@.len() == document.authors@.len(),
        forall|i: int|
            0 <= i < document.authors@.len() ==> (#[trigger] entity.authors@[i])@
                == document.authors@[i]@,
        entity.tags@.len() == document.tags@.len(),
        forall|i: int|
            0 <= i < document.tags@.len() ==> (#[trigger] entity.tags@[i])@ == document.tags@[i]@,
{
    assert(entity.authors.deep_view() == document.authors.deep_view());
    assert(entity.tags.deep_view() == document.tags.deep_view());
    assert forall|i: int| 0 <= i < document.authors@.len() implies (#[trigger] entity.authors@[i])@
        == document.authors@[i]@ by {
        assert(entity.authors.deep_view()[i] == document.authors.deep_view()[i]);
    }
    assert forall|i: int| 0 <= i < document.tags@.len() implies (#[trigger] entity.tags@[i])@
        == document.tags@[i]@ by {
        assert(entity.tags.deep_view()[i] == document.tags.deep_view()[i]);
    }
}

/// Field exclusion: `id` and `product_category` leave no trace in the
/// entity. Two documents that hold the same catalogue data give equal
/// entities, whatever their storage fields are.
pub proof fn lemma_storage_fields_do_not_show(
    first: ProductDocument,
    second: ProductDocument,
    first_entity: BookEntity,
    second_entity: BookEntity,
)
    requires
        first@.same_shared_fields(second@),
        first_entity@ == first@.projection(),
        second_entity@ == second@.projection(),
    ensures
        first_entity@ == second_entity@,
{
}

/// Nothing but the storage fields is lost: documents whose entities are
/// equal hold the same catalogue data.
pub proof fn lemma_equal_entities_mean_same_shared_fields(
    first: ProductDocument,
    second: ProductDocument,
    first_entity: BookEntity,
    second_entity: BookEntity,
)
    requires
        first_entity@ == first@.projection(),
        second_entity@ == second@.projection(),
        first_entity@ == second_entity@,
    ensures
        first@.same_shared_fields(second@),
{
}

/// Determinism: two conversions of the same document value give entities
/// that are equal field by field.
pub proof fn lemma_conversion_is_deterministic(
    first: ProductDocument,
    second: ProductDocument,
    first_entity: BookEntity,
    second_entity: BookEntity,
)
    requires
        first@ == second@,
        first_entity@ == first@.projection(),
        second_entity@ == second@.projection(),
    ensures
        first_entity@ == second_entity@,
        first_entity.tag@ == second_entity.tag@,
        first_entity.title@ == second_entity.title@,
        first_entity.subtitle@ == second_entity.subtitle@,
        first_entity.authors.deep_view() == second_entity.authors.deep_view(),
        first_entity.amount_in_stock == second_entity.amount_in_stock,
        first_entity.created_at@ == second_entity.created_at@,
        first_entity.updated_at@ == second_entity.updated_at@,
        first_entity.num_pages == second_entity.num_pages,
        first_entity.tags.deep_view() == second_entity.tags.deep_view(),
{
}

} // verus!
