//! The `Item` entity and the transient request shape shared by create and
//! update.

use vstd::prelude::*;

verus! {

/// Abstract value of an item: the store-assigned id and the two text fields.
#[verifier::ext_equal]
pub ghost struct ItemView {
    pub id: int,
    pub name: Seq<char>,
    pub description: Seq<char>,
}

/// The sole persisted entity. `id` is store-assigned, unique and immutable
/// once created; `name` and `description` are required text with no further
/// constraints.
pub struct Item {
    pub id: i32,
    pub name: String,
    pub description: String,
}

impl View for Item {
    type V = ItemView;

    open spec fn view(&self) -> ItemView {
        ItemView { id: self.id as int, name: self.name@, description: self.description@ }
    }
}

impl Clone for Item {
    fn clone(&self) -> (r: Self)
        ensures
            r@ == self@,
    {
        Item { id: self.id, name: self.name.clone(), description: self.description.clone() }
    }
}

/// Abstract value of a create/update request: the two text fields.
#[verifier::ext_equal]
pub ghost struct RequestView {
    pub name: Seq<char>,
    pub description: Seq<char>,
}

/// The transient input shape for create and update: both fields required,
/// no id (the store assigns ids; update takes its id from the path).
pub struct CreateItemRequest {
    pub name: String,
    pub description: String,
}

impl View for CreateItemRequest {
    type V = RequestView;

    open spec fn view(&self) -> RequestView {
        RequestView { name: self.name@, description: self.description@ }
    }
}

impl Clone for CreateItemRequest {
    fn clone(&self) -> (r: Self)
        ensures
            r@ == self@,
    {
        CreateItemRequest { name: self.name.clone(), description: self.description.clone() }
    }
}

} // verus!
