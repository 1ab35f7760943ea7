//! Definitions of the views that show cards.
use vstd::prelude::*;

verus! {

/// A column of a list view.
#[derive(Debug, PartialEq)]
pub struct Column {}

#[derive(Debug, PartialEq)]
pub struct ListViewDefinition {
    pub columns: Vec<Column>,
}

#[derive(Debug, PartialEq)]
pub enum ViewType {
    ListView(ListViewDefinition),
    BoardView,
}

/// A named view of a tenant.
#[derive(Debug)]
pub struct ViewDefinition {
    pub id: u32,
    pub name: String,
    pub description: String,
    pub tenant_id: u32,
    pub view_type: ViewType,
}

impl ViewDefinition {
    pub fn new(id: u32, name: String, description: String, tenant_id: u32, view_type: ViewType) -> (r:
        Self)
        ensures
            r.id == id,
            r.name == name,
            r.description == description,
            r.tenant_id == tenant_id,
            r.view_type == view_type,
    {
        Self { id, name, description, tenant_id, view_type }
    }
}

} // verus!
