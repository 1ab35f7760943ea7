//! Definitions of card types and work flows, as seen by the card core.
use vstd::prelude::*;

use crate::params::{clone_strings, strs_view};

verus! {

pub open spec fn opt_text(o: Option<String>) -> Option<Seq<char>> {
    match o {
        Some(s) => Some(s@),
        None => None,
    }
}

pub open spec fn opt_texts(o: Option<Vec<String>>) -> Option<Seq<Seq<char>>> {
    match o {
        Some(v) => Some(strs_view(v@)),
        None => None,
    }
}

fn clone_opt_strings(o: &Option<Vec<String>>) -> (r: Option<Vec<String>>)
    ensures
        opt_texts(r) == opt_texts(*o),
{
    match o {
        Some(v) => Some(clone_strings(v)),
        None => None,
    }
}

/// What every schema item offers: identity, owner and secondary indexes.
pub trait Schema {
    spec fn spec_id(&self) -> Seq<char>;

    spec fn spec_name(&self) -> Seq<char>;

    spec fn spec_org_id(&self) -> Seq<char>;

    spec fn spec_secondary_indexes(&self) -> Option<Seq<Seq<char>>>;

    spec fn spec_description(&self) -> Option<Seq<char>>;

    fn id(&self) -> (r: &str)
        ensures
            r@ == self.spec_id(),
    ;

    fn name(&self) -> (r: &str)
        ensures
            r@ == self.spec_name(),
    ;

    fn org_id(&self) -> (r: &str)
        ensures
            r@ == self.spec_org_id(),
    ;

    /// The schema's secondary indexes.
    fn secondary_indexes(&self) -> (r: Option<Vec<String>>)
        ensures
            opt_texts(r) == self.spec_secondary_indexes(),
    ;

    fn description(&self) -> (r: &Option<String>)
        ensures
            opt_text(*r) == self.spec_description(),
    ;
}

/// A permission set of a card type.
#[derive(Debug)]
pub struct Permission {}

/// The face of a card: how a card of a type is laid out.
#[derive(Debug)]
pub struct CardFace {}

/// A type whose properties and links other card types inherit.
#[derive(Debug)]
pub struct CommonTraitType {
    id: String,
    name: String,
    org_id: String,
    description: Option<String>,
}

#[derive(Debug)]
pub struct MemberType {
    id: String,
    name: String,
    org_id: String,
    description: Option<String>,
    trait_ids: Option<Vec<String>>,
    permission: Option<Permission>,
}

#[derive(Debug)]
pub struct TeamType {
    id: String,
    name: String,
    org_id: String,
    description: Option<String>,
    trait_ids: Option<Vec<String>>,
    permission: Option<Permission>,
}

#[derive(Debug)]
pub struct WorkItemType {
    id: String,
    name: String,
    org_id: String,
    description: Option<String>,
    trait_ids: Option<Vec<String>>,
    permission: Option<Permission>,
    card_faces: Vec<CardFace>,
}

impl CommonTraitType {
    pub fn new(id: String, name: String, org_id: String, description: Option<String>) -> (r: Self)
        ensures
            CardType::CommonTraitType(r).spec_id() == id@,
            CardType::CommonTraitType(r).spec_name() == name@,
            CardType::CommonTraitType(r).spec_org_id() == org_id@,
            CardType::CommonTraitType(r).spec_description() == opt_text(description),
            CardType::CommonTraitType(r).spec_secondary_indexes() is None,
    {
        Self { id, name, org_id, description }
    }
}

impl MemberType {
    pub fn new(
        id: String,
        name: String,
        org_id: String,
        description: Option<String>,
        trait_ids: Option<Vec<String>>,
        permission: Option<Permission>,
    ) -> (r: Self)
        ensures
            CardType::MemberType(r).spec_id() == id@,
            CardType::MemberType(r).spec_name() == name@,
            CardType::MemberType(r).spec_org_id() == org_id@,
            CardType::MemberType(r).spec_description() == opt_text(description),
            CardType::MemberType(r).spec_secondary_indexes() == opt_texts(trait_ids),
    {
        Self { id, name, org_id, description, trait_ids, permission }
    }
}

impl TeamType {
    pub fn new(
        id: String,
        name: String,
        org_id: String,
        description: Option<String>,
        trait_ids: Option<Vec<String>>,
        permission: Option<Permission>,
    ) -> (r: Self)
        ensures
            CardType::TeamType(r).spec_id() == id@,
            CardType::TeamType(r).spec_name() == name@,
            CardType::TeamType(r).spec_org_id() == org_id@,
            CardType::TeamType(r).spec_description() == opt_text(description),
            CardType::TeamType(r).spec_secondary_indexes() == opt_texts(trait_ids),
    {
        Self { id, name, org_id, description, trait_ids, permission }
    }
}

impl WorkItemType {
    pub fn new(
        id: String,
        name: String,
        org_id: String,
        description: Option<String>,
        trait_ids: Option<Vec<String>>,
        permission: Option<Permission>,
        card_faces: Vec<CardFace>,
    ) -> (r: Self)
        ensures
            CardType::WorkItemType(r).spec_id() == id@,
            CardType::WorkItemType(r).spec_name() == name@,
            CardType::WorkItemType(r).spec_org_id() == org_id@,
            CardType::WorkItemType(r).spec_description() == opt_text(description),
            CardType::WorkItemType(r).spec_secondary_indexes() == opt_texts(trait_ids),
    {
        Self { id, name, org_id, description, trait_ids, permission, card_faces }
    }
}

/// The definition of a card type.
#[derive(Debug)]
pub enum CardType {
    MemberType(MemberType),
    TeamType(TeamType),
    WorkItemType(WorkItemType),
    CommonTraitType(CommonTraitType),
}

impl Schema for CardType {
    closed spec fn spec_id(&self) -> Seq<char> {
        match self {
            CardType::MemberType(it) => it.id@,
            CardType::TeamType(it) => it.id@,
            CardType::WorkItemType(it) => it.id@,
            CardType::CommonTraitType(it) => it.id@,
        }
    }

    closed spec fn spec_name(&self) -> Seq<char> {
        match self {
            CardType::MemberType(it) => it.name@,
            CardType::TeamType(it) => it.name@,
            CardType::WorkItemType(it) => it.name@,
            CardType::CommonTraitType(it) => it.name@,
        }
    }

    closed spec fn spec_org_id(&self) -> Seq<char> {
        match self {
            CardType::MemberType(it) => it.org_id@,
            CardType::TeamType(it) => it.org_id@,
            CardType::WorkItemType(it) => it.org_id@,
            CardType::CommonTraitType(it) => it.org_id@,
        }
    }

    /// The common trait types a card type inherits from; a common trait type has none.
    closed spec fn spec_secondary_indexes(&self) -> Option<Seq<Seq<char>>> {
        match self {
            CardType::MemberType(it) => opt_texts(it.trait_ids),
            CardType::TeamType(it) => opt_texts(it.trait_ids),
            CardType::WorkItemType(it) => opt_texts(it.trait_ids),
            CardType::CommonTraitType(_) => None,
        }
    }

    closed spec fn spec_description(&self) -> Option<Seq<char>> {
        match self {
            CardType::MemberType(it) => opt_text(it.description),
            CardType::TeamType(it) => opt_text(it.description),
            CardType::WorkItemType(it) => opt_text(it.description),
            CardType::CommonTraitType(it) => opt_text(it.description),
        }
    }

    fn id(&self) -> (r: &str) {
        match self {
            CardType::MemberType(it) => it.id.as_str(),
            CardType::TeamType(it) => it.id.as_str(),
            CardType::WorkItemType(it) => it.id.as_str(),
            CardType::CommonTraitType(it) => it.id.as_str(),
        }
    }

    fn name(&self) -> (r: &str) {
        match self {
            CardType::MemberType(it) => it.name.as_str(),
            CardType::TeamType(it) => it.name.as_str(),
            CardType::WorkItemType(it) => it.name.as_str(),
            CardType::CommonTraitType(it) => it.name.as_str(),
        }
    }

    fn org_id(&self) -> (r: &str) {
        match self {
            CardType::MemberType(it) => it.org_id.as_str(),
            CardType::TeamType(it) => it.org_id.as_str(),
            CardType::WorkItemType(it) => it.org_id.as_str(),
            CardType::CommonTraitType(it) => it.org_id.as_str(),
        }
    }

    fn secondary_indexes(&self) -> (r: Option<Vec<String>>) {
        match self {
            CardType::MemberType(it) => clone_opt_strings(&it.trait_ids),
            CardType::TeamType(it) => clone_opt_strings(&it.trait_ids),
            CardType::WorkItemType(it) => clone_opt_strings(&it.trait_ids),
            CardType::CommonTraitType(_) => None,
        }
    }

    fn description(&self) -> (r: &Option<String>) {
        match self {
            CardType::MemberType(it) => &it.description,
            CardType::TeamType(it) => &it.description,
            CardType::WorkItemType(it) => &it.description,
            CardType::CommonTraitType(it) => &it.description,
        }
    }
}

/// A work flow of a work item type.
#[derive(Debug)]
pub struct WorkFlow {
    id: String,
    name: String,
    card_type_id: String,
    org_id: String,
    description: Option<String>,
}

impl WorkFlow {
    pub fn new(
        id: String,
        name: String,
        card_type_id: String,
        org_id: String,
        description: Option<String>,
    ) -> (r: Self)
        ensures
            r.spec_id() == id@,
            r.spec_name() == name@,
            r.spec_org_id() == org_id@,
            r.spec_description() == opt_text(description),
            r.spec_secondary_indexes() == Some(seq![card_type_id@]),
    {
        Self { id, name, card_type_id, org_id, description }
    }
}

impl Schema for WorkFlow {
    closed spec fn spec_id(&self) -> Seq<char> {
        self.id@
    }

    closed spec fn spec_name(&self) -> Seq<char> {
        self.name@
    }

    closed spec fn spec_org_id(&self) -> Seq<char> {
        self.org_id@
    }

    /// The work item type the flow belongs to.
    closed spec fn spec_secondary_indexes(&self) -> Option<Seq<Seq<char>>> {
        Some(seq![self.card_type_id@])
    }

    closed spec fn spec_description(&self) -> Option<Seq<char>> {
        opt_text(self.description)
    }

    fn id(&self) -> (r: &str) {
        self.id.as_str()
    }

    fn name(&self) -> (r: &str) {
        self.name.as_str()
    }

    fn org_id(&self) -> (r: &str) {
        self.org_id.as_str()
    }

    fn secondary_indexes(&self) -> (r: Option<Vec<String>>) {
        let v = vec![self.card_type_id.clone()];
        assert(strs_view(v@) =~= seq![self.card_type_id@]);
        Some(v)
    }

    fn description(&self) -> (r: &Option<String>) {
        &self.description
    }
}

} // verus!
