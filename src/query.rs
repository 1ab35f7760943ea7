//! The condition model: a tree of predicates over cards, and what a query is run with.
use vstd::prelude::*;

use crate::card::{str_eq, Card, CardState, FlowStatus};
use crate::ids::FieldId;
use crate::types::{LinkDescriptor, Path};

verus! {

/// A query condition: the conjunction of its items and of its bulks.
#[derive(Debug)]
pub struct Condition {
    items: Vec<ConditionItem>,
    logic_condition_bulks: Vec<LogicConditionBulk>,
}

/// A single predicate over a card.
#[derive(Debug)]
pub enum ConditionItem {
    /// The card's type is one of the given types.
    CardType(CardTypeOperator),
    /// The card is in the given lifecycle state.
    State(CardState),
    /// The card stands in the given stage of the given flow.
    Status(FlowStatus),
    /// The card's code is the given code.
    Code(String),
    /// The card's name contains the given text.
    Title(String),
    Text(FieldId, TextOperator),
    Number(FieldId, NumberOperator),
    Enum(FieldId, EnumOperator),
    Date(FieldId, DateOperator),
    /// A predicate on the cards linked to the card under a descriptor.
    Link(LinkDescriptor, LinkOperator),
}

#[derive(Debug)]
pub enum CardTypeOperator {
    AnyIn(Vec<String>),
}

#[derive(Debug)]
pub enum TextOperator {
    StartsWith(String),
    Contains(String),
    NotContains(String),
    Equals(PropertyValue<String>),
    NotEquals(PropertyValue<String>),
    /// `true`: the field is absent; `false`: it is present.
    IsNull(bool),
}

/// The operand of a comparison: a literal, or the value of a field of the card
/// reached by following a path from a reference point.
#[derive(Debug)]
pub enum PropertyValue<T> {
    ReferValue(ReferPoint, Path, String),
    StaticValue(T),
}

/// Where a referenced value's path starts.
#[derive(Debug)]
pub enum ReferPoint {
    /// The member the query runs for.
    CurrentMember,
    /// The card being looked at; a query context carries none.
    CurrentCard,
    /// The card whose id is bound to the named query parameter.
    Parameter(String),
}

#[derive(Debug)]
pub enum NumberOperator {
    LessThan(PropertyValue<i64>),
    GreaterThan(PropertyValue<i64>),
    LessThanOrEqualTo(PropertyValue<i64>),
    GreaterThanOrEqualTo(PropertyValue<i64>),
    Between(PropertyValue<i64>, PropertyValue<i64>),
    NotBetween(PropertyValue<i64>, PropertyValue<i64>),
    Equals(PropertyValue<i64>),
    NotEquals(PropertyValue<i64>),
    IsNull(bool),
}

/// Operators on an enumerated field, whose value is a list of tokens.
#[derive(Debug)]
pub enum EnumOperator {
    /// Some token of the field is in the list.
    AnyIn(PropertyValue<Vec<String>>),
    /// Every token of the field is in the list.
    AllIn(PropertyValue<Vec<String>>),
    /// Some token of the field is not in the list.
    AnyNotIn(PropertyValue<Vec<String>>),
    /// No token of the field is in the list.
    AllNotIn(PropertyValue<Vec<String>>),
    IsNull(bool),
}

/// Operators on a date field, in milliseconds since the epoch.
#[derive(Debug)]
pub enum DateOperator {
    After(PropertyValue<u64>),
    Before(PropertyValue<u64>),
    Equals(PropertyValue<u64>),
    NotEquals(PropertyValue<u64>),
    Between(PropertyValue<u64>, PropertyValue<u64>),
    NotBetween(PropertyValue<u64>, PropertyValue<u64>),
    IsNull(bool),
}

/// Operators on the ids of the cards linked under a descriptor.
#[derive(Debug)]
pub enum LinkOperator {
    AnyIn(LinkValue),
    AllIn(LinkValue),
    AnyNotIn(LinkValue),
    AllNotIn(LinkValue),
    /// `true`: no card is linked; `false`: some card is.
    IsNull(bool),
}

/// A set of card ids: given literally, or the cards reached from a reference point.
#[derive(Debug)]
pub enum LinkValue {
    ReferValue(ReferPoint, Vec<LinkDescriptor>),
    StaticValue(Vec<String>),
}

/// The conjunction of its groups.
#[derive(Debug)]
pub struct LogicConditionBulk {
    groups: Vec<LogicConditionGroup>,
}

/// The disjunction of its items.
#[derive(Debug)]
pub struct LogicConditionGroup {
    items: Vec<ConditionItem>,
}

impl Condition {
    pub closed spec fn spec_items(&self) -> Seq<ConditionItem> {
        self.items@
    }

    pub closed spec fn spec_bulks(&self) -> Seq<LogicConditionBulk> {
        self.logic_condition_bulks@
    }

    pub fn new(items: Vec<ConditionItem>, logic_condition_bulks: Vec<LogicConditionBulk>) -> (r:
        Self)
        ensures
            r.spec_items() == items@,
            r.spec_bulks() == logic_condition_bulks@,
    {
        Self { items, logic_condition_bulks }
    }

    /// Adds an item to the conjunction.
    pub fn and(&mut self, item: ConditionItem) -> (r: &mut Self)
        ensures
            r.spec_items() == old(self).spec_items().push(item),
            r.spec_bulks() == old(self).spec_bulks(),
            *final(self) == *final(r),
    {
        self.items.push(item);
        self
    }

    /// Adds a bulk to the conjunction.
    pub fn and_logic(&mut self, logic_condition_bulk: LogicConditionBulk) -> (r: &mut Self)
        ensures
            r.spec_items() == old(self).spec_items(),
            r.spec_bulks() == old(self).spec_bulks().push(logic_condition_bulk),
            *final(self) == *final(r),
    {
        self.logic_condition_bulks.push(logic_condition_bulk);
        self
    }

    pub fn items(&self) -> (r: &Vec<ConditionItem>)
        ensures
            r@ == self.spec_items(),
    {
        &self.items
    }

    pub fn logic_condition_bulks(&self) -> (r: &Vec<LogicConditionBulk>)
        ensures
            r@ == self.spec_bulks(),
    {
        &self.logic_condition_bulks
    }

    /// The items and the bulks, taken out of the condition.
    pub fn into_parts(self) -> (r: (Vec<ConditionItem>, Vec<LogicConditionBulk>))
        ensures
            r.0@ == self.spec_items(),
            r.1@ == self.spec_bulks(),
    {
        (self.items, self.logic_condition_bulks)
    }
}

impl Default for Condition {
    fn default() -> (r: Self)
        ensures
            r.spec_items().len() == 0,
            r.spec_bulks().len() == 0,
    {
        Self { items: Vec::new(), logic_condition_bulks: Vec::new() }
    }
}

impl LogicConditionBulk {
    pub closed spec fn spec_groups(&self) -> Seq<LogicConditionGroup> {
        self.groups@
    }

    pub fn new(groups: Vec<LogicConditionGroup>) -> (r: Self)
        ensures
            r.spec_groups() == groups@,
    {
        Self { groups }
    }

    pub fn groups(&self) -> (r: &Vec<LogicConditionGroup>)
        ensures
            r@ == self.spec_groups(),
    {
        &self.groups
    }

    pub fn into_groups(self) -> (r: Vec<LogicConditionGroup>)
        ensures
            r@ == self.spec_groups(),
    {
        self.groups
    }
}

impl Default for LogicConditionBulk {
    fn default() -> (r: Self)
        ensures
            r.spec_groups().len() == 0,
    {
        Self { groups: Vec::new() }
    }
}

impl LogicConditionGroup {
    pub closed spec fn spec_items(&self) -> Seq<ConditionItem> {
        self.items@
    }

    pub fn new(items: Vec<ConditionItem>) -> (r: Self)
        ensures
            r.spec_items() == items@,
    {
        Self { items }
    }

    /// Adds an item to the disjunction.
    pub fn or(&mut self, item: ConditionItem) -> (r: &mut Self)
        ensures
            r.spec_items() == old(self).spec_items().push(item),
            *final(self) == *final(r),
    {
        self.items.push(item);
        self
    }

    pub fn items(&self) -> (r: &Vec<ConditionItem>)
        ensures
            r@ == self.spec_items(),
    {
        &self.items
    }

    pub fn into_items(self) -> (r: Vec<ConditionItem>)
        ensures
            r@ == self.spec_items(),
    {
        self.items
    }
}

impl Default for LogicConditionGroup {
    fn default() -> (r: Self)
        ensures
            r.spec_items().len() == 0,
    {
        Self { items: Vec::new() }
    }
}

/// A row of a query's answer that did not decode into a card, and why.
#[derive(Debug)]
pub struct RowFailure {
    pub row: u32,
    pub message: String,
}

/// Cards of one page, how many cards match in all, and the rows of the page that did
/// not decode into a card.
#[derive(Debug)]
pub struct QueryResult {
    cards: Vec<Card>,
    total: u32,
    failed_rows: Vec<RowFailure>,
}

impl QueryResult {
    pub closed spec fn spec_cards(&self) -> Seq<Card> {
        self.cards@
    }

    pub closed spec fn spec_total(&self) -> u32 {
        self.total
    }

    pub closed spec fn spec_failed_rows(&self) -> Seq<RowFailure> {
        self.failed_rows@
    }

    /// A page whose every row decoded.
    pub fn new(cards: Vec<Card>, total: u32) -> (r: Self)
        ensures
            r.spec_cards() == cards@,
            r.spec_total() == total,
            r.spec_failed_rows().len() == 0,
    {
        Self { cards, total, failed_rows: Vec::new() }
    }

    pub fn with_failures(cards: Vec<Card>, total: u32, failed_rows: Vec<RowFailure>) -> (r: Self)
        ensures
            r.spec_cards() == cards@,
            r.spec_total() == total,
            r.spec_failed_rows() == failed_rows@,
    {
        Self { cards, total, failed_rows }
    }

    pub fn cards(&self) -> (r: &Vec<Card>)
        ensures
            r@ == self.spec_cards(),
    {
        &self.cards
    }

    pub fn total(&self) -> (r: u32)
        ensures
            r == self.spec_total(),
    {
        self.total
    }

    pub fn failed_rows(&self) -> (r: &Vec<RowFailure>)
        ensures
            r@ == self.spec_failed_rows(),
    {
        &self.failed_rows
    }
}

/// Which cards of the matching ones a query returns.
#[derive(Debug)]
pub enum Page {
    /// Skip the first `.0` cards and return at most `.1`.
    Limit(u32, u8),
    /// As `Limit`, after ordering the cards.
    LimitAfterSort(Sort, u32, u8),
    /// Every matching card.
    Unbounded,
}

/// An order on cards, by one of their fields.
#[derive(Debug)]
pub enum Sort {
    Asc(FieldId),
    Desc(FieldId),
}

/// Which properties of the cards a query returns; every property, for now.
#[derive(Debug)]
pub struct Yields {}

impl Default for Yields {
    fn default() -> (r: Self) {
        Yields {  }
    }
}

/// The tenant, the member and the named parameters a query runs with.
#[derive(Debug)]
pub struct QueryContext {
    tenant_id: String,
    member_id: String,
    parameters: Vec<(String, String)>,
}

/// The value bound to `name`: that of its first binding.
pub open spec fn lookup(parameters: Seq<(String, String)>, name: Seq<char>) -> Option<Seq<char>>
    decreases parameters.len(),
{
    if parameters.len() == 0 {
        None
    } else if parameters[0].0@ == name {
        Some(parameters[0].1@)
    } else {
        lookup(parameters.drop_first(), name)
    }
}

impl QueryContext {
    pub closed spec fn spec_tenant_id(&self) -> Seq<char> {
        self.tenant_id@
    }

    pub closed spec fn spec_member_id(&self) -> Seq<char> {
        self.member_id@
    }

    /// The value of the named parameter, if it is bound.
    pub closed spec fn spec_parameter(&self, name: Seq<char>) -> Option<Seq<char>> {
        lookup(self.parameters@, name)
    }

    /// A context; where a name is bound twice, its first binding counts.
    pub fn new(tenant_id: String, member_id: String, parameters: Vec<(String, String)>) -> (r:
        Self)
        ensures
            r.spec_tenant_id() == tenant_id@,
            r.spec_member_id() == member_id@,
            forall|name: Seq<char>| #[trigger]
                r.spec_parameter(name) == lookup(parameters@, name),
    {
        Self { tenant_id, member_id, parameters }
    }

    pub fn tenant_id(&self) -> (r: &str)
        ensures
            r@ == self.spec_tenant_id(),
    {
        self.tenant_id.as_str()
    }

    pub fn member_id(&self) -> (r: &str)
        ensures
            r@ == self.spec_member_id(),
    {
        self.member_id.as_str()
    }

    /// The value of the named parameter, if it is bound.
    pub fn parameter(&self, name: &str) -> (r: Option<&str>)
        ensures
            r matches Some(v) ==> self.spec_parameter(name@) == Some(v@),
            r is None ==> self.spec_parameter(name@) is None,
    {
        let n = self.parameters.len();
        let mut i: usize = 0;
        assert(self.parameters@.subrange(0, n as int) =~= self.parameters@);
        while i < n
            invariant
                n == self.parameters@.len(),
                i <= n,
                lookup(self.parameters@, name@) == lookup(
                    self.parameters@.subrange(i as int, n as int),
                    name@,
                ),
            decreases n - i,
        {
            let entry = &self.parameters[i];
            assert(self.parameters@.subrange(i as int, n as int).drop_first() =~= self.parameters@.subrange(
                i + 1,
                n as int,
            ));
            if str_eq(entry.0.as_str(), name) {
                return Some(entry.1.as_str());
            }
            i = i + 1;
        }
        None
    }
}

/// What stopped a query.
#[derive(Debug, Clone, Copy, PartialEq, Eq, Structural)]
pub enum QueryErrorKind {
    /// A referenced value names a parameter that the context does not bind.
    UnknownParameter,
    /// A referenced value starts from a point that the context does not provide.
    BrokenReferPoint,
    /// The store failed to run the query, or returned rows of an unexpected shape.
    Execution,
}

/// A query failure, with a message for people.
#[derive(Debug)]
pub struct QueryError {
    kind: QueryErrorKind,
    message: String,
}

impl QueryError {
    pub closed spec fn spec_kind(&self) -> QueryErrorKind {
        self.kind
    }

    pub closed spec fn spec_message(&self) -> Seq<char> {
        self.message@
    }

    /// A failure of the store while running a query.
    pub fn new(message: &str) -> (r: Self)
        ensures
            r.spec_kind() == QueryErrorKind::Execution,
            r.spec_message() == message@,
    {
        Self { kind: QueryErrorKind::Execution, message: message.to_owned() }
    }

    pub fn with_kind(kind: QueryErrorKind, message: &str) -> (r: Self)
        ensures
            r.spec_kind() == kind,
            r.spec_message() == message@,
    {
        Self { kind, message: message.to_owned() }
    }

    pub fn kind(&self) -> (r: QueryErrorKind)
        ensures
            r == self.spec_kind(),
    {
        self.kind
    }

    pub fn message(&self) -> (r: &str)
        ensures
            r@ == self.spec_message(),
    {
        self.message.as_str()
    }
}

} // verus!
