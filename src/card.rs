//! The card entity: identity, attributes, lifecycle state, custom fields and links.
use vstd::prelude::*;

use crate::ids::{is_generated_id, CardId, FieldId, Timestamp};
use crate::text::{is_blank, is_blank_text};
use crate::types::LinkDescriptor;

verus! {

/// A custom field of a card.
#[derive(Debug)]
pub struct Field {
    pub id: FieldId,
    pub value: FieldValue,
}

impl Field {
    pub fn new(id: FieldId, value: FieldValue) -> (r: Self)
        ensures
            r.id == id,
            r.value == value,
    {
        Self { id, value }
    }
}

/// The typed value of a custom field.
#[derive(Debug)]
pub enum FieldValue {
    Int(i32),
    /// A single-precision float, held as its IEEE 754 bit pattern (`f32::to_bits`).
    Float(u32),
    Text(String),
    /// An enumerated choice: the tokens that are selected.
    Enum(Vec<String>),
    /// A calendar day.
    Date(Timestamp),
    /// A moment, to the millisecond.
    DateTime(Timestamp),
}

impl FieldValue {
    /// A custom field stored as an integer, read back without its card type's schema: a
    /// value in the range of `i32` is an integer field, any other a moment in milliseconds.
    /// Date and date-time fields are told apart only by the schema.
    pub fn from_stored_integer(v: i64) -> (r: FieldValue)
        ensures
            i32::MIN <= v <= i32::MAX ==> r == FieldValue::Int(v as i32),
            !(i32::MIN <= v <= i32::MAX) ==> (r matches FieldValue::DateTime(t) && t.millis() == v),
    {
        if i32::MIN as i64 <= v && v <= i32::MAX as i64 {
            FieldValue::Int(v as i32)
        } else {
            FieldValue::DateTime(Timestamp::from_millis(v))
        }
    }
}

/// The names of the properties that every card node carries besides its custom fields.
pub open spec fn is_card_property(name: Seq<char>) -> bool {
    ||| name == "id"@
    ||| name == "code"@
    ||| name == "name"@
    ||| name == "state"@
    ||| name == "card_type_id"@
    ||| name == "org_id"@
    ||| name == "create_time"@
    ||| name == "update_time"@
    ||| name == "flow_id"@
    ||| name == "flow_status_id"@
    ||| name == "state_changed_by"@
    ||| name == "state_reason"@
}

/// Whether a property of a card node is one of the card's own rather than a custom field.
pub fn card_property(name: &str) -> (r: bool)
    ensures
        r == is_card_property(name@),
{
    str_eq(name, "id") || str_eq(name, "code") || str_eq(name, "name") || str_eq(name, "state")
        || str_eq(name, "card_type_id") || str_eq(name, "org_id") || str_eq(name, "create_time")
        || str_eq(name, "update_time") || str_eq(name, "flow_id") || str_eq(
        name,
        "flow_status_id",
    ) || str_eq(name, "state_changed_by") || str_eq(name, "state_reason")
}

/// Lifecycle state of a card: exactly one holds at a time.
#[derive(Debug, Clone, Copy, PartialEq, Eq, Structural)]
pub enum CardState {
    Active,
    Archived,
    Abandoned,
}

/// The name under which a state is written.
pub open spec fn state_name(s: CardState) -> Seq<char> {
    match s {
        CardState::Active => "Active"@,
        CardState::Archived => "Archived"@,
        CardState::Abandoned => "Abandoned"@,
    }
}

impl CardState {
    pub fn to_string(&self) -> (r: String)
        ensures
            r@ == state_name(*self),
    {
        match self {
            CardState::Active => "Active".to_owned(),
            CardState::Archived => "Archived".to_owned(),
            CardState::Abandoned => "Abandoned".to_owned(),
        }
    }

    /// The state written under `name`, if any.
    pub fn from_name(name: &str) -> (r: Option<CardState>)
        ensures
            r matches Some(s) ==> state_name(s) == name@,
            r is None ==> forall|s: CardState| state_name(s) != name@,
    {
        if str_eq(name, "Active") {
            Some(CardState::Active)
        } else if str_eq(name, "Archived") {
            Some(CardState::Archived)
        } else if str_eq(name, "Abandoned") {
            Some(CardState::Abandoned)
        } else {
            None
        }
    }
}

/// A state read back under the name it was written with is the same state.
pub proof fn lemma_state_name_round_trip(s: CardState, t: CardState)
    ensures
        state_name(s) == state_name(t) ==> s == t,
{
    reveal_strlit("Active");
    reveal_strlit("Archived");
    reveal_strlit("Abandoned");
    if state_name(s) == state_name(t) && s != t {
        assert(state_name(s).len() != state_name(t).len() || state_name(s)[0] != state_name(
            t,
        )[0]);
    }
}

/// Exactly one of the three lifecycle states holds of any state value.
pub proof fn lemma_state_exclusive(s: CardState)
    ensures
        (s is Active) as int + (s is Archived) as int + (s is Abandoned) as int == 1,
{
}

/// The stage of a work flow that a work item stands in.
#[derive(Debug)]
pub struct FlowStatus {
    pub flow_id: String,
    pub flow_status_id: String,
}

impl FlowStatus {
    pub fn new(flow_id: &str, status_id: &str) -> (r: Self)
        ensures
            r.flow_id@ == flow_id@,
            r.flow_status_id@ == status_id@,
    {
        Self { flow_id: flow_id.to_owned(), flow_status_id: status_id.to_owned() }
    }
}

/// The cards related to a card under one link descriptor.
#[derive(Debug)]
pub struct CardLinks {
    pub descriptor: LinkDescriptor,
    pub cards: Vec<Card>,
}

/// What a descriptor denotes: whether the card is the source, and the relationship type.
pub open spec fn descriptor_view(d: LinkDescriptor) -> (bool, Seq<char>) {
    match d {
        LinkDescriptor::Src(r) => (true, r@),
        LinkDescriptor::Dest(r) => (false, r@),
    }
}

/// Whether the card with id `id` is related under the descriptor `d`.
pub open spec fn is_linked(links: Seq<CardLinks>, d: (bool, Seq<char>), id: Seq<char>) -> bool {
    exists|i: int, a: int|
        0 <= i < links.len() && descriptor_view(links[i].descriptor) == d && 0 <= a
            < links[i].cards@.len() && #[trigger] links[i].cards@[a].id@ == id
}

/// One group per descriptor, and a related card at most once in its group.
pub open spec fn links_wf(links: Seq<CardLinks>) -> bool {
    &&& forall|i: int, j: int|
        0 <= i < j < links.len() ==> descriptor_view(#[trigger] links[i].descriptor)
            != descriptor_view(#[trigger] links[j].descriptor)
    &&& forall|i: int, a: int, b: int|
        0 <= i < links.len() && 0 <= a < b < links[i].cards@.len() ==> (
        #[trigger] links[i].cards@[a]).id@ != (#[trigger] links[i].cards@[b]).id@
}

pub fn descriptor_eq(a: &LinkDescriptor, b: &LinkDescriptor) -> (r: bool)
    ensures
        r == (descriptor_view(*a) == descriptor_view(*b)),
{
    match (a, b) {
        (LinkDescriptor::Src(x), LinkDescriptor::Src(y)) => str_eq(x.as_str(), y.as_str()),
        (LinkDescriptor::Dest(x), LinkDescriptor::Dest(y)) => str_eq(x.as_str(), y.as_str()),
        _ => false,
    }
}

/// Why an operation on a card was refused.
#[derive(Debug, Clone, Copy, PartialEq, Eq, Structural)]
pub enum CardError {
    /// The new name is empty once whitespace is trimmed.
    BlankName,
}

/// A business entity kept as a node of the graph.
#[derive(Debug)]
pub struct Card {
    pub id: CardId,
    pub code: String,
    pub name: String,
    pub state: CardState,
    /// Present only on work items.
    pub flow_status: Option<FlowStatus>,
    pub type_id: String,
    pub tenant_id: String,
    pub create_time: Timestamp,
    pub update_time: Timestamp,
    pub fields: Vec<Field>,
    /// Related cards, grouped by link descriptor.
    pub links: Vec<CardLinks>,
}

impl Card {
    /// A new active card with a fresh identifier, created and updated now.
    pub fn new(
        code: String,
        name: String,
        type_id: &str,
        tenant_id: &str,
        flow_status: Option<FlowStatus>,
        fields: Vec<Field>,
        links: Vec<CardLinks>,
    ) -> (r: Card)
        ensures
            is_generated_id(r.id@),
            r.code == code,
            r.name == name,
            r.state == CardState::Active,
            r.flow_status == flow_status,
            r.type_id@ == type_id@,
            r.tenant_id@ == tenant_id@,
            r.create_time == r.update_time,
            r.create_time.millis() >= 0,
            r.fields == fields,
            r.links == links,
    {
        let now = Timestamp::now();
        Card {
            id: CardId::new(),
            code,
            name,
            state: CardState::Active,
            flow_status,
            type_id: type_id.to_owned(),
            tenant_id: tenant_id.to_owned(),
            create_time: now,
            update_time: now,
            fields,
            links,
        }
    }

    /// A card as it was stored: every attribute is given.
    pub fn from_stored(
        id: CardId,
        code: String,
        name: String,
        state: CardState,
        flow_status: Option<FlowStatus>,
        type_id: String,
        tenant_id: String,
        create_time: Timestamp,
        update_time: Timestamp,
        fields: Vec<Field>,
    ) -> (r: Card)
        ensures
            r.id == id,
            r.code == code,
            r.name == name,
            r.state == state,
            r.flow_status == flow_status,
            r.type_id == type_id,
            r.tenant_id == tenant_id,
            r.create_time == create_time,
            r.update_time == update_time,
            r.fields == fields,
            r.links@.len() == 0,
    {
        Card {
            id,
            code,
            name,
            state,
            flow_status,
            type_id,
            tenant_id,
            create_time,
            update_time,
            fields,
            links: Vec::new(),
        }
    }

    /// Gives the card a new name and records the time of the change; a name that is
    /// blank once trimmed is refused and the card is left as it was.
    pub fn rename(&mut self, new_name: &str) -> (r: Result<(), CardError>)
        ensures
            r is Err <==> is_blank(new_name@),
            r is Err ==> r == Err::<(), CardError>(CardError::BlankName) && *final(self)
                == *old(self),
            r is Ok ==> final(self).name@ == new_name@,
            r is Ok ==> *final(self) == (Card {
                name: final(self).name,
                update_time: final(self).update_time,
                ..*old(self)
            }),
            r is Ok ==> final(self).update_time.millis() >= 0,
    {
        if is_blank_text(new_name) {
            return Err(CardError::BlankName);
        }
        self.name = new_name.to_owned();
        self.update_time = Timestamp::now();
        Ok(())
    }

    /// Moves the card to the active state and records the time of the change.
    pub fn active(&mut self)
        ensures
            *final(self) == (Card {
                state: CardState::Active,
                update_time: final(self).update_time,
                ..*old(self)
            }),
            final(self).update_time.millis() >= 0,
    {
        self.state = CardState::Active;
        self.update_time = Timestamp::now();
    }

    /// Moves the card to the abandoned state and records the time of the change.
    pub fn abandoned(&mut self)
        ensures
            *final(self) == (Card {
                state: CardState::Abandoned,
                update_time: final(self).update_time,
                ..*old(self)
            }),
            final(self).update_time.millis() >= 0,
    {
        self.state = CardState::Abandoned;
        self.update_time = Timestamp::now();
    }

    /// Moves the card to the archived state and records the time of the change.
    pub fn archived(&mut self)
        ensures
            *final(self) == (Card {
                state: CardState::Archived,
                update_time: final(self).update_time,
                ..*old(self)
            }),
            final(self).update_time.millis() >= 0,
    {
        self.state = CardState::Archived;
        self.update_time = Timestamp::now();
    }

    pub open spec fn well_formed(&self) -> bool {
        links_wf(self.links@)
    }

    /// Relates `other` to this card under `descriptor`. A card that is already related
    /// under that descriptor is not added again, and `false` is returned.
    pub fn add_link(&mut self, descriptor: LinkDescriptor, other: Card) -> (r: bool)
        requires
            old(self).well_formed(),
        ensures
            final(self).well_formed(),
            r == !is_linked(old(self).links@, descriptor_view(descriptor), other.id@),
            forall|d: (bool, Seq<char>), id: Seq<char>|
                is_linked(final(self).links@, d, id) <==> (is_linked(old(self).links@, d, id) || (d
                    == descriptor_view(descriptor) && id == other.id@)),
            *final(self) == (Card { links: final(self).links, ..*old(self) }),
    {
        let ghost dv = descriptor_view(descriptor);
        let ghost oid = other.id@;
        let ghost old_links = self.links@;
        let n = self.links.len();
        let mut i: usize = 0;
        while i < n
            invariant
                n == self.links@.len(),
                self.links@ == old_links,
                *self == *old(self),
                old(self).well_formed(),
                dv == descriptor_view(descriptor),
                oid == other.id@,
                i <= n,
                forall|k: int|
                    0 <= k < i
                    ==> descriptor_view(#[trigger] old_links[k].descriptor) != dv,
            decreases n - i,
        {
            if descriptor_eq(&self.links[i].descriptor, &descriptor) {
                let m = self.links[i].cards.len();
                let mut a: usize = 0;
                while a < m
                    invariant
                        n == self.links@.len(),
                        self.links@ == old_links,
                        *self == *old(self),
                        old(self).well_formed(),
                        dv == descriptor_view(descriptor),
                        oid == other.id@,
                        i < n,
                        m == old_links[i as int].cards@.len(),
                        descriptor_view(old_links[i as int].descriptor) == dv,
                        a <= m,
                        forall|b: int|
                            0 <= b < a
                            ==> (#[trigger] old_links[i as int].cards@[b]).id@ != oid,
                    decreases m - a,
                {
                    let group = &self.links[i];
                    let linked = &group.cards[a];
                    assert(*linked == old_links[i as int].cards@[a as int]);
                    if linked.same_card(&other) {
                        assert(old_links[i as int].cards@[a as int].id@ == oid);
                        return false;
                    }
                    a = a + 1;
                }
                proof {
                    assert forall|k: int, b: int|
                        0 <= k < old_links.len()
                        && descriptor_view(old_links[k].descriptor) == dv
                        && 0 <= b < old_links[k].cards@.len()
                        implies #[trigger] old_links[k].cards@[b].id@ != oid by {
                        if k != i {
                            if k < i {
                                assert(descriptor_view(old_links[k].descriptor) != dv);
                            } else {
                                assert(descriptor_view(old_links[i as int].descriptor)
                                    != descriptor_view(old_links[k].descriptor));
                            }
                        }
                    }
                }
                let mut group = self.links.remove(i);
                let ghost old_cards = group.cards@;
                group.cards.push(other);
                self.links.insert(i, group);
                proof {
                    let nl = self.links@;
                    assert(nl =~= old_links.update(i as int, nl[i as int]));
                    assert(nl[i as int].cards@ == old_cards.push(other));
                    assert(nl[i as int].descriptor == old_links[i as int].descriptor);
                    assert forall|d: (bool, Seq<char>), id: Seq<char>|
                        is_linked(nl, d, id) <==> (is_linked(old_links, d, id) || (d == dv && id
                            == oid)) by {
                        if is_linked(nl, d, id) {
                            let (k, b) = choose|k: int, b: int|
                                0 <= k < nl.len()
                                && descriptor_view(nl[k].descriptor) == d
                                && 0 <= b < nl[k].cards@.len()
                                && #[trigger] nl[k].cards@[b].id@ == id;
                            if !(k == i && b == old_cards.len()) {
                                assert(old_links[k].cards@[b] == nl[k].cards@[b]);
                            }
                        }
                        if is_linked(old_links, d, id) {
                            let (k, b) = choose|k: int, b: int|
                                0 <= k < old_links.len()
                                && descriptor_view(old_links[k].descriptor) == d
                                && 0 <= b < old_links[k].cards@.len()
                                && #[trigger] old_links[k].cards@[b].id@ == id;
                            assert(nl[k].cards@[b] == old_links[k].cards@[b]);
                        }
                        if d == dv && id == oid {
                            assert(nl[i as int].cards@[old_cards.len() as int].id@ == oid);
                        }
                    }
                    assert forall|k: int, a: int, b: int|
                        0 <= k < nl.len()
                        && 0 <= a < b < nl[k].cards@.len()
                        implies (#[trigger] nl[k].cards@[a]).id@
                            != (#[trigger] nl[k].cards@[b]).id@ by {
                        if k == i && b == old_cards.len() {
                            assert(nl[k].cards@[a] == old_links[k].cards@[a]);
                        } else {
                            assert(nl[k].cards@[a] == old_links[k].cards@[a]);
                            assert(nl[k].cards@[b] == old_links[k].cards@[b]);
                        }
                    }
                    assert forall|k: int, j: int|
                        0 <= k < j < nl.len()
                        implies descriptor_view(#[trigger] nl[k].descriptor)
                            != descriptor_view(#[trigger] nl[j].descriptor) by {
                        assert(nl[k].descriptor == old_links[k].descriptor);
                        assert(nl[j].descriptor == old_links[j].descriptor);
                    }
                }
                return true;
            }
            i = i + 1;
        }
        proof {
            assert forall|k: int, b: int|
                0 <= k < old_links.len()
                && descriptor_view(old_links[k].descriptor) == dv
                && 0 <= b < old_links[k].cards@.len()
                implies #[trigger] old_links[k].cards@[b].id@ != oid by {
                assert(descriptor_view(old_links[k].descriptor) != dv);
            }
        }
        let group = CardLinks { descriptor, cards: vec![other] };
        self.links.push(group);
        proof {
            let nl = self.links@;
            let g = nl[n as int];
            assert(nl =~= old_links.push(g));
            assert forall|d: (bool, Seq<char>), id: Seq<char>|
                        is_linked(nl, d, id) <==> (is_linked(old_links, d, id) || (d == dv && id
                            == oid)) by {
                if is_linked(nl, d, id) {
                    let (k, b) = choose|k: int, b: int|
                        0 <= k < nl.len()
                        && descriptor_view(nl[k].descriptor) == d
                        && 0 <= b < nl[k].cards@.len()
                        && #[trigger] nl[k].cards@[b].id@ == id;
                    if k < n {
                        assert(old_links[k].cards@[b] == nl[k].cards@[b]);
                    }
                }
                if is_linked(old_links, d, id) {
                    let (k, b) = choose|k: int, b: int|
                        0 <= k < old_links.len()
                        && descriptor_view(old_links[k].descriptor) == d
                        && 0 <= b < old_links[k].cards@.len()
                        && #[trigger] old_links[k].cards@[b].id@ == id;
                    assert(nl[k].cards@[b] == old_links[k].cards@[b]);
                }
                if d == dv && id == oid {
                    assert(nl[n as int].cards@[0].id@ == oid);
                }
            }
            assert forall|k: int, j: int|
                0 <= k < j < nl.len()
                implies descriptor_view(#[trigger] nl[k].descriptor)
                            != descriptor_view(#[trigger] nl[j].descriptor) by {
                if j == n {
                    assert(descriptor_view(old_links[k].descriptor) != dv);
                }
            }
        }
        true
    }

    /// Cards are the same card exactly when their identifiers are equal.
    pub fn same_card(&self, other: &Card) -> (r: bool)
        ensures
            r == (self.id@ == other.id@),
    {
        let a = self.id.as_str();
        let b = other.id.as_str();
        str_eq(a, b)
    }
}

/// Whether two texts are equal, character by character.
pub fn str_eq(a: &str, b: &str) -> (r: bool)
    ensures
        r == (a@ == b@),
{
    let n = a.unicode_len();
    let m = b.unicode_len();
    if n != m {
        return false;
    }
    let mut i: usize = 0;
    while i < n
        invariant
            n == a@.len(),
            m == b@.len(),
            n == m,
            i <= n,
            a@.subrange(0, i as int) == b@.subrange(0, i as int),
        decreases n - i,
    {
        if a.get_char(i) != b.get_char(i) {
            assert(a@[i as int] != b@[i as int]);
            return false;
        }
        assert(a@.subrange(0, i + 1) =~= a@.subrange(0, i as int).push(a@[i as int]));
        assert(b@.subrange(0, i + 1) =~= b@.subrange(0, i as int).push(b@[i as int]));
        i = i + 1;
    }
    assert(a@ =~= a@.subrange(0, n as int));
    assert(b@ =~= b@.subrange(0, n as int));
    true
}

} // verus!
