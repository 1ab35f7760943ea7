//! The write path: the statements that create a card and its creator relationship,
//! and the decisions of the transaction that runs them.
use vstd::prelude::*;

use crate::card::{state_name, Card, CardState, Field, FieldValue, FlowStatus};
use crate::params::{
    clone_strings, params_view, strs_view, ParamEntry, ParamValue, ParamValueView, QueryParam,
};
use crate::query_text::quoted;
use crate::ids::{CardId, Timestamp};
use crate::text::{dec, push_decimal, push_quoted, push_str};

verus! {

/// One parameterized statement.
#[derive(Debug)]
pub struct Statement {
    pub text: String,
    pub params: Vec<QueryParam>,
}

/// The store of cards in a property graph.
pub struct Neo4jStore;

/// The engine behind the graph store; Memgraph is reached through its `memgraph` database.
#[derive(Debug, Clone, Copy, PartialEq, Eq, Structural)]
pub enum GraphType {
    Neo4j,
    Memgraph,
}

/// What a custom field's parameter denotes.
pub open spec fn field_value_view(v: FieldValue) -> ParamValueView {
    match v {
        FieldValue::Int(x) => ParamValueView::Int(x as int),
        FieldValue::Float(b) => ParamValueView::Float(b),
        FieldValue::Text(s) => ParamValueView::Text(s@),
        FieldValue::Enum(l) => ParamValueView::List(strs_view(l@)),
        FieldValue::Date(t) => ParamValueView::Int(t.millis() as int),
        FieldValue::DateTime(t) => ParamValueView::Int(t.millis() as int),
    }
}

/// The name of the parameter of the custom field at position `i`.
pub open spec fn field_param(i: nat) -> Seq<char> {
    "f"@ + dec(i)
}

/// `` ,`id`:$fi `` for each custom field.
pub open spec fn fields_text(fs: Seq<Field>) -> Seq<char>
    decreases fs.len(),
{
    if fs.len() == 0 {
        Seq::empty()
    } else {
        fields_text(fs.drop_last()) + ","@ + quoted(fs.last().id@) + ":$"@ + field_param(
            (fs.len() - 1) as nat,
        )
    }
}

pub open spec fn fields_params(fs: Seq<Field>) -> Seq<ParamEntry>
    decreases fs.len(),
{
    if fs.len() == 0 {
        Seq::empty()
    } else {
        fields_params(fs.drop_last()).push(
            (field_param((fs.len() - 1) as nat), field_value_view(fs.last().value)),
        )
    }
}

pub open spec fn flow_text(fs: Option<FlowStatus>) -> Seq<char> {
    match fs {
        Some(_) => ",flow_id:$flow_id,flow_status_id:$flow_status_id"@,
        None => Seq::empty(),
    }
}

pub open spec fn flow_params(fs: Option<FlowStatus>) -> Seq<ParamEntry> {
    match fs {
        Some(f) => seq![
            ("flow_id"@, ParamValueView::Text(f.flow_id@)),
            ("flow_status_id"@, ParamValueView::Text(f.flow_status_id@)),
        ],
        None => Seq::empty(),
    }
}

/// The statement that creates the node of a card.
pub open spec fn create_text(c: Card) -> Seq<char> {
    "CREATE (n:Card {id:$id, code:$code, name:$name, state:$state, card_type_id:$card_type_id, org_id:$org_id, create_time:$create_time, update_time:$update_time"@
        + flow_text(c.flow_status) + fields_text(c.fields@) + "})"@
}

pub open spec fn create_params(c: Card) -> Seq<ParamEntry> {
    seq![
        ("id"@, ParamValueView::Text(c.id@)),
        ("code"@, ParamValueView::Text(c.code@)),
        ("name"@, ParamValueView::Text(c.name@)),
        ("state"@, ParamValueView::Text(state_name(c.state))),
        ("card_type_id"@, ParamValueView::Text(c.type_id@)),
        ("org_id"@, ParamValueView::Text(c.tenant_id@)),
        ("create_time"@, ParamValueView::Int(c.create_time.millis() as int)),
        ("update_time"@, ParamValueView::Int(c.update_time.millis() as int)),
    ] + flow_params(c.flow_status) + fields_params(c.fields@)
}

/// The statement that links a card to the member who created it, and returns how
/// many relationships it created.
pub open spec fn creator_text() -> Seq<char> {
    "MATCH (n:Card {id:$card_id}) MATCH (m:Card {id:$member_id}) CREATE (n)-[r:creator]->(m) RETURN count(r) AS created"@
}

pub open spec fn creator_params(card_id: Seq<char>, member_id: Seq<char>) -> Seq<ParamEntry> {
    seq![
        ("card_id"@, ParamValueView::Text(card_id)),
        ("member_id"@, ParamValueView::Text(member_id)),
    ]
}

fn push_param(params: &mut Vec<QueryParam>, name: &str, value: ParamValue)
    ensures
        params_view(final(params)@) == params_view(old(params)@).push((name@, value@)),
        final(params)@.len() == old(params)@.len() + 1,
{
    let ghost entry = (name@, value@);
    params.push(QueryParam { name: name.to_owned(), value });
    assert(params_view(params@) =~= params_view(old(params)@).push(entry));
}

fn field_value(v: &FieldValue) -> (r: ParamValue)
    ensures
        r@ == field_value_view(*v),
{
    match v {
        FieldValue::Int(x) => ParamValue::Int(*x as i64),
        FieldValue::Float(b) => ParamValue::Float(*b),
        FieldValue::Text(s) => ParamValue::Text(s.clone()),
        FieldValue::Enum(l) => ParamValue::List(clone_strings(l)),
        FieldValue::Date(t) => ParamValue::Int(t.as_millis()),
        FieldValue::DateTime(t) => ParamValue::Int(t.as_millis()),
    }
}

impl Neo4jStore {
    /// The statement that creates the node of `card`, with every scalar attribute and one
    /// property per custom field, keyed by the field's id between backticks.
    pub fn build_create_query(card: &Card) -> (r: Statement)
        ensures
            r.text@ == create_text(*card),
            params_view(r.params@) == create_params(*card),
    {
        let mut text = String::new();
        push_str(
            &mut text,
            "CREATE (n:Card {id:$id, code:$code, name:$name, state:$state, card_type_id:$card_type_id, org_id:$org_id, create_time:$create_time, update_time:$update_time",
        );
        let mut params: Vec<QueryParam> = Vec::new();
        push_param(&mut params, "id", ParamValue::Text(card.id.as_str().to_owned()));
        push_param(&mut params, "code", ParamValue::Text(card.code.clone()));
        push_param(&mut params, "name", ParamValue::Text(card.name.clone()));
        push_param(&mut params, "state", ParamValue::Text(card.state.to_string()));
        push_param(&mut params, "card_type_id", ParamValue::Text(card.type_id.clone()));
        push_param(&mut params, "org_id", ParamValue::Text(card.tenant_id.clone()));
        push_param(&mut params, "create_time", ParamValue::Int(card.create_time.as_millis()));
        push_param(&mut params, "update_time", ParamValue::Int(card.update_time.as_millis()));
        match &card.flow_status {
            Some(fs) => {
                push_str(&mut text, ",flow_id:$flow_id,flow_status_id:$flow_status_id");
                push_param(&mut params, "flow_id", ParamValue::Text(fs.flow_id.clone()));
                push_param(
                    &mut params,
                    "flow_status_id",
                    ParamValue::Text(fs.flow_status_id.clone()),
                );
            },
            None => {},
        }
        let ghost head = text@;
        let ghost head_params = params_view(params@);
        let fields = &card.fields;
        let n = fields.len();
        let mut i: usize = 0;
        assert(fields@.subrange(0, 0) =~= Seq::<Field>::empty());
        assert(text@ =~= head + fields_text(fields@.subrange(0, 0)));
        assert(params_view(params@) =~= head_params + fields_params(fields@.subrange(0, 0)));
        while i < n
            invariant
                n == fields@.len(),
                i <= n,
                text@ == head + fields_text(fields@.subrange(0, i as int)),
                params_view(params@) == head_params + fields_params(fields@.subrange(0, i as int)),
            decreases n - i,
        {
            let field = &fields[i];
            proof {
                assert(fields@.subrange(0, i + 1).drop_last() =~= fields@.subrange(0, i as int));
            }
            push_str(&mut text, ",");
            push_quoted(&mut text, field.id.as_str());
            push_str(&mut text, ":$");
            let mut name = String::new();
            push_str(&mut name, "f");
            push_decimal(&mut name, i);
            push_str(&mut text, name.as_str());
            let ghost entry = (name@, field_value_view(field.value));
            let ghost before = params@;
            params.push(QueryParam { name, value: field_value(&field.value) });
            assert(params_view(params@) =~= params_view(before).push(entry));
            i = i + 1;
            assert(text@ =~= head + fields_text(fields@.subrange(0, i as int)));
            assert(params_view(params@) =~= head_params + fields_params(
                fields@.subrange(0, i as int),
            ));
        }
        assert(fields@.subrange(0, n as int) =~= fields@);
        push_str(&mut text, "})");
        assert(text@ =~= create_text(*card));
        assert(params_view(params@) =~= create_params(*card));
        Statement { text, params }
    }

    /// The statement that links a card to the member who created it; it returns the
    /// number of relationships it created, one when both cards exist.
    pub fn build_create_rs_with_member_query(card_id: &CardId, member_id: &CardId) -> (r:
        Statement)
        ensures
            r.text@ == creator_text(),
            params_view(r.params@) == creator_params(card_id@, member_id@),
    {
        let mut text = String::new();
        push_str(
            &mut text,
            "MATCH (n:Card {id:$card_id}) MATCH (m:Card {id:$member_id}) CREATE (n)-[r:creator]->(m) RETURN count(r) AS created",
        );
        let mut params: Vec<QueryParam> = Vec::new();
        push_param(&mut params, "card_id", ParamValue::Text(card_id.as_str().to_owned()));
        push_param(&mut params, "member_id", ParamValue::Text(member_id.as_str().to_owned()));
        assert(text@ =~= creator_text());
        assert(params_view(params@) =~= creator_params(card_id@, member_id@));
        Statement { text, params }
    }
}

/// How a creation ended.
#[derive(Debug, Clone, Copy, PartialEq, Eq, Structural)]
pub enum CreateOutcome {
    /// The card and its creator relationship were committed.
    Created,
    /// The store refused the card under a uniqueness constraint (its id, or its code
    /// within the tenant); nothing was written.
    Conflict,
    /// The card's node could be created but its creator relationship could not;
    /// the transaction was rolled back and nothing was written.
    CreatorNotLinked,
    /// The store failed; nothing was written.
    Failed,
}

/// What the transaction of a creation waits for.
#[derive(Debug, Clone, Copy, PartialEq, Eq, Structural)]
pub enum CreatePhase {
    /// The statement that creates the node was run.
    AwaitNode,
    /// The statement that creates the creator relationship was run.
    AwaitCreator,
    /// The transaction was asked to commit.
    AwaitCommit,
    /// The transaction was asked to roll back; the creation ends with the outcome.
    AwaitRollback(CreateOutcome),
    /// The creation is over.
    Done(CreateOutcome),
}

/// What the store answered to the last request.
#[derive(Debug, Clone, Copy, PartialEq, Eq, Structural)]
pub enum StoreEvent {
    /// The request succeeded and returned no count.
    Succeeded,
    /// The request succeeded and returned this count.
    Counted(i64),
    /// The request broke a uniqueness constraint.
    ConstraintViolation,
    /// The request failed otherwise.
    Failed,
}

/// What to ask of the store next.
#[derive(Debug, Clone, Copy, PartialEq, Eq, Structural)]
pub enum StoreAction {
    /// Run the statement that creates the creator relationship.
    RunCreator,
    Commit,
    Rollback,
    /// Stop: the creation ended with this outcome.
    Finish(CreateOutcome),
}

/// The decisions of a creation. Once the node statement has been run, only a node and a
/// creator relationship that were both created are committed; any failure before the
/// commit rolls the transaction back.
pub open spec fn create_next(phase: CreatePhase, event: StoreEvent) -> (CreatePhase, StoreAction) {
    match phase {
        CreatePhase::AwaitNode => match event {
            StoreEvent::Succeeded | StoreEvent::Counted(_) => (
                CreatePhase::AwaitCreator,
                StoreAction::RunCreator,
            ),
            StoreEvent::ConstraintViolation => (
                CreatePhase::AwaitRollback(CreateOutcome::Conflict),
                StoreAction::Rollback,
            ),
            StoreEvent::Failed => (
                CreatePhase::AwaitRollback(CreateOutcome::Failed),
                StoreAction::Rollback,
            ),
        },
        CreatePhase::AwaitCreator => match event {
            StoreEvent::Counted(n) => if n == 1 {
                (CreatePhase::AwaitCommit, StoreAction::Commit)
            } else {
                (
                    CreatePhase::AwaitRollback(CreateOutcome::CreatorNotLinked),
                    StoreAction::Rollback,
                )
            },
            StoreEvent::Succeeded => (
                CreatePhase::AwaitRollback(CreateOutcome::CreatorNotLinked),
                StoreAction::Rollback,
            ),
            StoreEvent::ConstraintViolation | StoreEvent::Failed => (
                CreatePhase::AwaitRollback(CreateOutcome::Failed),
                StoreAction::Rollback,
            ),
        },
        CreatePhase::AwaitCommit => match event {
            StoreEvent::Succeeded | StoreEvent::Counted(_) => (
                CreatePhase::Done(CreateOutcome::Created),
                StoreAction::Finish(CreateOutcome::Created),
            ),
            StoreEvent::ConstraintViolation => (
                CreatePhase::Done(CreateOutcome::Conflict),
                StoreAction::Finish(CreateOutcome::Conflict),
            ),
            StoreEvent::Failed => (
                CreatePhase::Done(CreateOutcome::Failed),
                StoreAction::Finish(CreateOutcome::Failed),
            ),
        },
        CreatePhase::AwaitRollback(o) => (CreatePhase::Done(o), StoreAction::Finish(o)),
        CreatePhase::Done(o) => (CreatePhase::Done(o), StoreAction::Finish(o)),
    }
}

/// The phase after a sequence of answers.
pub open spec fn create_run(phase: CreatePhase, events: Seq<StoreEvent>) -> CreatePhase
    decreases events.len(),
{
    if events.len() == 0 {
        phase
    } else {
        create_run(create_next(phase, events[0]).0, events.drop_first())
    }
}

/// Whether a commit is asked for while the answers are taken in.
pub open spec fn create_commits(phase: CreatePhase, events: Seq<StoreEvent>) -> bool
    decreases events.len(),
{
    if events.len() == 0 {
        false
    } else {
        let (next, action) = create_next(phase, events[0]);
        action is Commit || create_commits(next, events.drop_first())
    }
}

impl Neo4jStore {
    /// Whether a state update is kept: only one that changed exactly one card is committed.
    pub fn update_step(event: StoreEvent) -> (r: StoreAction)
        ensures
            r == (if event == StoreEvent::Counted(1) {
                StoreAction::Commit
            } else {
                StoreAction::Rollback
            }),
    {
        match event {
            StoreEvent::Counted(n) => if n == 1 {
                StoreAction::Commit
            } else {
                StoreAction::Rollback
            },
            _ => StoreAction::Rollback,
        }
    }

    /// The next phase of a creation and what to ask of the store, given its last answer.
    pub fn create_step(phase: CreatePhase, event: StoreEvent) -> (r: (CreatePhase, StoreAction))
        ensures
            r == create_next(phase, event),
    {
        match phase {
            CreatePhase::AwaitNode => match event {
                StoreEvent::Succeeded | StoreEvent::Counted(_) => (
                    CreatePhase::AwaitCreator,
                    StoreAction::RunCreator,
                ),
                StoreEvent::ConstraintViolation => (
                    CreatePhase::AwaitRollback(CreateOutcome::Conflict),
                    StoreAction::Rollback,
                ),
                StoreEvent::Failed => (
                    CreatePhase::AwaitRollback(CreateOutcome::Failed),
                    StoreAction::Rollback,
                ),
            },
            CreatePhase::AwaitCreator => match event {
                StoreEvent::Counted(n) => if n == 1 {
                    (CreatePhase::AwaitCommit, StoreAction::Commit)
                } else {
                    (
                        CreatePhase::AwaitRollback(CreateOutcome::CreatorNotLinked),
                        StoreAction::Rollback,
                    )
                },
                StoreEvent::Succeeded => (
                    CreatePhase::AwaitRollback(CreateOutcome::CreatorNotLinked),
                    StoreAction::Rollback,
                ),
                StoreEvent::ConstraintViolation | StoreEvent::Failed => (
                    CreatePhase::AwaitRollback(CreateOutcome::Failed),
                    StoreAction::Rollback,
                ),
            },
            CreatePhase::AwaitCommit => match event {
                StoreEvent::Succeeded | StoreEvent::Counted(_) => (
                    CreatePhase::Done(CreateOutcome::Created),
                    StoreAction::Finish(CreateOutcome::Created),
                ),
                StoreEvent::ConstraintViolation => (
                    CreatePhase::Done(CreateOutcome::Conflict),
                    StoreAction::Finish(CreateOutcome::Conflict),
                ),
                StoreEvent::Failed => (
                    CreatePhase::Done(CreateOutcome::Failed),
                    StoreAction::Finish(CreateOutcome::Failed),
                ),
            },
            CreatePhase::AwaitRollback(o) => (CreatePhase::Done(o), StoreAction::Finish(o)),
            CreatePhase::Done(o) => (CreatePhase::Done(o), StoreAction::Finish(o)),
        }
    }
}

proof fn lemma_rollback_settles(o: CreateOutcome, events: Seq<StoreEvent>)
    ensures
        !create_commits(CreatePhase::AwaitRollback(o), events),
        !create_commits(CreatePhase::Done(o), events),
        create_run(CreatePhase::AwaitRollback(o), events) == CreatePhase::AwaitRollback(o)
            || create_run(CreatePhase::AwaitRollback(o), events) == CreatePhase::Done(o),
        create_run(CreatePhase::Done(o), events) == CreatePhase::Done(o),
    decreases events.len(),
{
    if events.len() > 0 {
        lemma_rollback_settles(o, events.drop_first());
    }
}

/// Atomic creation. When the store refuses the node of a card under a uniqueness
/// constraint (its id already exists), the transaction is rolled back, no commit is ever
/// asked for whatever the store answers afterwards, and the creation ends as a conflict.
pub proof fn lemma_conflict_never_commits(events: Seq<StoreEvent>)
    ensures
        create_next(CreatePhase::AwaitNode, StoreEvent::ConstraintViolation) == (
            CreatePhase::AwaitRollback(CreateOutcome::Conflict),
            StoreAction::Rollback,
        ),
        !create_commits(
            CreatePhase::AwaitNode,
            seq![StoreEvent::ConstraintViolation] + events,
        ),
        create_run(CreatePhase::AwaitNode, seq![StoreEvent::ConstraintViolation] + events)
            != CreatePhase::Done(CreateOutcome::Created),
{
    let all = seq![StoreEvent::ConstraintViolation] + events;
    assert(all.drop_first() =~= events);
    lemma_rollback_settles(CreateOutcome::Conflict, events);
}

/// Only a creation whose node and creator relationship were both created is committed:
/// from any phase, a commit is asked for exactly when the creator statement counted one
/// relationship.
pub proof fn lemma_commit_only_after_creator(phase: CreatePhase, event: StoreEvent)
    ensures
        create_next(phase, event).1 is Commit <==> (phase == CreatePhase::AwaitCreator && event
            == StoreEvent::Counted(1)),
{
}

/// The statement that moves one card to another lifecycle state, recording when and by
/// whom; with a reason, the reason too. It returns how many cards it changed.
pub open spec fn state_update_text(with_reason: bool) -> Seq<char> {
    "MATCH (n:Card {id:$card_id}) SET n.state = $state, n.update_time = $update_time, n.state_changed_by = $member_id"@
        + (if with_reason {
        ", n.state_reason = $reason"@
    } else {
        Seq::empty()
    }) + " RETURN count(n) AS updated"@
}

pub open spec fn state_update_params(
    card_id: Seq<char>,
    state: CardState,
    member_id: Seq<char>,
    at: Timestamp,
    reason: Option<Seq<char>>,
) -> Seq<ParamEntry> {
    seq![
        ("card_id"@, ParamValueView::Text(card_id)),
        ("state"@, ParamValueView::Text(state_name(state))),
        ("update_time"@, ParamValueView::Int(at.millis() as int)),
        ("member_id"@, ParamValueView::Text(member_id)),
    ] + match reason {
        Some(r) => seq![("reason"@, ParamValueView::Text(r))],
        None => Seq::empty(),
    }
}

fn build_state_update(
    card_id: &CardId,
    state: CardState,
    member_id: &CardId,
    at: Timestamp,
    reason: Option<&str>,
) -> (r: Statement)
    ensures
        r.text@ == state_update_text(reason is Some),
        params_view(r.params@) == state_update_params(
            card_id@,
            state,
            member_id@,
            at,
            match reason {
                Some(x) => Some(x@),
                None => None,
            },
        ),
{
    let mut text = String::new();
    push_str(
        &mut text,
        "MATCH (n:Card {id:$card_id}) SET n.state = $state, n.update_time = $update_time, n.state_changed_by = $member_id",
    );
    let mut params: Vec<QueryParam> = Vec::new();
    push_param(&mut params, "card_id", ParamValue::Text(card_id.as_str().to_owned()));
    push_param(&mut params, "state", ParamValue::Text(state.to_string()));
    push_param(&mut params, "update_time", ParamValue::Int(at.as_millis()));
    push_param(&mut params, "member_id", ParamValue::Text(member_id.as_str().to_owned()));
    match reason {
        Some(x) => {
            push_str(&mut text, ", n.state_reason = $reason");
            push_param(&mut params, "reason", ParamValue::Text(x.to_owned()));
        },
        None => {},
    }
    push_str(&mut text, " RETURN count(n) AS updated");
    assert(text@ =~= state_update_text(reason is Some));
    assert(params_view(params@) =~= state_update_params(
        card_id@,
        state,
        member_id@,
        at,
        match reason {
            Some(x) => Some(x@),
            None => None,
        },
    ));
    Statement { text, params }
}

impl Neo4jStore {
    /// The statement that archives a card, on behalf of a member, at a time.
    pub fn build_archive_query(card_id: &CardId, member_id: &CardId, at: Timestamp) -> (r:
        Statement)
        ensures
            r.text@ == state_update_text(false),
            params_view(r.params@) == state_update_params(
                card_id@,
                CardState::Archived,
                member_id@,
                at,
                None,
            ),
    {
        build_state_update(card_id, CardState::Archived, member_id, at, None)
    }

    /// The statement that abandons a card for a reason, on behalf of a member, at a time.
    pub fn build_abandon_query(card_id: &CardId, reason: &str, member_id: &CardId, at: Timestamp) -> (r:
        Statement)
        ensures
            r.text@ == state_update_text(true),
            params_view(r.params@) == state_update_params(
                card_id@,
                CardState::Abandoned,
                member_id@,
                at,
                Some(reason@),
            ),
    {
        build_state_update(card_id, CardState::Abandoned, member_id, at, Some(reason))
    }

    /// The statement that makes an archived or abandoned card active again.
    pub fn build_restore_query(card_id: &CardId, member_id: &CardId, at: Timestamp) -> (r:
        Statement)
        ensures
            r.text@ == state_update_text(false),
            params_view(r.params@) == state_update_params(
                card_id@,
                CardState::Active,
                member_id@,
                at,
                None,
            ),
    {
        build_state_update(card_id, CardState::Active, member_id, at, None)
    }
}

} // verus!
