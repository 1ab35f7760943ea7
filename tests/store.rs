use card::card::{Card, Field, FieldValue, FlowStatus};
use card::compile::{ParamValue, QueryParam};
use card::ids::{CardId, FieldId, Timestamp};
use card::store::{CreateOutcome, CreatePhase, Neo4jStore, StoreAction, StoreEvent};

fn param(name: &str, value: ParamValue) -> QueryParam {
    QueryParam { name: name.to_string(), value }
}

fn text(s: &str) -> ParamValue {
    ParamValue::Text(s.to_string())
}

#[test]
fn basic_create_statement() {
    let card = Card::new("10001".to_string(), "卡片01".to_string(), "1", "1", None, vec![], vec![]);
    let s = Neo4jStore::build_create_query(&card);
    assert_eq!(
        s.text,
        "CREATE (n:Card {id:$id, code:$code, name:$name, state:$state, card_type_id:$card_type_id, org_id:$org_id, create_time:$create_time, update_time:$update_time})"
    );
    assert_eq!(
        s.params,
        vec![
            param("id", text(card.id.as_str())),
            param("code", text("10001")),
            param("name", text("卡片01")),
            param("state", text("Active")),
            param("card_type_id", text("1")),
            param("org_id", text("1")),
            param("create_time", ParamValue::Int(card.create_time.as_millis())),
            param("update_time", ParamValue::Int(card.update_time.as_millis())),
        ]
    );
}

#[test]
fn create_statement_carries_every_field() {
    let date = Timestamp::from_millis(1_467_936_000_000);
    let moment = Timestamp::from_millis(1_467_936_000_123);
    let fields = vec![
        Field::new(FieldId::from_str("text-field"), FieldValue::Text(String::from("hello world"))),
        Field::new(FieldId::from_str("int-field"), FieldValue::Int(111)),
        Field::new(FieldId::from_str("float-field"), FieldValue::Float(111.0f32.to_bits())),
        Field::new(FieldId::from_str("enum-field"), FieldValue::Enum(vec!["1".to_string(), "2".to_string()])),
        Field::new(FieldId::from_str("date-field"), FieldValue::Date(date)),
        Field::new(FieldId::from_str("datetime-field"), FieldValue::DateTime(moment)),
    ];
    let card = Card::new(
        "c106".to_string(),
        "卡片101".to_string(),
        "t101",
        "o101",
        Some(FlowStatus::new("flow-1", "status-1")),
        fields,
        vec![],
    );
    let s = Neo4jStore::build_create_query(&card);
    assert_eq!(
        s.text,
        "CREATE (n:Card {id:$id, code:$code, name:$name, state:$state, card_type_id:$card_type_id, org_id:$org_id, create_time:$create_time, update_time:$update_time,flow_id:$flow_id,flow_status_id:$flow_status_id,`text-field`:$f0,`int-field`:$f1,`float-field`:$f2,`enum-field`:$f3,`date-field`:$f4,`datetime-field`:$f5})"
    );
    assert_eq!(s.params.len(), 16);
    assert_eq!(s.params[4], param("card_type_id", text("t101")));
    assert_eq!(s.params[5], param("org_id", text("o101")));
    assert_eq!(s.params[8], param("flow_id", text("flow-1")));
    assert_eq!(s.params[9], param("flow_status_id", text("status-1")));
    assert_eq!(s.params[10], param("f0", text("hello world")));
    assert_eq!(s.params[11], param("f1", ParamValue::Int(111)));
    assert_eq!(s.params[12], param("f2", ParamValue::Float(111.0f32.to_bits())));
    assert_eq!(f32::from_bits(111.0f32.to_bits()), 111.0);
    assert_eq!(s.params[13], param("f3", ParamValue::List(vec!["1".to_string(), "2".to_string()])));
    assert_eq!(s.params[14], param("f4", ParamValue::Int(1_467_936_000_000)));
    assert_eq!(s.params[15], param("f5", ParamValue::Int(1_467_936_000_123)));
}

#[test]
fn field_keys_are_quoted() {
    let fields = vec![Field::new(FieldId::from_str("a`b"), FieldValue::Int(1))];
    let card = Card::new("c".to_string(), "n".to_string(), "t", "o", None, fields, vec![]);
    let s = Neo4jStore::build_create_query(&card);
    assert!(s.text.ends_with("update_time:$update_time,`a``b`:$f0})"));
}

#[test]
fn creator_statement() {
    let s = Neo4jStore::build_create_rs_with_member_query(&CardId::from_str("c1"), &CardId::from_str("m103"));
    assert_eq!(
        s.text,
        "MATCH (n:Card {id:$card_id}) MATCH (m:Card {id:$member_id}) CREATE (n)-[r:creator]->(m) RETURN count(r) AS created"
    );
    assert_eq!(s.params, vec![param("card_id", text("c1")), param("member_id", text("m103"))]);
}

fn run(events: &[StoreEvent]) -> (CreatePhase, Vec<StoreAction>) {
    let mut phase = CreatePhase::AwaitNode;
    let mut actions = vec![];
    for e in events {
        let (p, a) = Neo4jStore::create_step(phase, *e);
        phase = p;
        actions.push(a);
    }
    (phase, actions)
}

#[test]
fn successful_creation_commits() {
    let (phase, actions) = run(&[StoreEvent::Succeeded, StoreEvent::Counted(1), StoreEvent::Succeeded]);
    assert_eq!(phase, CreatePhase::Done(CreateOutcome::Created));
    assert_eq!(
        actions,
        vec![StoreAction::RunCreator, StoreAction::Commit, StoreAction::Finish(CreateOutcome::Created)]
    );
}

#[test]
fn duplicate_id_rolls_back_as_conflict() {
    let (phase, actions) = run(&[StoreEvent::ConstraintViolation, StoreEvent::Succeeded, StoreEvent::Counted(1)]);
    assert_eq!(phase, CreatePhase::Done(CreateOutcome::Conflict));
    assert_eq!(
        actions,
        vec![StoreAction::Rollback, StoreAction::Finish(CreateOutcome::Conflict), StoreAction::Finish(CreateOutcome::Conflict)]
    );
}

#[test]
fn missing_member_rolls_back() {
    let (phase, actions) = run(&[StoreEvent::Succeeded, StoreEvent::Counted(0), StoreEvent::Succeeded]);
    assert_eq!(phase, CreatePhase::Done(CreateOutcome::CreatorNotLinked));
    assert_eq!(actions[1], StoreAction::Rollback);
    let (phase, _) = run(&[StoreEvent::Succeeded, StoreEvent::Succeeded, StoreEvent::Failed]);
    assert_eq!(phase, CreatePhase::Done(CreateOutcome::CreatorNotLinked));
}

#[test]
fn failures_roll_back() {
    let (phase, actions) = run(&[StoreEvent::Failed, StoreEvent::Succeeded]);
    assert_eq!(phase, CreatePhase::Done(CreateOutcome::Failed));
    assert_eq!(actions[0], StoreAction::Rollback);
    let (phase, _) = run(&[StoreEvent::Succeeded, StoreEvent::Failed, StoreEvent::Succeeded]);
    assert_eq!(phase, CreatePhase::Done(CreateOutcome::Failed));
    let (phase, _) = run(&[StoreEvent::Succeeded, StoreEvent::Counted(1), StoreEvent::Failed]);
    assert_eq!(phase, CreatePhase::Done(CreateOutcome::Failed));
    let (phase, _) = run(&[StoreEvent::Succeeded, StoreEvent::Counted(1), StoreEvent::ConstraintViolation]);
    assert_eq!(phase, CreatePhase::Done(CreateOutcome::Conflict));
}

#[test]
fn state_updates_are_single_statements() {
    let at = Timestamp::from_millis(5);
    let s = Neo4jStore::build_archive_query(&CardId::from_str("c1"), &CardId::from_str("m1"), at);
    assert_eq!(
        s.text,
        "MATCH (n:Card {id:$card_id}) SET n.state = $state, n.update_time = $update_time, n.state_changed_by = $member_id RETURN count(n) AS updated"
    );
    assert_eq!(
        s.params,
        vec![
            param("card_id", text("c1")),
            param("state", text("Archived")),
            param("update_time", ParamValue::Int(5)),
            param("member_id", text("m1")),
        ]
    );
    let s = Neo4jStore::build_abandon_query(&CardId::from_str("c1"), "duplicate", &CardId::from_str("m1"), at);
    assert_eq!(
        s.text,
        "MATCH (n:Card {id:$card_id}) SET n.state = $state, n.update_time = $update_time, n.state_changed_by = $member_id, n.state_reason = $reason RETURN count(n) AS updated"
    );
    assert_eq!(s.params[1], param("state", text("Abandoned")));
    assert_eq!(s.params[4], param("reason", text("duplicate")));
    let s = Neo4jStore::build_restore_query(&CardId::from_str("c1"), &CardId::from_str("m1"), at);
    assert_eq!(s.params[1], param("state", text("Active")));
    assert_eq!(Neo4jStore::update_step(StoreEvent::Counted(1)), StoreAction::Commit);
    assert_eq!(Neo4jStore::update_step(StoreEvent::Counted(0)), StoreAction::Rollback);
    assert_eq!(Neo4jStore::update_step(StoreEvent::Succeeded), StoreAction::Rollback);
}
