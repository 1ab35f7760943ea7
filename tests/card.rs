use card::card::{Card, CardError, CardState, Field, FieldValue, FlowStatus};
use card::card::card_property;
use card::types::LinkDescriptor;
use card::ids::{CardId, FieldId, Timestamp};

#[test]
fn card_test_new_card() {
    let mut card = Card::new("10001".to_string(), "卡片01".to_string(), "1", "1", None, vec![], vec![]);
    card.code = String::from("10001");
    println!("{:?}", card);
    assert_eq!(card.code, "10001");
    assert_eq!(card.type_id, "1");
    assert_eq!(card.tenant_id, "1");
    assert_eq!(card.fields.len(), 0);
    assert_eq!(card.name, "卡片01");
    assert_eq!(card.state, CardState::Active);
}

#[test]
fn lib_test_new_card() {
    let card = Card::new("10001".to_string(), "卡片01".to_string(), "1", "1", None, vec![], vec![]);
    println!("{:?}", card);
    println!("{}", card.id.as_str());
    assert_eq!(card.code, "10001");
    assert_eq!(card.type_id, "1");
    assert_eq!(card.tenant_id, "1");
    assert_eq!(card.fields.len(), 0);
    assert_eq!(card.name, "卡片01");
    assert_eq!(card.state, CardState::Active);
}

#[test]
fn test_rename() {
    let card_type_id = card::ids::CardTypeId::from_str("1");
    let mut card = Card::new(
        "10001".to_string(),
        "卡片01".to_string(),
        card_type_id.as_str(),
        "1",
        None,
        vec![],
        vec![],
    );
    assert_eq!(card.rename("第一张卡片"), Ok(()));
    assert_eq!(card.name, "第一张卡片");
    println!("{:?}", card.state);
}

#[test]
fn rename_rejects_blank_names() {
    let mut card = Card::new("10001".to_string(), "卡片01".to_string(), "1", "1", None, vec![], vec![]);
    assert_eq!(card.rename(""), Err(CardError::BlankName));
    assert_eq!(card.name, "卡片01");
    assert_eq!(card.rename("   "), Err(CardError::BlankName));
    assert_eq!(card.name, "卡片01");
    assert_eq!(card.rename("\t\u{3000}\n"), Err(CardError::BlankName));
    assert_eq!(card.name, "卡片01");
    assert_eq!(card.rename("X"), Ok(()));
    assert_eq!(card.name, "X");
    assert_eq!(card.rename("  padded  "), Ok(()));
    assert_eq!(card.name, "  padded  ");
}

#[test]
fn last_state_transition_wins() {
    let mut card = Card::new("c".to_string(), "n".to_string(), "t", "o", None, vec![], vec![]);
    card.archived();
    assert_eq!(card.state, CardState::Archived);
    card.abandoned();
    assert_eq!(card.state, CardState::Abandoned);
    card.abandoned();
    assert_eq!(card.state, CardState::Abandoned);
    card.active();
    assert_eq!(card.state, CardState::Active);
    card.archived();
    assert_eq!(card.state, CardState::Archived);
}

#[test]
fn state_names() {
    assert_eq!(CardState::Active.to_string(), "Active");
    assert_eq!(CardState::Archived.to_string(), "Archived");
    assert_eq!(CardState::Abandoned.to_string(), "Abandoned");
}

#[test]
fn new_card_is_created_and_updated_at_once() {
    let card = Card::new("c".to_string(), "n".to_string(), "t", "o", None, vec![], vec![]);
    assert_eq!(card.create_time, card.update_time);
    assert!(card.create_time.as_millis() > 0);
    assert_eq!(card.id.as_str().len(), 16);
}

#[test]
fn cards_are_the_same_by_id() {
    let a = Card::new("c".to_string(), "n".to_string(), "t", "o", None, vec![], vec![]);
    let mut b = Card::new("c".to_string(), "n".to_string(), "t", "o", None, vec![], vec![]);
    assert!(a.same_card(&a));
    assert!(!a.same_card(&b));
    b.id = a.id.clone();
    b.name = "other".to_string();
    assert!(a.same_card(&b));
}

#[test]
fn field_and_flow_status_constructors() {
    let f = Field::new(FieldId::from_str("int-field"), FieldValue::Int(111));
    assert_eq!(f.id.as_str(), "int-field");
    assert!(matches!(f.value, FieldValue::Int(111)));
    let fs = FlowStatus::new("flow-1", "status-1");
    assert_eq!(fs.flow_id, "flow-1");
    assert_eq!(fs.flow_status_id, "status-1");
    let t = Timestamp::from_millis(1_700_000_000_000);
    assert_eq!(t.as_millis(), 1_700_000_000_000);
    assert_eq!(CardId::from("x".to_string()).as_str(), "x");
}

#[test]
fn states_read_back_by_name() {
    for s in [CardState::Active, CardState::Archived, CardState::Abandoned] {
        assert_eq!(CardState::from_name(&s.to_string()), Some(s));
    }
    assert_eq!(CardState::from_name("active"), None);
    assert_eq!(CardState::from_name(""), None);
    let stored = Card::from_stored(
        CardId::from_str("c1"),
        "10001".to_string(),
        "卡片01".to_string(),
        CardState::Archived,
        None,
        "1".to_string(),
        "1".to_string(),
        Timestamp::from_millis(1),
        Timestamp::from_millis(2),
        vec![],
    );
    assert_eq!(stored.id.as_str(), "c1");
    assert_eq!(stored.state, CardState::Archived);
    assert_eq!(stored.update_time.as_millis(), 2);
    assert!(stored.links.is_empty());
}

#[test]
fn links_group_by_descriptor_without_duplicates() {
    let mut story = Card::new("s".to_string(), "story".to_string(), "t", "o", None, vec![], vec![]);
    let task = Card::from_stored(
        CardId::from_str("task-1"),
        "t1".to_string(),
        "task".to_string(),
        CardState::Active,
        None,
        "t".to_string(),
        "o".to_string(),
        Timestamp::from_millis(0),
        Timestamp::from_millis(0),
        vec![],
    );
    let again = Card::from_stored(
        CardId::from_str("task-1"),
        "t1".to_string(),
        "renamed".to_string(),
        CardState::Active,
        None,
        "t".to_string(),
        "o".to_string(),
        Timestamp::from_millis(0),
        Timestamp::from_millis(0),
        vec![],
    );
    let other = Card::new("t2".to_string(), "task 2".to_string(), "t", "o", None, vec![], vec![]);
    let also_dest = Card::from_stored(
        CardId::from_str("task-1"),
        "t1".to_string(),
        "task".to_string(),
        CardState::Active,
        None,
        "t".to_string(),
        "o".to_string(),
        Timestamp::from_millis(0),
        Timestamp::from_millis(0),
        vec![],
    );
    assert!(story.add_link(LinkDescriptor::Src("has".to_string()), task));
    assert!(!story.add_link(LinkDescriptor::Src("has".to_string()), again));
    assert!(story.add_link(LinkDescriptor::Src("has".to_string()), other));
    assert!(story.add_link(LinkDescriptor::Dest("has".to_string()), also_dest));
    assert_eq!(story.links.len(), 2);
    assert_eq!(story.links[0].cards.len(), 2);
    assert_eq!(story.links[0].cards[0].name, "task");
    assert_eq!(story.links[1].cards.len(), 1);
    assert_eq!(story.links[1].descriptor, LinkDescriptor::Dest("has".to_string()));
}

#[test]
fn changes_record_their_time() {
    let mut card = Card::from_stored(
        CardId::from_str("c1"),
        "10001".to_string(),
        "卡片01".to_string(),
        CardState::Active,
        None,
        "1".to_string(),
        "1".to_string(),
        Timestamp::from_millis(1),
        Timestamp::from_millis(1),
        vec![],
    );
    card.archived();
    assert!(card.update_time.as_millis() > 1);
    assert_eq!(card.create_time.as_millis(), 1);
    card.update_time = Timestamp::from_millis(1);
    assert_eq!(card.rename("  "), Err(CardError::BlankName));
    assert_eq!(card.update_time.as_millis(), 1);
    assert_eq!(card.rename("新名字"), Ok(()));
    assert!(card.update_time.as_millis() > 1);
    assert!(Timestamp::now().as_millis() > 0);
}

#[test]
fn stored_integers_and_card_properties() {

    assert!(matches!(FieldValue::from_stored_integer(111), FieldValue::Int(111)));
    assert!(matches!(FieldValue::from_stored_integer(-5), FieldValue::Int(-5)));
    match FieldValue::from_stored_integer(1_467_936_000_123) {
        FieldValue::DateTime(t) => assert_eq!(t.as_millis(), 1_467_936_000_123),
        other => panic!("{:?}", other),
    }
    for name in ["id", "code", "name", "state", "card_type_id", "org_id", "create_time", "update_time", "flow_id", "flow_status_id", "state_changed_by", "state_reason"] {
        assert!(card_property(name), "{}", name);
    }
    assert!(!card_property("int-field"));
    assert!(!card_property("Name"));
}
