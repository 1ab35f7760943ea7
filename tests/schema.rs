use card::ids::generate_id;
use card::schema::{CardType, CommonTraitType, MemberType, Schema, WorkFlow, WorkItemType};
use card::view::{ListViewDefinition, ViewDefinition, ViewType};

#[test]
fn card_type_accessors() {
    let common = CardType::CommonTraitType(CommonTraitType::new(
        generate_id(),
        "common".to_string(),
        "org".to_string(),
        Some("shared".to_string()),
    ));
    assert_eq!(common.id().len(), 16);
    assert_eq!(common.name(), "common");
    assert_eq!(common.org_id(), "org");
    assert_eq!(common.description(), &Some("shared".to_string()));
    assert_eq!(common.secondary_indexes(), None);

    let member = CardType::MemberType(MemberType::new(
        "m".to_string(),
        "member".to_string(),
        "org".to_string(),
        None,
        Some(vec!["t1".to_string(), "t2".to_string()]),
        None,
    ));
    assert_eq!(member.id(), "m");
    assert_eq!(member.secondary_indexes(), Some(vec!["t1".to_string(), "t2".to_string()]));
    assert_eq!(member.description(), &None);

    let work = CardType::WorkItemType(WorkItemType::new(
        "w".to_string(),
        "story".to_string(),
        "org".to_string(),
        None,
        None,
        None,
        vec![],
    ));
    assert_eq!(work.name(), "story");
    assert_eq!(work.secondary_indexes(), None);
}

#[test]
fn work_flow_is_indexed_by_its_card_type() {
    let flow = WorkFlow::new("f".to_string(), "flow".to_string(), "w".to_string(), "org".to_string(), None);
    assert_eq!(flow.id(), "f");
    assert_eq!(flow.name(), "flow");
    assert_eq!(flow.org_id(), "org");
    assert_eq!(flow.secondary_indexes(), Some(vec!["w".to_string()]));
}

#[test]
fn view_definition_holds_its_values() {
    let def = ViewDefinition::new(
        1,
        String::from("列表视图"),
        String::from("这是一个列表视图"),
        1,
        ViewType::ListView(ListViewDefinition { columns: vec![] }),
    );
    assert_eq!(def.id, 1);
    assert_eq!(def.view_type, ViewType::ListView(ListViewDefinition { columns: vec![] }));
    assert_eq!(def.name, "列表视图");
}
