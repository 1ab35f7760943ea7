use card::compile::{compile, CompiledQuery, ParamValue, QueryParam};
use card::ids::FieldId;
use card::query::{
    CardTypeOperator, Condition, ConditionItem, DateOperator, EnumOperator, LinkOperator,
    LinkValue, LogicConditionBulk, LogicConditionGroup, NumberOperator, Page, PropertyValue,
    QueryContext, QueryErrorKind, QueryResult, ReferPoint, RowFailure, Sort, TextOperator, Yields,
};
use card::card::{CardState, FlowStatus};
use card::types::{LinkDescriptor, Path};

fn ctx() -> QueryContext {
    QueryContext::new(
        "1".to_string(),
        "m1".to_string(),
        vec![("card".to_string(), "c9".to_string()), ("card".to_string(), "shadowed".to_string())],
    )
}

fn param(name: &str, value: ParamValue) -> QueryParam {
    QueryParam { name: name.to_string(), value }
}

fn text(s: &str) -> ParamValue {
    ParamValue::Text(s.to_string())
}

fn compiled(c: &Condition) -> CompiledQuery {
    compile(c, &ctx(), &Page::Unbounded).unwrap()
}

fn where_of(q: &CompiledQuery) -> String {
    let t = q.text.strip_prefix("MATCH (n:Card) WHERE n.org_id = $tenant_id").unwrap();
    t.strip_suffix(" RETURN n").unwrap().to_string()
}

#[test]
fn empty_condition_matches_the_whole_tenant() {
    let _yields = Yields::default();
    let q = compile(&Condition::default(), &ctx(), &Page::Unbounded).unwrap();
    assert_eq!(q.text, "MATCH (n:Card) WHERE n.org_id = $tenant_id RETURN n");
    assert_eq!(q.count_text, "MATCH (n:Card) WHERE n.org_id = $tenant_id RETURN count(n) AS total");
    assert_eq!(q.params, vec![param("tenant_id", text("1"))]);
}

#[test]
fn built_condition_compiles_in_order() {
    let mut condition = Condition::default();
    condition
        .and(ConditionItem::CardType(CardTypeOperator::AnyIn(vec!["123".to_string()])))
        .and(ConditionItem::Text(
            FieldId::from_str("title"),
            TextOperator::StartsWith("hello".to_string()),
        ))
        .and_logic(LogicConditionBulk::new(vec![LogicConditionGroup::new(vec![
            ConditionItem::Number(
                FieldId::from_str("size"),
                NumberOperator::GreaterThan(PropertyValue::StaticValue(12)),
            ),
        ])]));
    assert_eq!(condition.items().len(), 2);
    assert_eq!(condition.logic_condition_bulks().len(), 1);
    let q = compiled(&condition);
    assert_eq!(
        q.text,
        "MATCH (n:Card) WHERE n.org_id = $tenant_id AND n.card_type_id IN $v0 AND n.`title` STARTS WITH $v1 AND ((n.`size` > $v2)) RETURN n"
    );
    assert_eq!(
        q.params,
        vec![
            param("tenant_id", text("1")),
            param("v0", ParamValue::List(vec!["123".to_string()])),
            param("v1", text("hello")),
            param("v2", ParamValue::Int(12)),
        ]
    );
}

#[test]
fn literals_never_enter_the_text() {
    let mut condition = Condition::default();
    condition.and(ConditionItem::Code("' OR 1=1 //".to_string()));
    let q = compiled(&condition);
    assert_eq!(where_of(&q), " AND n.code = $v0");
    assert_eq!(q.params[1], param("v0", text("' OR 1=1 //")));
}

#[test]
fn field_names_are_quoted() {
    let mut condition = Condition::default();
    condition.and(ConditionItem::Text(
        FieldId::from_str("we`ird"),
        TextOperator::IsNull(true),
    ));
    condition.and(ConditionItem::Text(FieldId::from_str("t"), TextOperator::IsNull(false)));
    let q = compiled(&condition);
    assert_eq!(where_of(&q), " AND n.`we``ird` IS NULL AND n.`t` IS NOT NULL");
    assert_eq!(q.params.len(), 1);
}

#[test]
fn or_groups_and_bulks() {
    let mut group = LogicConditionGroup::default();
    group
        .or(ConditionItem::Code("c1".to_string()))
        .or(ConditionItem::Title("卡".to_string()));
    let mut condition = Condition::new(vec![ConditionItem::State(CardState::Archived)], vec![]);
    condition
        .and_logic(LogicConditionBulk::new(vec![group, LogicConditionGroup::default()]))
        .and_logic(LogicConditionBulk::default());
    let q = compiled(&condition);
    assert_eq!(
        where_of(&q),
        " AND n.state = $v0 AND ((n.code = $v1 OR n.name CONTAINS $v2) AND false) AND true"
    );
    assert_eq!(q.params[1], param("v0", text("Archived")));
    assert_eq!(q.params[2], param("v1", text("c1")));
    assert_eq!(q.params[3], param("v2", text("卡")));
}

#[test]
fn every_operator_kind() {
    let f = |s: &str| FieldId::from_str(s);
    let items = vec![
        ConditionItem::Status(FlowStatus::new("flow-1", "status-1")),
        ConditionItem::Text(f("a"), TextOperator::Contains("x".to_string())),
        ConditionItem::Text(f("a"), TextOperator::NotContains("y".to_string())),
        ConditionItem::Text(f("a"), TextOperator::Equals(PropertyValue::StaticValue("z".to_string()))),
        ConditionItem::Text(f("a"), TextOperator::NotEquals(PropertyValue::StaticValue("w".to_string()))),
        ConditionItem::Number(f("n"), NumberOperator::Between(PropertyValue::StaticValue(1), PropertyValue::StaticValue(9))),
        ConditionItem::Number(f("n"), NumberOperator::NotBetween(PropertyValue::StaticValue(-1), PropertyValue::StaticValue(5))),
        ConditionItem::Number(f("n"), NumberOperator::LessThanOrEqualTo(PropertyValue::StaticValue(3))),
        ConditionItem::Number(f("n"), NumberOperator::GreaterThanOrEqualTo(PropertyValue::StaticValue(4))),
        ConditionItem::Number(f("n"), NumberOperator::LessThan(PropertyValue::StaticValue(5))),
        ConditionItem::Number(f("n"), NumberOperator::Equals(PropertyValue::StaticValue(6))),
        ConditionItem::Number(f("n"), NumberOperator::NotEquals(PropertyValue::StaticValue(7))),
        ConditionItem::Number(f("n"), NumberOperator::IsNull(true)),
    ];
    let q = compiled(&Condition::new(items, vec![]));
    assert_eq!(
        where_of(&q),
        " AND (n.flow_id = $v0 AND n.flow_status_id = $v1) AND n.`a` CONTAINS $v2 AND NOT n.`a` CONTAINS $v3 AND n.`a` = $v4 AND n.`a` <> $v5 AND (n.`n` >= $v6 AND n.`n` <= $v7) AND (n.`n` < $v8 OR n.`n` > $v9) AND n.`n` <= $v10 AND n.`n` >= $v11 AND n.`n` < $v12 AND n.`n` = $v13 AND n.`n` <> $v14 AND n.`n` IS NULL"
    );
    assert_eq!(q.params.len(), 16);
    assert_eq!(q.params[1], param("v0", text("flow-1")));
    assert_eq!(q.params[2], param("v1", text("status-1")));
    assert_eq!(q.params[8], param("v7", ParamValue::Int(9)));
    assert_eq!(q.params[9], param("v8", ParamValue::Int(-1)));
    assert_eq!(q.params[15], param("v14", ParamValue::Int(7)));
}

#[test]
fn dates_and_enums() {
    let f = |s: &str| FieldId::from_str(s);
    let items = vec![
        ConditionItem::Date(f("d"), DateOperator::After(PropertyValue::StaticValue(10))),
        ConditionItem::Date(f("d"), DateOperator::Before(PropertyValue::StaticValue(u64::MAX))),
        ConditionItem::Date(f("d"), DateOperator::Between(PropertyValue::StaticValue(1), PropertyValue::StaticValue(2))),
        ConditionItem::Date(f("d"), DateOperator::IsNull(false)),
        ConditionItem::Enum(f("tags"), EnumOperator::AnyIn(PropertyValue::StaticValue(vec!["1".to_string()]))),
        ConditionItem::Enum(f("tags"), EnumOperator::AllIn(PropertyValue::StaticValue(vec![]))),
        ConditionItem::Enum(f("tags"), EnumOperator::AnyNotIn(PropertyValue::StaticValue(vec!["2".to_string()]))),
        ConditionItem::Enum(f("tags"), EnumOperator::AllNotIn(PropertyValue::StaticValue(vec!["3".to_string(), "4".to_string()]))),
    ];
    let q = compiled(&Condition::new(items, vec![]));
    assert_eq!(
        where_of(&q),
        " AND n.`d` > $v0 AND n.`d` < $v1 AND (n.`d` >= $v2 AND n.`d` <= $v3) AND n.`d` IS NOT NULL AND any(x IN n.`tags` WHERE x IN $v4) AND all(x IN n.`tags` WHERE x IN $v5) AND any(x IN n.`tags` WHERE NOT x IN $v6) AND all(x IN n.`tags` WHERE NOT x IN $v7)"
    );
    assert_eq!(q.params[2], param("v1", ParamValue::UInt(u64::MAX)));
    assert_eq!(q.params[8], param("v7", ParamValue::List(vec!["3".to_string(), "4".to_string()])));
}

#[test]
fn links() {
    let d = || LinkDescriptor::Src("blocks".to_string());
    let items = vec![
        ConditionItem::Link(d(), LinkOperator::AnyIn(LinkValue::StaticValue(vec!["a".to_string(), "b".to_string()]))),
        ConditionItem::Link(d(), LinkOperator::AllNotIn(LinkValue::ReferValue(ReferPoint::CurrentMember, vec![LinkDescriptor::Dest("assigned".to_string())]))),
        ConditionItem::Link(d(), LinkOperator::AllIn(LinkValue::ReferValue(ReferPoint::Parameter("card".to_string()), vec![]))),
        ConditionItem::Link(
            LinkDescriptor::Dest("parent".to_string()),
            LinkOperator::AnyNotIn(LinkValue::ReferValue(
                ReferPoint::CurrentMember,
                vec![LinkDescriptor::Src("a".to_string()), LinkDescriptor::Dest("b".to_string())],
            )),
        ),
        ConditionItem::Link(d(), LinkOperator::IsNull(true)),
        ConditionItem::Link(d(), LinkOperator::IsNull(false)),
    ];
    let q = compiled(&Condition::new(items, vec![]));
    assert_eq!(
        where_of(&q),
        " AND any(x IN [(n)-[:`blocks`]->(m:Card {org_id: $tenant_id}) | m.id] WHERE x IN $v0) AND all(x IN [(n)-[:`blocks`]->(m:Card {org_id: $tenant_id}) | m.id] WHERE NOT x IN [(s:Card {id: $v1, org_id: $tenant_id})<-[:`assigned`]-(t:Card {org_id: $tenant_id}) | t.id]) AND all(x IN [(n)-[:`blocks`]->(m:Card {org_id: $tenant_id}) | m.id] WHERE x IN [(t:Card {id: $v2, org_id: $tenant_id}) | t.id]) AND any(x IN [(n)<-[:`parent`]-(m:Card {org_id: $tenant_id}) | m.id] WHERE NOT x IN [(s:Card {id: $v3, org_id: $tenant_id})-[:`a`]->(:Card {org_id: $tenant_id})<-[:`b`]-(t:Card {org_id: $tenant_id}) | t.id]) AND size([(n)-[:`blocks`]->(m:Card {org_id: $tenant_id}) | m.id]) = 0 AND size([(n)-[:`blocks`]->(m:Card {org_id: $tenant_id}) | m.id]) > 0"
    );
    assert_eq!(q.params[2], param("v1", text("m1")));
    assert_eq!(q.params[3], param("v2", text("c9")));
    assert_eq!(q.params[4], param("v3", text("m1")));
}

#[test]
fn referenced_values_follow_their_path() {
    let two_hops = Path::Segment(
        LinkDescriptor::Dest("member_of".to_string()),
        Box::new(Path::Segment(LinkDescriptor::Src("owns".to_string()), Box::new(Path::Nil))),
    );
    let items = vec![
        ConditionItem::Number(
            FieldId::from_str("estimate"),
            NumberOperator::GreaterThan(PropertyValue::ReferValue(ReferPoint::CurrentMember, two_hops, "capacity".to_string())),
        ),
        ConditionItem::Text(
            FieldId::from_str("owner"),
            TextOperator::Equals(PropertyValue::ReferValue(ReferPoint::Parameter("card".to_string()), Path::Nil, "name".to_string())),
        ),
        ConditionItem::Enum(
            FieldId::from_str("tags"),
            EnumOperator::AnyIn(PropertyValue::ReferValue(
                ReferPoint::CurrentMember,
                Path::Segment(LinkDescriptor::Src("owns".to_string()), Box::new(Path::Nil)),
                "tags".to_string(),
            )),
        ),
    ];
    let q = compiled(&Condition::new(items, vec![]));
    assert_eq!(
        where_of(&q),
        " AND n.`estimate` > head([(s:Card {id: $v0, org_id: $tenant_id})<-[:`member_of`]-(:Card {org_id: $tenant_id})-[:`owns`]->(t:Card {org_id: $tenant_id}) | t.`capacity`]) AND n.`owner` = head([(t:Card {id: $v1, org_id: $tenant_id}) | t.`name`]) AND any(x IN n.`tags` WHERE x IN head([(s:Card {id: $v2, org_id: $tenant_id})-[:`owns`]->(t:Card {org_id: $tenant_id}) | t.`tags`]))"
    );
    assert_eq!(q.params[1], param("v0", text("m1")));
    assert_eq!(q.params[2], param("v1", text("c9")));
    assert_eq!(q.params[3], param("v2", text("m1")));
}

#[test]
fn unresolved_references_fail_before_running() {
    let missing = Condition::new(
        vec![ConditionItem::Number(
            FieldId::from_str("n"),
            NumberOperator::Between(
                PropertyValue::StaticValue(1),
                PropertyValue::ReferValue(ReferPoint::Parameter("nope".to_string()), Path::Nil, "x".to_string()),
            ),
        )],
        vec![],
    );
    let e = compile(&missing, &ctx(), &Page::Unbounded).unwrap_err();
    assert_eq!(e.kind(), QueryErrorKind::UnknownParameter);
    assert_eq!(e.message(), "nope");

    let current = Condition::new(
        vec![],
        vec![LogicConditionBulk::new(vec![LogicConditionGroup::new(vec![ConditionItem::Link(
            LinkDescriptor::Src("x".to_string()),
            LinkOperator::AnyIn(LinkValue::ReferValue(ReferPoint::CurrentCard, vec![])),
        )])])],
    );
    let e = compile(&current, &ctx(), &Page::Unbounded).unwrap_err();
    assert_eq!(e.kind(), QueryErrorKind::BrokenReferPoint);
}

#[test]
fn pages() {
    let c = Condition::default();
    let q = compile(&c, &ctx(), &Page::Limit(20, 10)).unwrap();
    assert_eq!(q.text, "MATCH (n:Card) WHERE n.org_id = $tenant_id RETURN n SKIP $skip LIMIT $limit");
    assert_eq!(q.count_text, "MATCH (n:Card) WHERE n.org_id = $tenant_id RETURN count(n) AS total");
    assert_eq!(
        q.params,
        vec![param("tenant_id", text("1")), param("skip", ParamValue::Int(20)), param("limit", ParamValue::Int(10))]
    );
    let q = compile(&c, &ctx(), &Page::LimitAfterSort(Sort::Desc(FieldId::from_str("create_time")), 0, 5)).unwrap();
    assert_eq!(
        q.text,
        "MATCH (n:Card) WHERE n.org_id = $tenant_id RETURN n ORDER BY n.`create_time` DESC SKIP $skip LIMIT $limit"
    );
    let q = compile(&c, &ctx(), &Page::LimitAfterSort(Sort::Asc(FieldId::from_str("code")), 1, 2)).unwrap();
    assert!(q.text.ends_with(" ORDER BY n.`code` ASC SKIP $skip LIMIT $limit"));
    assert_eq!(q.params[1], param("skip", ParamValue::Int(1)));
}

#[test]
fn context_parameters_take_their_first_binding() {
    let c = ctx();
    assert_eq!(c.tenant_id(), "1");
    assert_eq!(c.member_id(), "m1");
    assert_eq!(c.parameter("card"), Some("c9"));
    assert_eq!(c.parameter("none"), None);
}

#[test]
fn tenant_parameter_is_the_first_and_only_one() {
    let mut condition = Condition::default();
    condition.and(ConditionItem::Code("tenant_id".to_string()));
    let other = QueryContext::new("42".to_string(), "m".to_string(), vec![]);
    let q = compile(&condition, &other, &Page::Limit(0, 1)).unwrap();
    assert_eq!(q.params[0], param("tenant_id", text("42")));
    assert_eq!(q.params.iter().filter(|p| p.name == "tenant_id").count(), 1);
    assert!(q.text.starts_with("MATCH (n:Card) WHERE n.org_id = $tenant_id AND "));
}

#[test]
fn query_results_keep_failed_rows() {
    let r = QueryResult::new(vec![], 3);
    assert_eq!(r.total(), 3);
    assert!(r.failed_rows().is_empty());
    let r = QueryResult::with_failures(
        vec![],
        2,
        vec![RowFailure { row: 1, message: "unknown state X".to_string() }],
    );
    assert_eq!(r.cards().len(), 0);
    assert_eq!(r.failed_rows()[0].row, 1);
    assert_eq!(r.failed_rows()[0].message, "unknown state X");
}
