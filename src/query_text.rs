//! The text and the parameters that a condition compiles to, stated as spec functions
//! of the condition, the context and the page.
use vstd::prelude::*;

use crate::card::state_name;
use crate::params::{strs_view, ParamEntry, ParamValueView};
use crate::query::{
    CardTypeOperator, Condition, ConditionItem, DateOperator, EnumOperator, LinkOperator,
    LinkValue, LogicConditionBulk, LogicConditionGroup, NumberOperator, Page, PropertyValue,
    QueryContext, QueryErrorKind, ReferPoint, Sort, TextOperator,
};
use crate::text::{dec, esc};
use crate::types::{LinkDescriptor, Path};

verus! {

/// The name of the `k`-th positional parameter.
pub open spec fn pname(k: nat) -> Seq<char> {
    "v"@ + dec(k)
}

/// A reference to the `k`-th positional parameter in query text.
pub open spec fn pref(k: nat) -> Seq<char> {
    "$v"@ + dec(k)
}

/// A name between backticks, with its backticks doubled.
pub open spec fn quoted(s: Seq<char>) -> Seq<char> {
    seq!['`'] + esc(s) + seq!['`']
}

/// A custom property of the matched card `n`.
pub open spec fn prop(f: Seq<char>) -> Seq<char> {
    "n."@ + quoted(f)
}

pub open spec fn hop(d: LinkDescriptor) -> Seq<char> {
    match d {
        LinkDescriptor::Src(r) => "-[:"@ + quoted(r@) + "]->"@,
        LinkDescriptor::Dest(r) => "<-[:"@ + quoted(r@) + "]-"@,
    }
}

pub open spec fn path_text(p: Path) -> Seq<char>
    decreases p,
{
    match p {
        Path::Segment(d, rest) => hop(d) + (if *rest is Nil {
            Seq::empty()
        } else {
            "(:Card {org_id: $tenant_id})"@
        }) + path_text(*rest),
        Path::Nil => Seq::empty(),
    }
}

/// The pattern from the card bound to parameter `k` along `path` to the card `t`; every card
/// on the way belongs to the context's tenant.
pub open spec fn anchor(path: Path, k: nat) -> Seq<char> {
    if path is Nil {
        "(t:Card {id: "@ + pref(k) + ", org_id: $tenant_id})"@
    } else {
        "(s:Card {id: "@ + pref(k) + ", org_id: $tenant_id})"@ + path_text(path) + "(t:Card {org_id: $tenant_id})"@
    }
}

/// The value of `field` on the card reached along `path` from the card bound to parameter `k`.
pub open spec fn refer_text(path: Path, field: Seq<char>, k: nat) -> Seq<char> {
    "head(["@ + anchor(path, k) + " | t."@ + quoted(field) + "])"@
}

/// The card id that a reference point stands for in a context.
pub open spec fn resolve(point: ReferPoint, ctx: QueryContext) -> Result<Seq<char>, QueryErrorKind> {
    match point {
        ReferPoint::CurrentMember => Ok(ctx.spec_member_id()),
        ReferPoint::CurrentCard => Err(QueryErrorKind::BrokenReferPoint),
        ReferPoint::Parameter(name) => match ctx.spec_parameter(name@) {
            Some(v) => Ok(v),
            None => Err(QueryErrorKind::UnknownParameter),
        },
    }
}

pub open spec fn point_error(point: ReferPoint, ctx: QueryContext) -> Option<QueryErrorKind> {
    match resolve(point, ctx) {
        Ok(_) => None,
        Err(e) => Some(e),
    }
}

pub open spec fn first_err(a: Option<QueryErrorKind>, b: Option<QueryErrorKind>) -> Option<
    QueryErrorKind,
> {
    if a is Some {
        a
    } else {
        b
    }
}

pub open spec fn operand_text<T>(v: PropertyValue<T>, k: nat) -> Seq<char> {
    match v {
        PropertyValue::StaticValue(_) => pref(k),
        PropertyValue::ReferValue(_, path, f) => refer_text(path, f@, k),
    }
}

pub open spec fn operand_error<T>(v: PropertyValue<T>, ctx: QueryContext) -> Option<
    QueryErrorKind,
> {
    match v {
        PropertyValue::StaticValue(_) => None,
        PropertyValue::ReferValue(p, _, _) => point_error(p, ctx),
    }
}

/// The parameter an operand binds, given what its literal denotes.
pub open spec fn operand_param<T>(
    v: PropertyValue<T>,
    ctx: QueryContext,
    k: nat,
    lit: ParamValueView,
) -> Seq<ParamEntry> {
    match v {
        PropertyValue::StaticValue(_) => seq![(pname(k), lit)],
        PropertyValue::ReferValue(p, _, _) => seq![
            (pname(k), ParamValueView::Text(resolve(p, ctx)->Ok_0)),
        ],
    }
}

pub open spec fn int_lit(v: PropertyValue<i64>) -> ParamValueView {
    match v {
        PropertyValue::StaticValue(x) => ParamValueView::Int(x as int),
        PropertyValue::ReferValue(..) => ParamValueView::Int(0),
    }
}

pub open spec fn uint_lit(v: PropertyValue<u64>) -> ParamValueView {
    match v {
        PropertyValue::StaticValue(x) => ParamValueView::Int(x as int),
        PropertyValue::ReferValue(..) => ParamValueView::Int(0),
    }
}

pub open spec fn text_lit(v: PropertyValue<String>) -> ParamValueView {
    match v {
        PropertyValue::StaticValue(s) => ParamValueView::Text(s@),
        PropertyValue::ReferValue(..) => ParamValueView::Int(0),
    }
}

pub open spec fn list_lit(v: PropertyValue<Vec<String>>) -> ParamValueView {
    match v {
        PropertyValue::StaticValue(l) => ParamValueView::List(strs_view(l@)),
        PropertyValue::ReferValue(..) => ParamValueView::Int(0),
    }
}

pub open spec fn cmp<T>(f: Seq<char>, op: Seq<char>, v: PropertyValue<T>, k: nat) -> Seq<char> {
    prop(f) + op + operand_text(v, k)
}

pub open spec fn between<T>(
    f: Seq<char>,
    lo: Seq<char>,
    join: Seq<char>,
    hi: Seq<char>,
    a: PropertyValue<T>,
    b: PropertyValue<T>,
    k: nat,
) -> Seq<char> {
    "("@ + cmp(f, lo, a, k) + join + cmp(f, hi, b, k + 1) + ")"@
}

pub open spec fn null_text(f: Seq<char>, b: bool) -> Seq<char> {
    prop(f) + if b {
        " IS NULL"@
    } else {
        " IS NOT NULL"@
    }
}

pub open spec fn number_text(f: Seq<char>, op: NumberOperator, k: nat) -> Seq<char> {
    match op {
        NumberOperator::LessThan(v) => cmp(f, " < "@, v, k),
        NumberOperator::GreaterThan(v) => cmp(f, " > "@, v, k),
        NumberOperator::LessThanOrEqualTo(v) => cmp(f, " <= "@, v, k),
        NumberOperator::GreaterThanOrEqualTo(v) => cmp(f, " >= "@, v, k),
        NumberOperator::Between(a, b) => between(f, " >= "@, " AND "@, " <= "@, a, b, k),
        NumberOperator::NotBetween(a, b) => between(f, " < "@, " OR "@, " > "@, a, b, k),
        NumberOperator::Equals(v) => cmp(f, " = "@, v, k),
        NumberOperator::NotEquals(v) => cmp(f, " <> "@, v, k),
        NumberOperator::IsNull(b) => null_text(f, b),
    }
}

pub open spec fn number_params(op: NumberOperator, ctx: QueryContext, k: nat) -> Seq<ParamEntry> {
    match op {
        NumberOperator::LessThan(v) => operand_param(v, ctx, k, int_lit(v)),
        NumberOperator::GreaterThan(v) => operand_param(v, ctx, k, int_lit(v)),
        NumberOperator::LessThanOrEqualTo(v) => operand_param(v, ctx, k, int_lit(v)),
        NumberOperator::GreaterThanOrEqualTo(v) => operand_param(v, ctx, k, int_lit(v)),
        NumberOperator::Between(a, b) => operand_param(a, ctx, k, int_lit(a)) + operand_param(
            b,
            ctx,
            k + 1,
            int_lit(b),
        ),
        NumberOperator::NotBetween(a, b) => operand_param(a, ctx, k, int_lit(a)) + operand_param(
            b,
            ctx,
            k + 1,
            int_lit(b),
        ),
        NumberOperator::Equals(v) => operand_param(v, ctx, k, int_lit(v)),
        NumberOperator::NotEquals(v) => operand_param(v, ctx, k, int_lit(v)),
        NumberOperator::IsNull(_) => Seq::empty(),
    }
}

pub open spec fn number_error(op: NumberOperator, ctx: QueryContext) -> Option<QueryErrorKind> {
    match op {
        NumberOperator::LessThan(v) => operand_error(v, ctx),
        NumberOperator::GreaterThan(v) => operand_error(v, ctx),
        NumberOperator::LessThanOrEqualTo(v) => operand_error(v, ctx),
        NumberOperator::GreaterThanOrEqualTo(v) => operand_error(v, ctx),
        NumberOperator::Between(a, b) => first_err(operand_error(a, ctx), operand_error(b, ctx)),
        NumberOperator::NotBetween(a, b) => first_err(operand_error(a, ctx), operand_error(b, ctx)),
        NumberOperator::Equals(v) => operand_error(v, ctx),
        NumberOperator::NotEquals(v) => operand_error(v, ctx),
        NumberOperator::IsNull(_) => None,
    }
}

pub open spec fn date_text(f: Seq<char>, op: DateOperator, k: nat) -> Seq<char> {
    match op {
        DateOperator::After(v) => cmp(f, " > "@, v, k),
        DateOperator::Before(v) => cmp(f, " < "@, v, k),
        DateOperator::Equals(v) => cmp(f, " = "@, v, k),
        DateOperator::NotEquals(v) => cmp(f, " <> "@, v, k),
        DateOperator::Between(a, b) => between(f, " >= "@, " AND "@, " <= "@, a, b, k),
        DateOperator::NotBetween(a, b) => between(f, " < "@, " OR "@, " > "@, a, b, k),
        DateOperator::IsNull(b) => null_text(f, b),
    }
}

pub open spec fn date_params(op: DateOperator, ctx: QueryContext, k: nat) -> Seq<ParamEntry> {
    match op {
        DateOperator::After(v) => operand_param(v, ctx, k, uint_lit(v)),
        DateOperator::Before(v) => operand_param(v, ctx, k, uint_lit(v)),
        DateOperator::Equals(v) => operand_param(v, ctx, k, uint_lit(v)),
        DateOperator::NotEquals(v) => operand_param(v, ctx, k, uint_lit(v)),
        DateOperator::Between(a, b) => operand_param(a, ctx, k, uint_lit(a)) + operand_param(
            b,
            ctx,
            k + 1,
            uint_lit(b),
        ),
        DateOperator::NotBetween(a, b) => operand_param(a, ctx, k, uint_lit(a)) + operand_param(
            b,
            ctx,
            k + 1,
            uint_lit(b),
        ),
        DateOperator::IsNull(_) => Seq::empty(),
    }
}

pub open spec fn date_error(op: DateOperator, ctx: QueryContext) -> Option<QueryErrorKind> {
    match op {
        DateOperator::After(v) => operand_error(v, ctx),
        DateOperator::Before(v) => operand_error(v, ctx),
        DateOperator::Equals(v) => operand_error(v, ctx),
        DateOperator::NotEquals(v) => operand_error(v, ctx),
        DateOperator::Between(a, b) => first_err(operand_error(a, ctx), operand_error(b, ctx)),
        DateOperator::NotBetween(a, b) => first_err(operand_error(a, ctx), operand_error(b, ctx)),
        DateOperator::IsNull(_) => None,
    }
}

pub open spec fn text_text(f: Seq<char>, op: TextOperator, k: nat) -> Seq<char> {
    match op {
        TextOperator::StartsWith(_) => prop(f) + " STARTS WITH "@ + pref(k),
        TextOperator::Contains(_) => prop(f) + " CONTAINS "@ + pref(k),
        TextOperator::NotContains(_) => "NOT "@ + prop(f) + " CONTAINS "@ + pref(k),
        TextOperator::Equals(v) => cmp(f, " = "@, v, k),
        TextOperator::NotEquals(v) => cmp(f, " <> "@, v, k),
        TextOperator::IsNull(b) => null_text(f, b),
    }
}

pub open spec fn text_params(op: TextOperator, ctx: QueryContext, k: nat) -> Seq<ParamEntry> {
    match op {
        TextOperator::StartsWith(s) => seq![(pname(k), ParamValueView::Text(s@))],
        TextOperator::Contains(s) => seq![(pname(k), ParamValueView::Text(s@))],
        TextOperator::NotContains(s) => seq![(pname(k), ParamValueView::Text(s@))],
        TextOperator::Equals(v) => operand_param(v, ctx, k, text_lit(v)),
        TextOperator::NotEquals(v) => operand_param(v, ctx, k, text_lit(v)),
        TextOperator::IsNull(_) => Seq::empty(),
    }
}

pub open spec fn text_error(op: TextOperator, ctx: QueryContext) -> Option<QueryErrorKind> {
    match op {
        TextOperator::Equals(v) => operand_error(v, ctx),
        TextOperator::NotEquals(v) => operand_error(v, ctx),
        _ => None,
    }
}

/// `any`/`all` of the tokens of a list field, tested against an operand list.
pub open spec fn quant(
    q: Seq<char>,
    f: Seq<char>,
    test: Seq<char>,
    v: PropertyValue<Vec<String>>,
    k: nat,
) -> Seq<char> {
    q + prop(f) + test + operand_text(v, k) + ")"@
}

pub open spec fn enum_text(f: Seq<char>, op: EnumOperator, k: nat) -> Seq<char> {
    match op {
        EnumOperator::AnyIn(v) => quant("any(x IN "@, f, " WHERE x IN "@, v, k),
        EnumOperator::AllIn(v) => quant("all(x IN "@, f, " WHERE x IN "@, v, k),
        EnumOperator::AnyNotIn(v) => quant("any(x IN "@, f, " WHERE NOT x IN "@, v, k),
        EnumOperator::AllNotIn(v) => quant("all(x IN "@, f, " WHERE NOT x IN "@, v, k),
        EnumOperator::IsNull(b) => null_text(f, b),
    }
}

pub open spec fn enum_params(op: EnumOperator, ctx: QueryContext, k: nat) -> Seq<ParamEntry> {
    match op {
        EnumOperator::AnyIn(v) => operand_param(v, ctx, k, list_lit(v)),
        EnumOperator::AllIn(v) => operand_param(v, ctx, k, list_lit(v)),
        EnumOperator::AnyNotIn(v) => operand_param(v, ctx, k, list_lit(v)),
        EnumOperator::AllNotIn(v) => operand_param(v, ctx, k, list_lit(v)),
        EnumOperator::IsNull(_) => Seq::empty(),
    }
}

pub open spec fn enum_error(op: EnumOperator, ctx: QueryContext) -> Option<QueryErrorKind> {
    match op {
        EnumOperator::AnyIn(v) => operand_error(v, ctx),
        EnumOperator::AllIn(v) => operand_error(v, ctx),
        EnumOperator::AnyNotIn(v) => operand_error(v, ctx),
        EnumOperator::AllNotIn(v) => operand_error(v, ctx),
        EnumOperator::IsNull(_) => None,
    }
}

/// The hops of a link path, with an anonymous card between two hops.
pub open spec fn hops_text(s: Seq<LinkDescriptor>) -> Seq<char>
    decreases s.len(),
{
    if s.len() == 0 {
        Seq::empty()
    } else if s.len() == 1 {
        hop(s[0])
    } else {
        hops_text(s.drop_last()) + "(:Card {org_id: $tenant_id})"@ + hop(s.last())
    }
}

/// The ids of the cards of the context's tenant linked to `n` under `d`.
pub open spec fn linked(d: LinkDescriptor) -> Seq<char> {
    "[(n)"@ + hop(d) + "(m:Card {org_id: $tenant_id}) | m.id]"@
}

/// The ids an operand of a link predicate stands for; referenced cards are those of the
/// context's tenant.
pub open spec fn link_operand_text(v: LinkValue, k: nat) -> Seq<char> {
    match v {
        LinkValue::StaticValue(_) => pref(k),
        LinkValue::ReferValue(_, descs) => if descs@.len() == 0 {
            "[(t:Card {id: "@ + pref(k) + ", org_id: $tenant_id}) | t.id]"@
        } else {
            "[(s:Card {id: "@ + pref(k) + ", org_id: $tenant_id})"@ + hops_text(descs@) + "(t:Card {org_id: $tenant_id}) | t.id]"@
        },
    }
}

pub open spec fn link_param(v: LinkValue, ctx: QueryContext, k: nat) -> Seq<ParamEntry> {
    match v {
        LinkValue::StaticValue(ids) => seq![(pname(k), ParamValueView::List(strs_view(ids@)))],
        LinkValue::ReferValue(p, _) => seq![
            (pname(k), ParamValueView::Text(resolve(p, ctx)->Ok_0)),
        ],
    }
}

pub open spec fn link_value_error(v: LinkValue, ctx: QueryContext) -> Option<QueryErrorKind> {
    match v {
        LinkValue::StaticValue(_) => None,
        LinkValue::ReferValue(p, _) => point_error(p, ctx),
    }
}

pub open spec fn link_quant(
    q: Seq<char>,
    d: LinkDescriptor,
    test: Seq<char>,
    v: LinkValue,
    k: nat,
) -> Seq<char> {
    q + linked(d) + test + link_operand_text(v, k) + ")"@
}

pub open spec fn link_text(d: LinkDescriptor, op: LinkOperator, k: nat) -> Seq<char> {
    match op {
        LinkOperator::AnyIn(v) => link_quant("any(x IN "@, d, " WHERE x IN "@, v, k),
        LinkOperator::AllIn(v) => link_quant("all(x IN "@, d, " WHERE x IN "@, v, k),
        LinkOperator::AnyNotIn(v) => link_quant("any(x IN "@, d, " WHERE NOT x IN "@, v, k),
        LinkOperator::AllNotIn(v) => link_quant("all(x IN "@, d, " WHERE NOT x IN "@, v, k),
        LinkOperator::IsNull(b) => "size("@ + linked(d) + if b {
            ") = 0"@
        } else {
            ") > 0"@
        },
    }
}

pub open spec fn link_params(op: LinkOperator, ctx: QueryContext, k: nat) -> Seq<ParamEntry> {
    match op {
        LinkOperator::AnyIn(v) => link_param(v, ctx, k),
        LinkOperator::AllIn(v) => link_param(v, ctx, k),
        LinkOperator::AnyNotIn(v) => link_param(v, ctx, k),
        LinkOperator::AllNotIn(v) => link_param(v, ctx, k),
        LinkOperator::IsNull(_) => Seq::empty(),
    }
}

pub open spec fn link_error(op: LinkOperator, ctx: QueryContext) -> Option<QueryErrorKind> {
    match op {
        LinkOperator::AnyIn(v) => link_value_error(v, ctx),
        LinkOperator::AllIn(v) => link_value_error(v, ctx),
        LinkOperator::AnyNotIn(v) => link_value_error(v, ctx),
        LinkOperator::AllNotIn(v) => link_value_error(v, ctx),
        LinkOperator::IsNull(_) => None,
    }
}

/// The predicate an item compiles to, its parameters numbered from `k`.
#[verifier::opaque]
pub open spec fn item_text(item: ConditionItem, k: nat) -> Seq<char> {
    match item {
        ConditionItem::CardType(CardTypeOperator::AnyIn(_)) => "n.card_type_id IN "@ + pref(k),
        ConditionItem::State(_) => "n.state = "@ + pref(k),
        ConditionItem::Status(_) => "(n.flow_id = "@ + pref(k) + " AND n.flow_status_id = "@
            + pref(k + 1) + ")"@,
        ConditionItem::Code(_) => "n.code = "@ + pref(k),
        ConditionItem::Title(_) => "n.name CONTAINS "@ + pref(k),
        ConditionItem::Text(f, op) => text_text(f@, op, k),
        ConditionItem::Number(f, op) => number_text(f@, op, k),
        ConditionItem::Enum(f, op) => enum_text(f@, op, k),
        ConditionItem::Date(f, op) => date_text(f@, op, k),
        ConditionItem::Link(d, op) => link_text(d, op, k),
    }
}

/// The parameters an item binds, numbered from `k`.
#[verifier::opaque]
pub open spec fn item_params(item: ConditionItem, ctx: QueryContext, k: nat) -> Seq<ParamEntry> {
    match item {
        ConditionItem::CardType(CardTypeOperator::AnyIn(ids)) => seq![
            (pname(k), ParamValueView::List(strs_view(ids@))),
        ],
        ConditionItem::State(s) => seq![(pname(k), ParamValueView::Text(state_name(s)))],
        ConditionItem::Status(fs) => seq![
            (pname(k), ParamValueView::Text(fs.flow_id@)),
            (pname(k + 1), ParamValueView::Text(fs.flow_status_id@)),
        ],
        ConditionItem::Code(c) => seq![(pname(k), ParamValueView::Text(c@))],
        ConditionItem::Title(t) => seq![(pname(k), ParamValueView::Text(t@))],
        ConditionItem::Text(_, op) => text_params(op, ctx, k),
        ConditionItem::Number(_, op) => number_params(op, ctx, k),
        ConditionItem::Enum(_, op) => enum_params(op, ctx, k),
        ConditionItem::Date(_, op) => date_params(op, ctx, k),
        ConditionItem::Link(_, op) => link_params(op, ctx, k),
    }
}

/// Why an item cannot be compiled in a context: a reference that does not resolve.
#[verifier::opaque]
pub open spec fn item_error(item: ConditionItem, ctx: QueryContext) -> Option<QueryErrorKind> {
    match item {
        ConditionItem::Text(_, op) => text_error(op, ctx),
        ConditionItem::Number(_, op) => number_error(op, ctx),
        ConditionItem::Enum(_, op) => enum_error(op, ctx),
        ConditionItem::Date(_, op) => date_error(op, ctx),
        ConditionItem::Link(_, op) => link_error(op, ctx),
        _ => None,
    }
}

// ---- sequences of items, groups and bulks ----

/// The parameters of a sequence of items, numbered from `k`.
#[verifier::opaque]
pub open spec fn items_params(s: Seq<ConditionItem>, ctx: QueryContext, k: nat) -> Seq<ParamEntry>
    decreases s.len(),
{
    if s.len() == 0 {
        Seq::empty()
    } else {
        let pre = items_params(s.drop_last(), ctx, k);
        pre + item_params(s.last(), ctx, k + pre.len())
    }
}

/// The first error among a sequence of items.
#[verifier::opaque]
pub open spec fn items_error(s: Seq<ConditionItem>, ctx: QueryContext) -> Option<QueryErrorKind>
    decreases s.len(),
{
    if s.len() == 0 {
        None
    } else {
        first_err(item_error(s[0], ctx), items_error(s.drop_first(), ctx))
    }
}

/// `" AND item"` for each item.
#[verifier::opaque]
pub open spec fn and_items_text(s: Seq<ConditionItem>, ctx: QueryContext, k: nat) -> Seq<char>
    decreases s.len(),
{
    if s.len() == 0 {
        Seq::empty()
    } else {
        and_items_text(s.drop_last(), ctx, k) + " AND "@ + item_text(
            s.last(),
            k + items_params(s.drop_last(), ctx, k).len(),
        )
    }
}

/// The items joined by `" OR "`.
#[verifier::opaque]
pub open spec fn or_items_text(s: Seq<ConditionItem>, ctx: QueryContext, k: nat) -> Seq<char>
    decreases s.len(),
{
    if s.len() == 0 {
        Seq::empty()
    } else if s.len() == 1 {
        item_text(s[0], k)
    } else {
        or_items_text(s.drop_last(), ctx, k) + " OR "@ + item_text(
            s.last(),
            k + items_params(s.drop_last(), ctx, k).len(),
        )
    }
}

/// A disjunction; an empty one holds of no card.
pub open spec fn group_text(s: Seq<ConditionItem>, ctx: QueryContext, k: nat) -> Seq<char> {
    if s.len() == 0 {
        "false"@
    } else {
        "("@ + or_items_text(s, ctx, k) + ")"@
    }
}

#[verifier::opaque]
pub open spec fn groups_params(
    s: Seq<LogicConditionGroup>,
    ctx: QueryContext,
    k: nat,
) -> Seq<ParamEntry>
    decreases s.len(),
{
    if s.len() == 0 {
        Seq::empty()
    } else {
        let pre = groups_params(s.drop_last(), ctx, k);
        pre + items_params(s.last().spec_items(), ctx, k + pre.len())
    }
}

#[verifier::opaque]
pub open spec fn groups_error(s: Seq<LogicConditionGroup>, ctx: QueryContext) -> Option<
    QueryErrorKind,
>
    decreases s.len(),
{
    if s.len() == 0 {
        None
    } else {
        first_err(items_error(s[0].spec_items(), ctx), groups_error(s.drop_first(), ctx))
    }
}

/// The groups joined by `" AND "`.
#[verifier::opaque]
pub open spec fn and_groups_text(s: Seq<LogicConditionGroup>, ctx: QueryContext, k: nat) -> Seq<
    char,
>
    decreases s.len(),
{
    if s.len() == 0 {
        Seq::empty()
    } else if s.len() == 1 {
        group_text(s[0].spec_items(), ctx, k)
    } else {
        and_groups_text(s.drop_last(), ctx, k) + " AND "@ + group_text(
            s.last().spec_items(),
            ctx,
            k + groups_params(s.drop_last(), ctx, k).len(),
        )
    }
}

/// A conjunction of groups; an empty one holds of every card.
pub open spec fn bulk_text(s: Seq<LogicConditionGroup>, ctx: QueryContext, k: nat) -> Seq<char> {
    if s.len() == 0 {
        "true"@
    } else {
        "("@ + and_groups_text(s, ctx, k) + ")"@
    }
}

#[verifier::opaque]
pub open spec fn bulks_params(s: Seq<LogicConditionBulk>, ctx: QueryContext, k: nat) -> Seq<
    ParamEntry,
>
    decreases s.len(),
{
    if s.len() == 0 {
        Seq::empty()
    } else {
        let pre = bulks_params(s.drop_last(), ctx, k);
        pre + groups_params(s.last().spec_groups(), ctx, k + pre.len())
    }
}

#[verifier::opaque]
pub open spec fn bulks_error(s: Seq<LogicConditionBulk>, ctx: QueryContext) -> Option<
    QueryErrorKind,
>
    decreases s.len(),
{
    if s.len() == 0 {
        None
    } else {
        first_err(groups_error(s[0].spec_groups(), ctx), bulks_error(s.drop_first(), ctx))
    }
}

/// `" AND bulk"` for each bulk.
#[verifier::opaque]
pub open spec fn and_bulks_text(s: Seq<LogicConditionBulk>, ctx: QueryContext, k: nat) -> Seq<
    char,
>
    decreases s.len(),
{
    if s.len() == 0 {
        Seq::empty()
    } else {
        and_bulks_text(s.drop_last(), ctx, k) + " AND "@ + bulk_text(
            s.last().spec_groups(),
            ctx,
            k + bulks_params(s.drop_last(), ctx, k).len(),
        )
    }
}

// ---- the whole query ----

/// The scope every query starts from: the cards of the context's tenant.
pub open spec fn tenant_scope() -> Seq<char> {
    "MATCH (n:Card) WHERE n.org_id = $tenant_id"@
}

/// What follows the tenant scope: `" AND conjunct"` for each item and each bulk.
pub open spec fn conjuncts_text(c: Condition, ctx: QueryContext) -> Seq<char> {
    and_items_text(c.spec_items(), ctx, 0) + and_bulks_text(
        c.spec_bulks(),
        ctx,
        items_params(c.spec_items(), ctx, 0).len(),
    )
}

pub open spec fn condition_params(c: Condition, ctx: QueryContext) -> Seq<ParamEntry> {
    let ip = items_params(c.spec_items(), ctx, 0);
    ip + bulks_params(c.spec_bulks(), ctx, ip.len())
}

pub open spec fn condition_error(c: Condition, ctx: QueryContext) -> Option<QueryErrorKind> {
    first_err(items_error(c.spec_items(), ctx), bulks_error(c.spec_bulks(), ctx))
}

pub open spec fn sort_text(s: Sort) -> Seq<char> {
    match s {
        Sort::Asc(f) => prop(f@) + " ASC"@,
        Sort::Desc(f) => prop(f@) + " DESC"@,
    }
}

pub open spec fn page_text(p: Page) -> Seq<char> {
    match p {
        Page::Limit(..) => " SKIP $skip LIMIT $limit"@,
        Page::LimitAfterSort(s, _, _) => " ORDER BY "@ + sort_text(s) + " SKIP $skip LIMIT $limit"@,
        Page::Unbounded => Seq::empty(),
    }
}

pub open spec fn page_params(p: Page) -> Seq<ParamEntry> {
    match p {
        Page::Limit(o, s) => seq![
            ("skip"@, ParamValueView::Int(o as int)),
            ("limit"@, ParamValueView::Int(s as int)),
        ],
        Page::LimitAfterSort(_, o, s) => seq![
            ("skip"@, ParamValueView::Int(o as int)),
            ("limit"@, ParamValueView::Int(s as int)),
        ],
        Page::Unbounded => Seq::empty(),
    }
}

pub open spec fn query_text(c: Condition, ctx: QueryContext, p: Page) -> Seq<char> {
    tenant_scope() + conjuncts_text(c, ctx) + " RETURN n"@ + page_text(p)
}

pub open spec fn count_text(c: Condition, ctx: QueryContext) -> Seq<char> {
    tenant_scope() + conjuncts_text(c, ctx) + " RETURN count(n) AS total"@
}

pub open spec fn query_params(c: Condition, ctx: QueryContext, p: Page) -> Seq<ParamEntry> {
    seq![("tenant_id"@, ParamValueView::Text(ctx.spec_tenant_id()))] + condition_params(c, ctx)
        + page_params(p)
}

} // verus!
