//! Compilation of a condition, a query context and a page into one parameterized
//! graph query. Every literal travels as a bound parameter; names of fields and
//! relationships are quoted between backticks.
use vstd::prelude::*;

pub use crate::params::{ParamValue, QueryParam};

use crate::ids::FieldId;
use crate::params::{clone_strings, params_view, ParamEntry, ParamValueView};
use crate::query::{
    CardTypeOperator, Condition, ConditionItem, DateOperator, EnumOperator, LinkOperator,
    LinkValue, LogicConditionBulk, LogicConditionGroup, NumberOperator, Page, PropertyValue,
    QueryContext, QueryError, QueryErrorKind, ReferPoint, Sort, TextOperator,
};
use crate::query_text::{
    and_bulks_text, and_groups_text, and_items_text, between, bulk_text, bulks_error,
    bulks_params, cmp, condition_error, condition_params, conjuncts_text, count_text,
    date_error, date_params, date_text, enum_error, enum_params, enum_text, first_err,
    group_text, groups_error, groups_params, hop, hops_text, int_lit, item_error, item_params,
    item_text, items_error, items_params, link_error, link_operand_text, link_param,
    link_params, link_quant, link_text, link_value_error, linked, list_lit, null_text,
    number_error, number_params, number_text, operand_error, operand_param, operand_text,
    or_items_text, page_params, page_text, path_text, pname, pref, prop, quant, query_params,
    query_text, quoted, resolve, tenant_scope, text_error, text_lit, text_params, text_text,
    uint_lit,
};
use crate::text::{push_decimal, push_quoted, push_str};
use crate::types::{LinkDescriptor, Path};

verus! {

/// The query for one page of matching cards, the query that counts them all,
/// and the parameters both are run with.
#[derive(Debug)]
pub struct CompiledQuery {
    pub text: String,
    pub count_text: String,
    pub params: Vec<QueryParam>,
}

fn push_param(params: &mut Vec<QueryParam>, name: String, value: ParamValue)
    ensures
        params_view(final(params)@) == params_view(old(params)@).push((name@, value@)),
        final(params)@.len() == old(params)@.len() + 1,
{
    let ghost entry = (name@, value@);
    params.push(QueryParam { name, value });
    assert(params_view(params@) =~= params_view(old(params)@).push(entry));
}

fn param_name(k: usize) -> (r: String)
    ensures
        r@ == pname(k as nat),
{
    let mut s = String::new();
    push_str(&mut s, "v");
    push_decimal(&mut s, k);
    assert(s@ =~= pname(k as nat));
    s
}

fn push_pref(out: &mut String, k: usize)
    ensures
        final(out)@ == old(out)@ + pref(k as nat),
{
    push_str(out, "$v");
    push_decimal(out, k);
    assert(out@ =~= old(out)@ + pref(k as nat));
}

fn push_prop(out: &mut String, f: &FieldId)
    ensures
        final(out)@ == old(out)@ + prop(f@),
{
    push_str(out, "n.");
    push_quoted(out, f.as_str());
    assert(out@ =~= old(out)@ + prop(f@));
}

fn push_hop(out: &mut String, d: &LinkDescriptor)
    ensures
        final(out)@ == old(out)@ + hop(*d),
{
    match d {
        LinkDescriptor::Src(r) => {
            push_str(out, "-[:");
            push_quoted(out, r.as_str());
            push_str(out, "]->");
        },
        LinkDescriptor::Dest(r) => {
            push_str(out, "<-[:");
            push_quoted(out, r.as_str());
            push_str(out, "]-");
        },
    }
    assert(out@ =~= old(out)@ + hop(*d));
}

fn push_path(out: &mut String, p: &Path)
    ensures
        final(out)@ == old(out)@ + path_text(*p),
    decreases p,
{
    match p {
        Path::Segment(d, rest) => {
            push_hop(out, d);
            let rest: &Path = rest;
            if !rest.is_nil() {
                push_str(out, "(:Card {org_id: $tenant_id})");
            }
            push_path(out, rest);
        },
        Path::Nil => {},
    }
    assert(out@ =~= old(out)@ + path_text(*p));
}

fn push_hops(out: &mut String, descs: &Vec<LinkDescriptor>)
    ensures
        final(out)@ == old(out)@ + hops_text(descs@),
{
    let n = descs.len();
    let mut i: usize = 0;
    while i < n
        invariant
            n == descs@.len(),
            i <= n,
            out@ == old(out)@ + hops_text(descs@.subrange(0, i as int)),
        decreases n - i,
    {
        proof {
            assert(descs@.subrange(0, i + 1).drop_last() =~= descs@.subrange(0, i as int));
        }
        if i > 0 {
            push_str(out, "(:Card {org_id: $tenant_id})");
        }
        push_hop(out, &descs[i]);
        i = i + 1;
        assert(out@ =~= old(out)@ + hops_text(descs@.subrange(0, i as int)));
    }
    assert(descs@.subrange(0, n as int) =~= descs@);
}

/// The card id a reference point stands for.
fn resolve_point(point: &ReferPoint, ctx: &QueryContext) -> (r: Result<String, QueryError>)
    ensures
        match resolve(*point, *ctx) {
            Ok(id) => r matches Ok(s) && s@ == id,
            Err(e) => r matches Err(err) && err.spec_kind() == e,
        },
{
    match point {
        ReferPoint::CurrentMember => Ok(ctx.member_id().to_owned()),
        ReferPoint::CurrentCard => Err(
            QueryError::with_kind(QueryErrorKind::BrokenReferPoint, "no current card"),
        ),
        ReferPoint::Parameter(name) => match ctx.parameter(name.as_str()) {
            Some(v) => Ok(v.to_owned()),
            None => Err(QueryError::with_kind(QueryErrorKind::UnknownParameter, name.as_str())),
        },
    }
}

fn int_value(v: &PropertyValue<i64>) -> (r: ParamValue)
    ensures
        r@ == int_lit(*v),
{
    match v {
        PropertyValue::StaticValue(x) => ParamValue::Int(*x),
        PropertyValue::ReferValue(..) => ParamValue::Int(0),
    }
}

fn uint_value(v: &PropertyValue<u64>) -> (r: ParamValue)
    ensures
        r@ == uint_lit(*v),
{
    match v {
        PropertyValue::StaticValue(x) => ParamValue::UInt(*x),
        PropertyValue::ReferValue(..) => ParamValue::Int(0),
    }
}

fn text_value(v: &PropertyValue<String>) -> (r: ParamValue)
    ensures
        r@ == text_lit(*v),
{
    match v {
        PropertyValue::StaticValue(s) => ParamValue::Text(s.clone()),
        PropertyValue::ReferValue(..) => ParamValue::Int(0),
    }
}

fn list_value(v: &PropertyValue<Vec<String>>) -> (r: ParamValue)
    ensures
        r@ == list_lit(*v),
{
    match v {
        PropertyValue::StaticValue(l) => ParamValue::List(clone_strings(l)),
        PropertyValue::ReferValue(..) => ParamValue::Int(0),
    }
}

/// Appends a parameter reference with its literal, or a referenced value with the
/// id of the card it starts from.
fn push_operand<T>(
    out: &mut String,
    params: &mut Vec<QueryParam>,
    ctx: &QueryContext,
    v: &PropertyValue<T>,
    lit: ParamValue,
) -> (r: Result<(), QueryError>)
    ensures
        match operand_error(*v, *ctx) {
            Some(e) => r matches Err(err) && err.spec_kind() == e,
            None => r is Ok && final(out)@ == old(out)@ + operand_text(*v, old(params)@.len())
                && params_view(final(params)@) == params_view(old(params)@) + operand_param(
                *v,
                *ctx,
                old(params)@.len(),
                lit@,
            ),
        },
{
    let k = params.len();
    match v {
        PropertyValue::StaticValue(_) => {
            push_pref(out, k);
            push_param(params, param_name(k), lit);
        },
        PropertyValue::ReferValue(point, path, field) => {
            let id = match resolve_point(point, ctx) {
                Ok(id) => id,
                Err(e) => {
                    return Err(e);
                },
            };
            push_str(out, "head([");
            if path.is_nil() {
                push_str(out, "(t:Card {id: ");
                push_pref(out, k);
                push_str(out, ", org_id: $tenant_id})");
            } else {
                push_str(out, "(s:Card {id: ");
                push_pref(out, k);
                push_str(out, ", org_id: $tenant_id})");
                push_path(out, path);
                push_str(out, "(t:Card {org_id: $tenant_id})");
            }
            push_str(out, " | t.");
            push_quoted(out, field.as_str());
            push_str(out, "])");
            push_param(params, param_name(k), ParamValue::Text(id));
        },
    }
    assert(out@ =~= old(out)@ + operand_text(*v, k as nat));
    assert(params_view(params@) =~= params_view(old(params)@) + operand_param(
        *v,
        *ctx,
        k as nat,
        lit@,
    ));
    Ok(())
}

/// Appends `prop op operand`.
fn push_cmp<T>(
    out: &mut String,
    params: &mut Vec<QueryParam>,
    ctx: &QueryContext,
    f: &FieldId,
    op: &str,
    v: &PropertyValue<T>,
    lit: ParamValue,
) -> (r: Result<(), QueryError>)
    ensures
        match operand_error(*v, *ctx) {
            Some(e) => r matches Err(err) && err.spec_kind() == e,
            None => r is Ok && final(out)@ == old(out)@ + cmp(f@, op@, *v, old(params)@.len())
                && params_view(final(params)@) == params_view(old(params)@) + operand_param(
                *v,
                *ctx,
                old(params)@.len(),
                lit@,
            ),
        },
{
    push_prop(out, f);
    push_str(out, op);
    let r = push_operand(out, params, ctx, v, lit);
    assert(r is Ok ==> out@ =~= old(out)@ + cmp(f@, op@, *v, old(params)@.len()));
    r
}

/// Appends `(prop lo a join prop hi b)`.
fn push_between<T>(
    out: &mut String,
    params: &mut Vec<QueryParam>,
    ctx: &QueryContext,
    f: &FieldId,
    lo: &str,
    join: &str,
    hi: &str,
    a: &PropertyValue<T>,
    b: &PropertyValue<T>,
    la: ParamValue,
    lb: ParamValue,
) -> (r: Result<(), QueryError>)
    ensures
        match first_err(operand_error(*a, *ctx), operand_error(*b, *ctx)) {
            Some(e) => r matches Err(err) && err.spec_kind() == e,
            None => r is Ok && final(out)@ == old(out)@ + between(
                f@,
                lo@,
                join@,
                hi@,
                *a,
                *b,
                old(params)@.len(),
            ) && params_view(final(params)@) == params_view(old(params)@) + operand_param(
                *a,
                *ctx,
                old(params)@.len(),
                la@,
            ) + operand_param(*b, *ctx, old(params)@.len() + 1, lb@),
        },
{
    let ghost k = old(params)@.len();
    let ghost lav = la@;
    let ghost lbv = lb@;
    push_str(out, "(");
    match push_cmp(out, params, ctx, f, lo, a, la) {
        Ok(()) => {},
        Err(e) => {
            return Err(e);
        },
    }
    let ghost mid = out@;
    push_str(out, join);
    match push_cmp(out, params, ctx, f, hi, b, lb) {
        Ok(()) => {},
        Err(e) => {
            return Err(e);
        },
    }
    push_str(out, ")");
    assert(out@ =~= old(out)@ + between(f@, lo@, join@, hi@, *a, *b, k));
    assert(params_view(params@) =~= params_view(old(params)@) + operand_param(*a, *ctx, k, lav)
        + operand_param(*b, *ctx, k + 1, lbv));
    Ok(())
}

fn push_null(out: &mut String, f: &FieldId, b: bool)
    ensures
        final(out)@ == old(out)@ + null_text(f@, b),
{
    push_prop(out, f);
    if b {
        push_str(out, " IS NULL");
    } else {
        push_str(out, " IS NOT NULL");
    }
    assert(out@ =~= old(out)@ + null_text(f@, b));
}

fn push_number(
    out: &mut String,
    params: &mut Vec<QueryParam>,
    ctx: &QueryContext,
    f: &FieldId,
    op: &NumberOperator,
) -> (r: Result<(), QueryError>)
    ensures
        match number_error(*op, *ctx) {
            Some(e) => r matches Err(err) && err.spec_kind() == e,
            None => r is Ok && final(out)@ == old(out)@ + number_text(f@, *op, old(params)@.len())
                && params_view(final(params)@) == params_view(old(params)@) + number_params(
                *op,
                *ctx,
                old(params)@.len(),
            ),
        },
{
    match op {
        NumberOperator::LessThan(v) => push_cmp(out, params, ctx, f, " < ", v, int_value(v)),
        NumberOperator::GreaterThan(v) => push_cmp(out, params, ctx, f, " > ", v, int_value(v)),
        NumberOperator::LessThanOrEqualTo(v) => push_cmp(
            out,
            params,
            ctx,
            f,
            " <= ",
            v,
            int_value(v),
        ),
        NumberOperator::GreaterThanOrEqualTo(v) => push_cmp(
            out,
            params,
            ctx,
            f,
            " >= ",
            v,
            int_value(v),
        ),
        NumberOperator::Between(a, b) => push_between(
            out,
            params,
            ctx,
            f,
            " >= ",
            " AND ",
            " <= ",
            a,
            b,
            int_value(a),
            int_value(b),
        ),
        NumberOperator::NotBetween(a, b) => push_between(
            out,
            params,
            ctx,
            f,
            " < ",
            " OR ",
            " > ",
            a,
            b,
            int_value(a),
            int_value(b),
        ),
        NumberOperator::Equals(v) => push_cmp(out, params, ctx, f, " = ", v, int_value(v)),
        NumberOperator::NotEquals(v) => push_cmp(out, params, ctx, f, " <> ", v, int_value(v)),
        NumberOperator::IsNull(b) => {
            push_null(out, f, *b);
            assert(params_view(params@) =~= params_view(old(params)@) + Seq::<ParamEntry>::empty());
            Ok(())
        },
    }
}

fn push_date(
    out: &mut String,
    params: &mut Vec<QueryParam>,
    ctx: &QueryContext,
    f: &FieldId,
    op: &DateOperator,
) -> (r: Result<(), QueryError>)
    ensures
        match date_error(*op, *ctx) {
            Some(e) => r matches Err(err) && err.spec_kind() == e,
            None => r is Ok && final(out)@ == old(out)@ + date_text(f@, *op, old(params)@.len())
                && params_view(final(params)@) == params_view(old(params)@) + date_params(
                *op,
                *ctx,
                old(params)@.len(),
            ),
        },
{
    match op {
        DateOperator::After(v) => push_cmp(out, params, ctx, f, " > ", v, uint_value(v)),
        DateOperator::Before(v) => push_cmp(out, params, ctx, f, " < ", v, uint_value(v)),
        DateOperator::Equals(v) => push_cmp(out, params, ctx, f, " = ", v, uint_value(v)),
        DateOperator::NotEquals(v) => push_cmp(out, params, ctx, f, " <> ", v, uint_value(v)),
        DateOperator::Between(a, b) => push_between(
            out,
            params,
            ctx,
            f,
            " >= ",
            " AND ",
            " <= ",
            a,
            b,
            uint_value(a),
            uint_value(b),
        ),
        DateOperator::NotBetween(a, b) => push_between(
            out,
            params,
            ctx,
            f,
            " < ",
            " OR ",
            " > ",
            a,
            b,
            uint_value(a),
            uint_value(b),
        ),
        DateOperator::IsNull(b) => {
            push_null(out, f, *b);
            assert(params_view(params@) =~= params_view(old(params)@) + Seq::<ParamEntry>::empty());
            Ok(())
        },
    }
}

/// Appends `prop op $vk` and binds the text to parameter `k`.
fn push_text_literal(
    out: &mut String,
    params: &mut Vec<QueryParam>,
    f: &FieldId,
    negate: bool,
    op: &str,
    s: &String,
)
    ensures
        final(out)@ == old(out)@ + (if negate {
            "NOT "@
        } else {
            Seq::empty()
        }) + prop(f@) + op@ + pref(old(params)@.len()),
        params_view(final(params)@) == params_view(old(params)@).push(
            (pname(old(params)@.len()), ParamValueView::Text(s@)),
        ),
{
    let k = params.len();
    if negate {
        push_str(out, "NOT ");
    }
    push_prop(out, f);
    push_str(out, op);
    push_pref(out, k);
    push_param(params, param_name(k), ParamValue::Text(s.clone()));
    assert(out@ =~= old(out)@ + (if negate {
        "NOT "@
    } else {
        Seq::empty()
    }) + prop(f@) + op@ + pref(k as nat));
}

fn push_text(
    out: &mut String,
    params: &mut Vec<QueryParam>,
    ctx: &QueryContext,
    f: &FieldId,
    op: &TextOperator,
) -> (r: Result<(), QueryError>)
    ensures
        match text_error(*op, *ctx) {
            Some(e) => r matches Err(err) && err.spec_kind() == e,
            None => r is Ok && final(out)@ == old(out)@ + text_text(f@, *op, old(params)@.len())
                && params_view(final(params)@) == params_view(old(params)@) + text_params(
                *op,
                *ctx,
                old(params)@.len(),
            ),
        },
{
    let ghost k = old(params)@.len();
    match op {
        TextOperator::StartsWith(s) => {
            push_text_literal(out, params, f, false, " STARTS WITH ", s);
            assert(out@ =~= old(out)@ + text_text(f@, *op, k));
            assert(params_view(params@) =~= params_view(old(params)@) + text_params(*op, *ctx, k));
            Ok(())
        },
        TextOperator::Contains(s) => {
            push_text_literal(out, params, f, false, " CONTAINS ", s);
            assert(out@ =~= old(out)@ + text_text(f@, *op, k));
            assert(params_view(params@) =~= params_view(old(params)@) + text_params(*op, *ctx, k));
            Ok(())
        },
        TextOperator::NotContains(s) => {
            push_text_literal(out, params, f, true, " CONTAINS ", s);
            assert(out@ =~= old(out)@ + text_text(f@, *op, k));
            assert(params_view(params@) =~= params_view(old(params)@) + text_params(*op, *ctx, k));
            Ok(())
        },
        TextOperator::Equals(v) => push_cmp(out, params, ctx, f, " = ", v, text_value(v)),
        TextOperator::NotEquals(v) => push_cmp(out, params, ctx, f, " <> ", v, text_value(v)),
        TextOperator::IsNull(b) => {
            push_null(out, f, *b);
            assert(params_view(params@) =~= params_view(old(params)@) + Seq::<ParamEntry>::empty());
            Ok(())
        },
    }
}

/// Appends `q prop test operand)`.
fn push_quant(
    out: &mut String,
    params: &mut Vec<QueryParam>,
    ctx: &QueryContext,
    q: &str,
    f: &FieldId,
    test: &str,
    v: &PropertyValue<Vec<String>>,
) -> (r: Result<(), QueryError>)
    ensures
        match operand_error(*v, *ctx) {
            Some(e) => r matches Err(err) && err.spec_kind() == e,
            None => r is Ok && final(out)@ == old(out)@ + quant(
                q@,
                f@,
                test@,
                *v,
                old(params)@.len(),
            ) && params_view(final(params)@) == params_view(old(params)@) + operand_param(
                *v,
                *ctx,
                old(params)@.len(),
                list_lit(*v),
            ),
        },
{
    let ghost k = old(params)@.len();
    push_str(out, q);
    push_prop(out, f);
    push_str(out, test);
    match push_operand(out, params, ctx, v, list_value(v)) {
        Ok(()) => {},
        Err(e) => {
            return Err(e);
        },
    }
    push_str(out, ")");
    assert(out@ =~= old(out)@ + quant(q@, f@, test@, *v, k));
    Ok(())
}

fn push_enum(
    out: &mut String,
    params: &mut Vec<QueryParam>,
    ctx: &QueryContext,
    f: &FieldId,
    op: &EnumOperator,
) -> (r: Result<(), QueryError>)
    ensures
        match enum_error(*op, *ctx) {
            Some(e) => r matches Err(err) && err.spec_kind() == e,
            None => r is Ok && final(out)@ == old(out)@ + enum_text(f@, *op, old(params)@.len())
                && params_view(final(params)@) == params_view(old(params)@) + enum_params(
                *op,
                *ctx,
                old(params)@.len(),
            ),
        },
{
    match op {
        EnumOperator::AnyIn(v) => push_quant(out, params, ctx, "any(x IN ", f, " WHERE x IN ", v),
        EnumOperator::AllIn(v) => push_quant(out, params, ctx, "all(x IN ", f, " WHERE x IN ", v),
        EnumOperator::AnyNotIn(v) => push_quant(
            out,
            params,
            ctx,
            "any(x IN ",
            f,
            " WHERE NOT x IN ",
            v,
        ),
        EnumOperator::AllNotIn(v) => push_quant(
            out,
            params,
            ctx,
            "all(x IN ",
            f,
            " WHERE NOT x IN ",
            v,
        ),
        EnumOperator::IsNull(b) => {
            push_null(out, f, *b);
            assert(params_view(params@) =~= params_view(old(params)@) + Seq::<ParamEntry>::empty());
            Ok(())
        },
    }
}

fn push_linked(out: &mut String, d: &LinkDescriptor)
    ensures
        final(out)@ == old(out)@ + linked(*d),
{
    push_str(out, "[(n)");
    push_hop(out, d);
    push_str(out, "(m:Card {org_id: $tenant_id}) | m.id]");
    assert(out@ =~= old(out)@ + linked(*d));
}

fn push_link_operand(
    out: &mut String,
    params: &mut Vec<QueryParam>,
    ctx: &QueryContext,
    v: &LinkValue,
) -> (r: Result<(), QueryError>)
    ensures
        match link_value_error(*v, *ctx) {
            Some(e) => r matches Err(err) && err.spec_kind() == e,
            None => r is Ok && final(out)@ == old(out)@ + link_operand_text(
                *v,
                old(params)@.len(),
            ) && params_view(final(params)@) == params_view(old(params)@) + link_param(
                *v,
                *ctx,
                old(params)@.len(),
            ),
        },
{
    let k = params.len();
    match v {
        LinkValue::StaticValue(ids) => {
            push_pref(out, k);
            push_param(params, param_name(k), ParamValue::List(clone_strings(ids)));
        },
        LinkValue::ReferValue(point, descs) => {
            let id = match resolve_point(point, ctx) {
                Ok(id) => id,
                Err(e) => {
                    return Err(e);
                },
            };
            if descs.len() == 0 {
                push_str(out, "[(t:Card {id: ");
                push_pref(out, k);
                push_str(out, ", org_id: $tenant_id}) | t.id]");
            } else {
                push_str(out, "[(s:Card {id: ");
                push_pref(out, k);
                push_str(out, ", org_id: $tenant_id})");
                push_hops(out, descs);
                push_str(out, "(t:Card {org_id: $tenant_id}) | t.id]");
            }
            push_param(params, param_name(k), ParamValue::Text(id));
        },
    }
    assert(out@ =~= old(out)@ + link_operand_text(*v, k as nat));
    assert(params_view(params@) =~= params_view(old(params)@) + link_param(*v, *ctx, k as nat));
    Ok(())
}

fn push_link_quant(
    out: &mut String,
    params: &mut Vec<QueryParam>,
    ctx: &QueryContext,
    q: &str,
    d: &LinkDescriptor,
    test: &str,
    v: &LinkValue,
) -> (r: Result<(), QueryError>)
    ensures
        match link_value_error(*v, *ctx) {
            Some(e) => r matches Err(err) && err.spec_kind() == e,
            None => r is Ok && final(out)@ == old(out)@ + link_quant(
                q@,
                *d,
                test@,
                *v,
                old(params)@.len(),
            ) && params_view(final(params)@) == params_view(old(params)@) + link_param(
                *v,
                *ctx,
                old(params)@.len(),
            ),
        },
{
    let ghost k = old(params)@.len();
    push_str(out, q);
    push_linked(out, d);
    push_str(out, test);
    match push_link_operand(out, params, ctx, v) {
        Ok(()) => {},
        Err(e) => {
            return Err(e);
        },
    }
    push_str(out, ")");
    assert(out@ =~= old(out)@ + link_quant(q@, *d, test@, *v, k));
    Ok(())
}

fn push_link(
    out: &mut String,
    params: &mut Vec<QueryParam>,
    ctx: &QueryContext,
    d: &LinkDescriptor,
    op: &LinkOperator,
) -> (r: Result<(), QueryError>)
    ensures
        match link_error(*op, *ctx) {
            Some(e) => r matches Err(err) && err.spec_kind() == e,
            None => r is Ok && final(out)@ == old(out)@ + link_text(*d, *op, old(params)@.len())
                && params_view(final(params)@) == params_view(old(params)@) + link_params(
                *op,
                *ctx,
                old(params)@.len(),
            ),
        },
{
    match op {
        LinkOperator::AnyIn(v) => push_link_quant(
            out,
            params,
            ctx,
            "any(x IN ",
            d,
            " WHERE x IN ",
            v,
        ),
        LinkOperator::AllIn(v) => push_link_quant(
            out,
            params,
            ctx,
            "all(x IN ",
            d,
            " WHERE x IN ",
            v,
        ),
        LinkOperator::AnyNotIn(v) => push_link_quant(
            out,
            params,
            ctx,
            "any(x IN ",
            d,
            " WHERE NOT x IN ",
            v,
        ),
        LinkOperator::AllNotIn(v) => push_link_quant(
            out,
            params,
            ctx,
            "all(x IN ",
            d,
            " WHERE NOT x IN ",
            v,
        ),
        LinkOperator::IsNull(b) => {
            push_str(out, "size(");
            push_linked(out, d);
            if *b {
                push_str(out, ") = 0");
            } else {
                push_str(out, ") > 0");
            }
            assert(out@ =~= old(out)@ + link_text(*d, *op, old(params)@.len()));
            assert(params_view(params@) =~= params_view(old(params)@) + Seq::<ParamEntry>::empty());
            Ok(())
        },
    }
}

/// Appends `fixed $vk` and binds `value` to parameter `k`.
fn push_fixed(out: &mut String, params: &mut Vec<QueryParam>, fixed: &str, value: ParamValue)
    ensures
        final(out)@ == old(out)@ + fixed@ + pref(old(params)@.len()),
        final(params)@.len() == old(params)@.len() + 1,
        params_view(final(params)@) == params_view(old(params)@).push(
            (pname(old(params)@.len()), value@),
        ),
{
    let k = params.len();
    push_str(out, fixed);
    push_pref(out, k);
    push_param(params, param_name(k), value);
    assert(out@ =~= old(out)@ + fixed@ + pref(k as nat));
}

/// Appends the predicate of one item and binds its parameters.
fn push_item(
    out: &mut String,
    params: &mut Vec<QueryParam>,
    ctx: &QueryContext,
    item: &ConditionItem,
) -> (r: Result<(), QueryError>)
    ensures
        match item_error(*item, *ctx) {
            Some(e) => r matches Err(err) && err.spec_kind() == e,
            None => r is Ok && final(out)@ == old(out)@ + item_text(*item, old(params)@.len())
                && params_view(final(params)@) == params_view(old(params)@) + item_params(
                *item,
                *ctx,
                old(params)@.len(),
            ),
        },
{
    reveal(item_text);
    reveal(item_params);
    reveal(item_error);
    let ghost k = old(params)@.len();
    match item {
        ConditionItem::CardType(CardTypeOperator::AnyIn(ids)) => {
            push_fixed(out, params, "n.card_type_id IN ", ParamValue::List(clone_strings(ids)));
            assert(params_view(params@) =~= params_view(old(params)@) + item_params(
                *item,
                *ctx,
                k,
            ));
            Ok(())
        },
        ConditionItem::State(s) => {
            push_fixed(out, params, "n.state = ", ParamValue::Text(s.to_string()));
            assert(params_view(params@) =~= params_view(old(params)@) + item_params(
                *item,
                *ctx,
                k,
            ));
            Ok(())
        },
        ConditionItem::Status(fs) => {
            push_fixed(out, params, "(n.flow_id = ", ParamValue::Text(fs.flow_id.clone()));
            push_fixed(
                out,
                params,
                " AND n.flow_status_id = ",
                ParamValue::Text(fs.flow_status_id.clone()),
            );
            push_str(out, ")");
            assert(out@ =~= old(out)@ + item_text(*item, k));
            assert(params_view(params@) =~= params_view(old(params)@) + item_params(
                *item,
                *ctx,
                k,
            ));
            Ok(())
        },
        ConditionItem::Code(c) => {
            push_fixed(out, params, "n.code = ", ParamValue::Text(c.clone()));
            assert(params_view(params@) =~= params_view(old(params)@) + item_params(
                *item,
                *ctx,
                k,
            ));
            Ok(())
        },
        ConditionItem::Title(t) => {
            push_fixed(out, params, "n.name CONTAINS ", ParamValue::Text(t.clone()));
            assert(params_view(params@) =~= params_view(old(params)@) + item_params(
                *item,
                *ctx,
                k,
            ));
            Ok(())
        },
        ConditionItem::Text(f, op) => push_text(out, params, ctx, f, op),
        ConditionItem::Number(f, op) => push_number(out, params, ctx, f, op),
        ConditionItem::Enum(f, op) => push_enum(out, params, ctx, f, op),
        ConditionItem::Date(f, op) => push_date(out, params, ctx, f, op),
        ConditionItem::Link(d, op) => push_link(out, params, ctx, d, op),
    }
}

proof fn lemma_items_step(s: Seq<ConditionItem>, ctx: QueryContext, k0: nat, i: int)
    requires
        0 <= i < s.len(),
    ensures
        ({
            let pre = s.subrange(0, i);
            let k = k0 + items_params(pre, ctx, k0).len();
            &&& and_items_text(s.subrange(0, i + 1), ctx, k0) == and_items_text(pre, ctx, k0)
                + " AND "@ + item_text(s[i], k)
            &&& or_items_text(s.subrange(0, i + 1), ctx, k0) == (if i == 0 {
                Seq::empty()
            } else {
                or_items_text(pre, ctx, k0) + " OR "@
            }) + item_text(s[i], k)
            &&& items_params(s.subrange(0, i + 1), ctx, k0) == items_params(pre, ctx, k0)
                + item_params(s[i], ctx, k)
            &&& items_error(s.subrange(i, s.len() as int), ctx) == first_err(
                item_error(s[i], ctx),
                items_error(s.subrange(i + 1, s.len() as int), ctx),
            )
        }),
{
    reveal(and_items_text);
    reveal(or_items_text);
    reveal(items_params);
    reveal(items_error);
    let pre = s.subrange(0, i);
    assert(s.subrange(0, i + 1).drop_last() =~= pre);
    assert(s.subrange(i, s.len() as int).drop_first() =~= s.subrange(i + 1, s.len() as int));
    if i == 0 {
        assert(items_params(pre, ctx, k0) =~= Seq::empty());
        assert(or_items_text(s.subrange(0, 1), ctx, k0) =~= Seq::empty() + item_text(s[0], k0));
        assert(items_params(s.subrange(0, 1), ctx, k0) =~= items_params(pre, ctx, k0) + item_params(
            s[0],
            ctx,
            k0,
        ));
    }
}

proof fn lemma_items_empty(ctx: QueryContext, k0: nat)
    ensures
        and_items_text(Seq::empty(), ctx, k0) == Seq::<char>::empty(),
        or_items_text(Seq::empty(), ctx, k0) == Seq::<char>::empty(),
        items_params(Seq::empty(), ctx, k0) == Seq::<ParamEntry>::empty(),
        items_error(Seq::empty(), ctx) == None::<QueryErrorKind>,
{
    reveal(and_items_text);
    reveal(or_items_text);
    reveal(items_params);
    reveal(items_error);
}

proof fn lemma_groups_step(s: Seq<LogicConditionGroup>, ctx: QueryContext, k0: nat, i: int)
    requires
        0 <= i < s.len(),
    ensures
        ({
            let pre = s.subrange(0, i);
            let k = k0 + groups_params(pre, ctx, k0).len();
            &&& and_groups_text(s.subrange(0, i + 1), ctx, k0) == (if i == 0 {
                Seq::empty()
            } else {
                and_groups_text(pre, ctx, k0) + " AND "@
            }) + group_text(s[i].spec_items(), ctx, k)
            &&& groups_params(s.subrange(0, i + 1), ctx, k0) == groups_params(pre, ctx, k0)
                + items_params(s[i].spec_items(), ctx, k)
            &&& groups_error(s.subrange(i, s.len() as int), ctx) == first_err(
                items_error(s[i].spec_items(), ctx),
                groups_error(s.subrange(i + 1, s.len() as int), ctx),
            )
        }),
{
    reveal(and_groups_text);
    reveal(groups_params);
    reveal(groups_error);
    let pre = s.subrange(0, i);
    assert(s.subrange(0, i + 1).drop_last() =~= pre);
    assert(s.subrange(i, s.len() as int).drop_first() =~= s.subrange(i + 1, s.len() as int));
    if i == 0 {
        assert(groups_params(pre, ctx, k0) =~= Seq::empty());
        assert(and_groups_text(s.subrange(0, 1), ctx, k0) =~= Seq::empty() + group_text(
            s[0].spec_items(),
            ctx,
            k0,
        ));
        assert(groups_params(s.subrange(0, 1), ctx, k0) =~= groups_params(pre, ctx, k0)
            + items_params(s[0].spec_items(), ctx, k0));
    }
}

proof fn lemma_groups_empty(ctx: QueryContext, k0: nat)
    ensures
        and_groups_text(Seq::empty(), ctx, k0) == Seq::<char>::empty(),
        groups_params(Seq::empty(), ctx, k0) == Seq::<ParamEntry>::empty(),
        groups_error(Seq::empty(), ctx) == None::<QueryErrorKind>,
{
    reveal(and_groups_text);
    reveal(groups_params);
    reveal(groups_error);
}

proof fn lemma_bulks_step(s: Seq<LogicConditionBulk>, ctx: QueryContext, k0: nat, i: int)
    requires
        0 <= i < s.len(),
    ensures
        ({
            let pre = s.subrange(0, i);
            let k = k0 + bulks_params(pre, ctx, k0).len();
            &&& and_bulks_text(s.subrange(0, i + 1), ctx, k0) == and_bulks_text(pre, ctx, k0)
                + " AND "@ + bulk_text(s[i].spec_groups(), ctx, k)
            &&& bulks_params(s.subrange(0, i + 1), ctx, k0) == bulks_params(pre, ctx, k0)
                + groups_params(s[i].spec_groups(), ctx, k)
            &&& bulks_error(s.subrange(i, s.len() as int), ctx) == first_err(
                groups_error(s[i].spec_groups(), ctx),
                bulks_error(s.subrange(i + 1, s.len() as int), ctx),
            )
        }),
{
    reveal(and_bulks_text);
    reveal(bulks_params);
    reveal(bulks_error);
    let pre = s.subrange(0, i);
    assert(s.subrange(0, i + 1).drop_last() =~= pre);
    assert(s.subrange(i, s.len() as int).drop_first() =~= s.subrange(i + 1, s.len() as int));
}

proof fn lemma_bulks_empty(ctx: QueryContext, k0: nat)
    ensures
        and_bulks_text(Seq::empty(), ctx, k0) == Seq::<char>::empty(),
        bulks_params(Seq::empty(), ctx, k0) == Seq::<ParamEntry>::empty(),
        bulks_error(Seq::empty(), ctx) == None::<QueryErrorKind>,
{
    reveal(and_bulks_text);
    reveal(bulks_params);
    reveal(bulks_error);
}

/// Appends `" AND item"` for each item.
fn push_and_items(
    out: &mut String,
    params: &mut Vec<QueryParam>,
    ctx: &QueryContext,
    s: &Vec<ConditionItem>,
) -> (r: Result<(), QueryError>)
    ensures
        match items_error(s@, *ctx) {
            Some(e) => r matches Err(err) && err.spec_kind() == e,
            None => r is Ok && final(out)@ == old(out)@ + and_items_text(
                s@,
                *ctx,
                old(params)@.len(),
            ) && params_view(final(params)@) == params_view(old(params)@) + items_params(
                s@,
                *ctx,
                old(params)@.len(),
            ),
        },
{
    let ghost k0 = old(params)@.len();
    let n = s.len();
    let mut i: usize = 0;
    proof {
        lemma_items_empty(*ctx, k0);
        assert(s@.subrange(0, n as int) =~= s@);
        assert(s@.subrange(0, 0) =~= Seq::<ConditionItem>::empty());
        assert(s@.subrange(0, n as int) =~= s@);
        assert(out@ =~= old(out)@ + and_items_text(s@.subrange(0, 0), *ctx, k0));
        assert(params_view(params@) =~= params_view(old(params)@) + items_params(
            s@.subrange(0, 0),
            *ctx,
            k0,
        ));
    }
    while i < n
        invariant
            n == s@.len(),
            i <= n,
            out@ == old(out)@ + and_items_text(s@.subrange(0, i as int), *ctx, k0),
            params_view(params@) == params_view(old(params)@) + items_params(
                s@.subrange(0, i as int),
                *ctx,
                k0,
            ),
            params@.len() == k0 + items_params(s@.subrange(0, i as int), *ctx, k0).len(),
            items_error(s@, *ctx) == items_error(s@.subrange(i as int, n as int), *ctx),
        decreases n - i,
    {
        proof {
            lemma_items_step(s@, *ctx, k0, i as int);
        }
        push_str(out, " AND ");
        match push_item(out, params, ctx, &s[i]) {
            Ok(()) => {},
            Err(e) => {
                return Err(e);
            },
        }
        i = i + 1;
        assert(out@ =~= old(out)@ + and_items_text(s@.subrange(0, i as int), *ctx, k0));
        assert(params_view(params@) =~= params_view(old(params)@) + items_params(
            s@.subrange(0, i as int),
            *ctx,
            k0,
        ));
        assert(params@.len() == params_view(params@).len());
    }
    proof {
        assert(s@.subrange(n as int, n as int) =~= Seq::<ConditionItem>::empty());
    }
    Ok(())
}

/// Appends the items joined by `" OR "`.
fn push_or_items(
    out: &mut String,
    params: &mut Vec<QueryParam>,
    ctx: &QueryContext,
    s: &Vec<ConditionItem>,
) -> (r: Result<(), QueryError>)
    ensures
        match items_error(s@, *ctx) {
            Some(e) => r matches Err(err) && err.spec_kind() == e,
            None => r is Ok && final(out)@ == old(out)@ + or_items_text(
                s@,
                *ctx,
                old(params)@.len(),
            ) && params_view(final(params)@) == params_view(old(params)@) + items_params(
                s@,
                *ctx,
                old(params)@.len(),
            ),
        },
{
    let ghost k0 = old(params)@.len();
    let n = s.len();
    let mut i: usize = 0;
    proof {
        lemma_items_empty(*ctx, k0);
        assert(s@.subrange(0, n as int) =~= s@);
        assert(s@.subrange(0, 0) =~= Seq::<ConditionItem>::empty());
        assert(s@.subrange(0, n as int) =~= s@);
        assert(out@ =~= old(out)@ + or_items_text(s@.subrange(0, 0), *ctx, k0));
        assert(params_view(params@) =~= params_view(old(params)@) + items_params(
            s@.subrange(0, 0),
            *ctx,
            k0,
        ));
    }
    while i < n
        invariant
            n == s@.len(),
            i <= n,
            out@ == old(out)@ + or_items_text(s@.subrange(0, i as int), *ctx, k0),
            params_view(params@) == params_view(old(params)@) + items_params(
                s@.subrange(0, i as int),
                *ctx,
                k0,
            ),
            params@.len() == k0 + items_params(s@.subrange(0, i as int), *ctx, k0).len(),
            items_error(s@, *ctx) == items_error(s@.subrange(i as int, n as int), *ctx),
        decreases n - i,
    {
        proof {
            lemma_items_step(s@, *ctx, k0, i as int);
            if i == 0 {
                lemma_items_empty(*ctx, k0);
                assert(s@.subrange(0, 0) =~= Seq::<ConditionItem>::empty());
            }
        }
        let ghost before = out@;
        if i > 0 {
            push_str(out, " OR ");
        }
        assert(out@ =~= before + (if i == 0 {
            Seq::empty()
        } else {
            " OR "@
        }));
        match push_item(out, params, ctx, &s[i]) {
            Ok(()) => {},
            Err(e) => {
                return Err(e);
            },
        }
        i = i + 1;
        assert(out@ =~= old(out)@ + or_items_text(s@.subrange(0, i as int), *ctx, k0));
        assert(params_view(params@) =~= params_view(old(params)@) + items_params(
            s@.subrange(0, i as int),
            *ctx,
            k0,
        ));
        assert(params@.len() == params_view(params@).len());
    }
    proof {
        assert(s@.subrange(n as int, n as int) =~= Seq::<ConditionItem>::empty());
    }
    Ok(())
}

fn push_group(
    out: &mut String,
    params: &mut Vec<QueryParam>,
    ctx: &QueryContext,
    g: &LogicConditionGroup,
) -> (r: Result<(), QueryError>)
    ensures
        match items_error(g.spec_items(), *ctx) {
            Some(e) => r matches Err(err) && err.spec_kind() == e,
            None => r is Ok && final(out)@ == old(out)@ + group_text(
                g.spec_items(),
                *ctx,
                old(params)@.len(),
            ) && params_view(final(params)@) == params_view(old(params)@) + items_params(
                g.spec_items(),
                *ctx,
                old(params)@.len(),
            ),
        },
{
    let ghost k0 = old(params)@.len();
    let items = g.items();
    if items.len() == 0 {
        push_str(out, "false");
        proof {
            lemma_items_empty(*ctx, k0);
            assert(g.spec_items() =~= Seq::<ConditionItem>::empty());
            assert(params_view(params@) =~= params_view(old(params)@) + items_params(
                g.spec_items(),
                *ctx,
                k0,
            ));
        }
        return Ok(());
    }
    push_str(out, "(");
    match push_or_items(out, params, ctx, items) {
        Ok(()) => {},
        Err(e) => {
            return Err(e);
        },
    }
    push_str(out, ")");
    assert(out@ =~= old(out)@ + group_text(g.spec_items(), *ctx, k0));
    Ok(())
}

/// Appends the groups joined by `" AND "`.
fn push_and_groups(
    out: &mut String,
    params: &mut Vec<QueryParam>,
    ctx: &QueryContext,
    s: &Vec<LogicConditionGroup>,
) -> (r: Result<(), QueryError>)
    ensures
        match groups_error(s@, *ctx) {
            Some(e) => r matches Err(err) && err.spec_kind() == e,
            None => r is Ok && final(out)@ == old(out)@ + and_groups_text(
                s@,
                *ctx,
                old(params)@.len(),
            ) && params_view(final(params)@) == params_view(old(params)@) + groups_params(
                s@,
                *ctx,
                old(params)@.len(),
            ),
        },
{
    let ghost k0 = old(params)@.len();
    let n = s.len();
    let mut i: usize = 0;
    proof {
        lemma_groups_empty(*ctx, k0);
        assert(s@.subrange(0, n as int) =~= s@);
        assert(s@.subrange(0, 0) =~= Seq::<LogicConditionGroup>::empty());
        assert(s@.subrange(0, n as int) =~= s@);
        assert(out@ =~= old(out)@ + and_groups_text(s@.subrange(0, 0), *ctx, k0));
        assert(params_view(params@) =~= params_view(old(params)@) + groups_params(
            s@.subrange(0, 0),
            *ctx,
            k0,
        ));
    }
    while i < n
        invariant
            n == s@.len(),
            i <= n,
            out@ == old(out)@ + and_groups_text(s@.subrange(0, i as int), *ctx, k0),
            params_view(params@) == params_view(old(params)@) + groups_params(
                s@.subrange(0, i as int),
                *ctx,
                k0,
            ),
            params@.len() == k0 + groups_params(s@.subrange(0, i as int), *ctx, k0).len(),
            groups_error(s@, *ctx) == groups_error(s@.subrange(i as int, n as int), *ctx),
        decreases n - i,
    {
        proof {
            lemma_groups_step(s@, *ctx, k0, i as int);
            if i == 0 {
                lemma_groups_empty(*ctx, k0);
                assert(s@.subrange(0, 0) =~= Seq::<LogicConditionGroup>::empty());
            }
        }
        let ghost before = out@;
        if i > 0 {
            push_str(out, " AND ");
        }
        assert(out@ =~= before + (if i == 0 {
            Seq::empty()
        } else {
            " AND "@
        }));
        match push_group(out, params, ctx, &s[i]) {
            Ok(()) => {},
            Err(e) => {
                return Err(e);
            },
        }
        i = i + 1;
        assert(out@ =~= old(out)@ + and_groups_text(s@.subrange(0, i as int), *ctx, k0));
        assert(params_view(params@) =~= params_view(old(params)@) + groups_params(
            s@.subrange(0, i as int),
            *ctx,
            k0,
        ));
        assert(params@.len() == params_view(params@).len());
    }
    proof {
        assert(s@.subrange(n as int, n as int) =~= Seq::<LogicConditionGroup>::empty());
    }
    Ok(())
}

fn push_bulk(
    out: &mut String,
    params: &mut Vec<QueryParam>,
    ctx: &QueryContext,
    b: &LogicConditionBulk,
) -> (r: Result<(), QueryError>)
    ensures
        match groups_error(b.spec_groups(), *ctx) {
            Some(e) => r matches Err(err) && err.spec_kind() == e,
            None => r is Ok && final(out)@ == old(out)@ + bulk_text(
                b.spec_groups(),
                *ctx,
                old(params)@.len(),
            ) && params_view(final(params)@) == params_view(old(params)@) + groups_params(
                b.spec_groups(),
                *ctx,
                old(params)@.len(),
            ),
        },
{
    let ghost k0 = old(params)@.len();
    let groups = b.groups();
    if groups.len() == 0 {
        push_str(out, "true");
        proof {
            lemma_groups_empty(*ctx, k0);
            assert(b.spec_groups() =~= Seq::<LogicConditionGroup>::empty());
            assert(params_view(params@) =~= params_view(old(params)@) + groups_params(
                b.spec_groups(),
                *ctx,
                k0,
            ));
        }
        return Ok(());
    }
    push_str(out, "(");
    match push_and_groups(out, params, ctx, groups) {
        Ok(()) => {},
        Err(e) => {
            return Err(e);
        },
    }
    push_str(out, ")");
    assert(out@ =~= old(out)@ + bulk_text(b.spec_groups(), *ctx, k0));
    Ok(())
}

/// Appends `" AND bulk"` for each bulk.
fn push_and_bulks(
    out: &mut String,
    params: &mut Vec<QueryParam>,
    ctx: &QueryContext,
    s: &Vec<LogicConditionBulk>,
) -> (r: Result<(), QueryError>)
    ensures
        match bulks_error(s@, *ctx) {
            Some(e) => r matches Err(err) && err.spec_kind() == e,
            None => r is Ok && final(out)@ == old(out)@ + and_bulks_text(
                s@,
                *ctx,
                old(params)@.len(),
            ) && params_view(final(params)@) == params_view(old(params)@) + bulks_params(
                s@,
                *ctx,
                old(params)@.len(),
            ),
        },
{
    let ghost k0 = old(params)@.len();
    let n = s.len();
    let mut i: usize = 0;
    proof {
        lemma_bulks_empty(*ctx, k0);
        assert(s@.subrange(0, n as int) =~= s@);
        assert(s@.subrange(0, 0) =~= Seq::<LogicConditionBulk>::empty());
        assert(s@.subrange(0, n as int) =~= s@);
        assert(out@ =~= old(out)@ + and_bulks_text(s@.subrange(0, 0), *ctx, k0));
        assert(params_view(params@) =~= params_view(old(params)@) + bulks_params(
            s@.subrange(0, 0),
            *ctx,
            k0,
        ));
    }
    while i < n
        invariant
            n == s@.len(),
            i <= n,
            out@ == old(out)@ + and_bulks_text(s@.subrange(0, i as int), *ctx, k0),
            params_view(params@) == params_view(old(params)@) + bulks_params(
                s@.subrange(0, i as int),
                *ctx,
                k0,
            ),
            params@.len() == k0 + bulks_params(s@.subrange(0, i as int), *ctx, k0).len(),
            bulks_error(s@, *ctx) == bulks_error(s@.subrange(i as int, n as int), *ctx),
        decreases n - i,
    {
        proof {
            lemma_bulks_step(s@, *ctx, k0, i as int);
        }
        push_str(out, " AND ");
        match push_bulk(out, params, ctx, &s[i]) {
            Ok(()) => {},
            Err(e) => {
                return Err(e);
            },
        }
        i = i + 1;
        assert(out@ =~= old(out)@ + and_bulks_text(s@.subrange(0, i as int), *ctx, k0));
        assert(params_view(params@) =~= params_view(old(params)@) + bulks_params(
            s@.subrange(0, i as int),
            *ctx,
            k0,
        ));
        assert(params@.len() == params_view(params@).len());
    }
    proof {
        assert(s@.subrange(n as int, n as int) =~= Seq::<LogicConditionBulk>::empty());
    }
    Ok(())
}

fn push_page(out: &mut String, page: &Page)
    ensures
        final(out)@ == old(out)@ + page_text(*page),
{
    match page {
        Page::Limit(..) => {
            push_str(out, " SKIP $skip LIMIT $limit");
        },
        Page::LimitAfterSort(sort, _, _) => {
            push_str(out, " ORDER BY ");
            match sort {
                Sort::Asc(f) => {
                    push_prop(out, f);
                    push_str(out, " ASC");
                },
                Sort::Desc(f) => {
                    push_prop(out, f);
                    push_str(out, " DESC");
                },
            }
            push_str(out, " SKIP $skip LIMIT $limit");
        },
        Page::Unbounded => {},
    }
    assert(out@ =~= old(out)@ + page_text(*page));
}

fn push_page_params(params: &mut Vec<QueryParam>, page: &Page)
    ensures
        params_view(final(params)@) == params_view(old(params)@) + page_params(*page),
{
    match page {
        Page::Limit(o, s) | Page::LimitAfterSort(_, o, s) => {
            push_param(params, "skip".to_owned(), ParamValue::Int(*o as i64));
            push_param(params, "limit".to_owned(), ParamValue::Int(*s as i64));
        },
        Page::Unbounded => {},
    }
    assert(params_view(params@) =~= params_view(old(params)@) + page_params(*page));
}

/// Compiles a condition into the query for one page of the matching cards of the
/// context's tenant, and the query that counts them all.
///
/// It fails, before anything is sent to a store, when a referenced value names a
/// parameter that the context does not bind or starts from the current card.
pub fn compile(cond: &Condition, ctx: &QueryContext, page: &Page) -> (r: Result<
    CompiledQuery,
    QueryError,
>)
    ensures
        match condition_error(*cond, *ctx) {
            Some(e) => r matches Err(err) && err.spec_kind() == e,
            None => r matches Ok(q) && q.text@ == query_text(*cond, *ctx, *page) && q.count_text@
                == count_text(*cond, *ctx) && params_view(q.params@) == query_params(
                *cond,
                *ctx,
                *page,
            ),
        },
{
    let mut conjuncts = String::new();
    let mut cparams: Vec<QueryParam> = Vec::new();
    match push_and_items(&mut conjuncts, &mut cparams, ctx, cond.items()) {
        Ok(()) => {},
        Err(e) => {
            return Err(e);
        },
    }
    match push_and_bulks(&mut conjuncts, &mut cparams, ctx, cond.logic_condition_bulks()) {
        Ok(()) => {},
        Err(e) => {
            return Err(e);
        },
    }
    assert(conjuncts@ =~= conjuncts_text(*cond, *ctx));
    assert(params_view(cparams@) =~= condition_params(*cond, *ctx));
    let mut text = String::new();
    push_str(&mut text, "MATCH (n:Card) WHERE n.org_id = $tenant_id");
    push_str(&mut text, conjuncts.as_str());
    let mut count = text.clone();
    push_str(&mut text, " RETURN n");
    push_page(&mut text, page);
    push_str(&mut count, " RETURN count(n) AS total");
    let mut params: Vec<QueryParam> = Vec::new();
    push_param(&mut params, "tenant_id".to_owned(), ParamValue::Text(ctx.tenant_id().to_owned()));
    let ghost before = params@;
    let ghost moved = cparams@;
    params.append(&mut cparams);
    assert(params_view(params@) =~= params_view(before) + params_view(moved));
    push_page_params(&mut params, page);
    assert(text@ =~= query_text(*cond, *ctx, *page));
    assert(count@ =~= count_text(*cond, *ctx));
    assert(params_view(params@) =~= query_params(*cond, *ctx, *page));
    Ok(CompiledQuery { text, count_text: count, params })
}

// ---- tenant isolation ----

/// A parameter named by the compiler after a position: `v` and a numeral.
pub open spec fn is_positional(name: Seq<char>) -> bool {
    name.len() > 0 && name[0] == 'v'
}

pub open spec fn all_positional(ps: Seq<ParamEntry>) -> bool {
    forall|i: int| 0 <= i < ps.len() ==> is_positional(#[trigger] ps[i].0)
}

proof fn lemma_pname_positional(k: nat)
    ensures
        is_positional(pname(k)),
{
    reveal_strlit("v");
    assert(pname(k)[0] == "v"@[0]);
}

proof fn lemma_operand_positional<T>(v: PropertyValue<T>, ctx: QueryContext, k: nat, lit: ParamValueView)
    ensures
        operand_param(v, ctx, k, lit).len() == 1,
        operand_param(v, ctx, k, lit)[0].0 == pname(k),
{
}

proof fn lemma_two_positional(a: Seq<ParamEntry>, b: Seq<ParamEntry>, k: nat)
    requires
        a.len() == 1,
        b.len() == 1,
        a[0].0 == pname(k),
        b[0].0 == pname(k + 1),
    ensures
        all_positional(a + b),
{
    lemma_pname_positional(k);
    lemma_pname_positional(k + 1);
    assert forall|i: int| 0 <= i < (a + b).len() implies is_positional(#[trigger] (a + b)[i].0) by {
        if i == 1 {
            assert((a + b)[1] == b[0]);
        }
    }
}

proof fn lemma_item_positional(item: ConditionItem, ctx: QueryContext, k: nat)
    ensures
        all_positional(item_params(item, ctx, k)),
{
    reveal(item_params);
    lemma_pname_positional(k);
    lemma_pname_positional(k + 1);
    match item {
        ConditionItem::Number(_, op) => match op {
            NumberOperator::Between(a, b) | NumberOperator::NotBetween(a, b) => {
                lemma_operand_positional(a, ctx, k, int_lit(a));
                lemma_operand_positional(b, ctx, k + 1, int_lit(b));
                lemma_two_positional(
                    operand_param(a, ctx, k, int_lit(a)),
                    operand_param(b, ctx, k + 1, int_lit(b)),
                    k,
                );
            },
            NumberOperator::IsNull(_) => {},
            NumberOperator::LessThan(v) | NumberOperator::GreaterThan(v)
            | NumberOperator::LessThanOrEqualTo(v) | NumberOperator::GreaterThanOrEqualTo(v)
            | NumberOperator::Equals(v) | NumberOperator::NotEquals(v) => {
                lemma_operand_positional(v, ctx, k, int_lit(v));
            },
        },
        ConditionItem::Date(_, op) => match op {
            DateOperator::Between(a, b) | DateOperator::NotBetween(a, b) => {
                lemma_operand_positional(a, ctx, k, uint_lit(a));
                lemma_operand_positional(b, ctx, k + 1, uint_lit(b));
                lemma_two_positional(
                    operand_param(a, ctx, k, uint_lit(a)),
                    operand_param(b, ctx, k + 1, uint_lit(b)),
                    k,
                );
            },
            DateOperator::IsNull(_) => {},
            DateOperator::After(v) | DateOperator::Before(v) | DateOperator::Equals(v)
            | DateOperator::NotEquals(v) => {
                lemma_operand_positional(v, ctx, k, uint_lit(v));
            },
        },
        ConditionItem::Text(_, op) => match op {
            TextOperator::Equals(v) | TextOperator::NotEquals(v) => {
                lemma_operand_positional(v, ctx, k, text_lit(v));
            },
            _ => {},
        },
        ConditionItem::Enum(_, op) => match op {
            EnumOperator::IsNull(_) => {},
            EnumOperator::AnyIn(v) | EnumOperator::AllIn(v) | EnumOperator::AnyNotIn(v)
            | EnumOperator::AllNotIn(v) => {
                lemma_operand_positional(v, ctx, k, list_lit(v));
            },
        },
        ConditionItem::Status(_) => {
            let ps = item_params(item, ctx, k);
            assert(ps[1].0 == pname(k + 1));
        },
        _ => {},
    }
}

proof fn lemma_items_positional(s: Seq<ConditionItem>, ctx: QueryContext, k: nat)
    ensures
        all_positional(items_params(s, ctx, k)),
    decreases s.len(),
{
    reveal(items_params);
    if s.len() > 0 {
        let pre = items_params(s.drop_last(), ctx, k);
        lemma_items_positional(s.drop_last(), ctx, k);
        lemma_item_positional(s.last(), ctx, k + pre.len());
        let all = items_params(s, ctx, k);
        assert forall|i: int| 0 <= i < all.len() implies is_positional(#[trigger] all[i].0) by {
            if i >= pre.len() {
                assert(all[i] == item_params(s.last(), ctx, k + pre.len())[i - pre.len()]);
            }
        }
    }
}

proof fn lemma_groups_positional(s: Seq<LogicConditionGroup>, ctx: QueryContext, k: nat)
    ensures
        all_positional(groups_params(s, ctx, k)),
    decreases s.len(),
{
    reveal(groups_params);
    if s.len() > 0 {
        let pre = groups_params(s.drop_last(), ctx, k);
        lemma_groups_positional(s.drop_last(), ctx, k);
        lemma_items_positional(s.last().spec_items(), ctx, k + pre.len());
        let all = groups_params(s, ctx, k);
        assert forall|i: int| 0 <= i < all.len() implies is_positional(#[trigger] all[i].0) by {
            if i >= pre.len() {
                assert(all[i] == items_params(s.last().spec_items(), ctx, k + pre.len())[i
                    - pre.len()]);
            }
        }
    }
}

proof fn lemma_bulks_positional(s: Seq<LogicConditionBulk>, ctx: QueryContext, k: nat)
    ensures
        all_positional(bulks_params(s, ctx, k)),
    decreases s.len(),
{
    reveal(bulks_params);
    if s.len() > 0 {
        let pre = bulks_params(s.drop_last(), ctx, k);
        lemma_bulks_positional(s.drop_last(), ctx, k);
        lemma_groups_positional(s.last().spec_groups(), ctx, k + pre.len());
        let all = bulks_params(s, ctx, k);
        assert forall|i: int| 0 <= i < all.len() implies is_positional(#[trigger] all[i].0) by {
            if i >= pre.len() {
                assert(all[i] == groups_params(s.last().spec_groups(), ctx, k + pre.len())[i
                    - pre.len()]);
            }
        }
    }
}

/// Text that is empty or starts with `" AND "`.
pub open spec fn and_led(t: Seq<char>) -> bool {
    t.len() == 0 || (t.len() >= 5 && t.subrange(0, 5) == " AND "@)
}

proof fn lemma_and_led_append(t: Seq<char>, rest: Seq<char>)
    requires
        and_led(t),
    ensures
        and_led(t + " AND "@ + rest),
{
    reveal_strlit(" AND ");
    let u = t + " AND "@ + rest;
    if t.len() == 0 {
        assert(u.subrange(0, 5) =~= " AND "@);
    } else {
        assert(u.subrange(0, 5) =~= t.subrange(0, 5));
    }
}

proof fn lemma_and_items_led(s: Seq<ConditionItem>, ctx: QueryContext, k: nat)
    ensures
        and_led(and_items_text(s, ctx, k)),
    decreases s.len(),
{
    reveal(and_items_text);
    if s.len() > 0 {
        lemma_and_items_led(s.drop_last(), ctx, k);
        lemma_and_led_append(
            and_items_text(s.drop_last(), ctx, k),
            item_text(s.last(), k + items_params(s.drop_last(), ctx, k).len()),
        );
    }
}

proof fn lemma_and_bulks_led(s: Seq<LogicConditionBulk>, ctx: QueryContext, k: nat)
    ensures
        and_led(and_bulks_text(s, ctx, k)),
    decreases s.len(),
{
    reveal(and_bulks_text);
    if s.len() > 0 {
        lemma_and_bulks_led(s.drop_last(), ctx, k);
        lemma_and_led_append(
            and_bulks_text(s.drop_last(), ctx, k),
            bulk_text(s.last().spec_groups(), ctx, k + bulks_params(s.drop_last(), ctx, k).len()),
        );
    }
}

/// Tenant isolation. Every query that `compile` returns, and the query that counts its
/// cards, starts by matching the cards whose tenant is the `$tenant_id` parameter; what the
/// condition adds comes after it, joined by `AND` only. The first parameter binds
/// `tenant_id` to the context's tenant, and no other parameter has that name.
pub proof fn lemma_tenant_isolation(c: Condition, ctx: QueryContext, p: Page)
    ensures
        query_text(c, ctx, p) == tenant_scope() + conjuncts_text(c, ctx) + " RETURN n"@
            + page_text(p),
        count_text(c, ctx) == tenant_scope() + conjuncts_text(c, ctx)
            + " RETURN count(n) AS total"@,
        and_led(conjuncts_text(c, ctx)),
        query_params(c, ctx, p)[0] == ("tenant_id"@, ParamValueView::Text(ctx.spec_tenant_id())),
        forall|i: int|
            0 < i < query_params(c, ctx, p).len() ==> #[trigger] query_params(c, ctx, p)[i].0
                != "tenant_id"@,
{
    let ip = items_params(c.spec_items(), ctx, 0);
    let a = and_items_text(c.spec_items(), ctx, 0);
    let b = and_bulks_text(c.spec_bulks(), ctx, ip.len());
    lemma_and_items_led(c.spec_items(), ctx, 0);
    lemma_and_bulks_led(c.spec_bulks(), ctx, ip.len());
    reveal_strlit(" AND ");
    if a.len() == 0 {
        assert(conjuncts_text(c, ctx) =~= b);
    } else {
        assert(conjuncts_text(c, ctx).subrange(0, 5) =~= a.subrange(0, 5));
    }
    lemma_items_positional(c.spec_items(), ctx, 0);
    lemma_bulks_positional(c.spec_bulks(), ctx, ip.len());
    let cp = condition_params(c, ctx);
    assert(all_positional(cp)) by {
        assert forall|i: int| 0 <= i < cp.len() implies is_positional(#[trigger] cp[i].0) by {
            if i >= ip.len() {
                assert(cp[i] == bulks_params(c.spec_bulks(), ctx, ip.len())[i - ip.len()]);
            }
        }
    }
    reveal_strlit("tenant_id");
    reveal_strlit("skip");
    reveal_strlit("limit");
    let qp = query_params(c, ctx, p);
    assert forall|i: int| 0 < i < qp.len() implies #[trigger] qp[i].0 != "tenant_id"@ by {
        if i <= cp.len() {
            assert(qp[i] == cp[i - 1]);
            assert(is_positional(cp[i - 1].0));
            assert("tenant_id"@[0] == 't');
        } else {
            assert(qp[i] == page_params(p)[i - 1 - cp.len()]);
        }
    }
}

/// An empty condition compiles to every card of the context's tenant: it never fails, it
/// adds nothing to the tenant scope and binds nothing but the tenant and the page.
pub proof fn lemma_empty_condition(c: Condition, ctx: QueryContext, p: Page)
    requires
        c.spec_items().len() == 0,
        c.spec_bulks().len() == 0,
    ensures
        condition_error(c, ctx) is None,
        query_text(c, ctx, p) == tenant_scope() + " RETURN n"@ + page_text(p),
        count_text(c, ctx) == tenant_scope() + " RETURN count(n) AS total"@,
        query_params(c, ctx, p) == seq![
            ("tenant_id"@, ParamValueView::Text(ctx.spec_tenant_id())),
        ] + page_params(p),
{
    lemma_items_empty(ctx, 0);
    lemma_bulks_empty(ctx, 0);
    assert(c.spec_items() =~= Seq::<ConditionItem>::empty());
    assert(c.spec_bulks() =~= Seq::<LogicConditionBulk>::empty());
    assert(conjuncts_text(c, ctx) =~= Seq::empty());
    assert(condition_params(c, ctx) =~= Seq::empty());
    assert(query_text(c, ctx, p) =~= tenant_scope() + " RETURN n"@ + page_text(p));
    assert(count_text(c, ctx) =~= tenant_scope() + " RETURN count(n) AS total"@);
    assert(query_params(c, ctx, p) =~= seq![
        ("tenant_id"@, ParamValueView::Text(ctx.spec_tenant_id())),
    ] + page_params(p));
}

} // verus!
