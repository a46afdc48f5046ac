//! The version of a newly deployed process definition.

use vstd::prelude::*;
use crate::dto::ProcdefDto;
use crate::error::{AppError, ErrorCode, is_error};
use crate::manager::engine::bpmn::bpmn_node::opt_view;
use crate::text::{decimal, push_decimal, push_str, views};

verus! {

/// The message for a key with more than one latest definition.
pub open spec fn too_many_versions_msg(key: Seq<char>) -> Seq<char> {
    "apf_re_procdef 中 key("@ + key + ") 对应的记录数超过 1."@
}

/// The version that a new definition of `key` gets, given the versions that
/// the store returned as the latest for that key: 1 where there is none, one
/// more than the latest where there is one, a `ParseError` where there are
/// several.
pub fn next_version(latest: &Vec<i32>, key: &str) -> (r: Result<i32, AppError>)
    requires
        latest@.len() == 1 ==> latest@[0] < i32::MAX,
    ensures
        latest@.len() == 0 ==> r == Ok::<i32, AppError>(1),
        latest@.len() == 1 ==> r == Ok::<i32, AppError>((latest@[0] + 1) as i32),
        latest@.len() > 1 ==> (r matches Err(e) && is_error(e, ErrorCode::ParseError, too_many_versions_msg(key@))),
{
    let mut version: i32 = 1;
    if latest.len() == 1 {
        version = latest[0] + 1;
    } else if latest.len() > 1 {
        let mut msg = String::from_str("apf_re_procdef 中 key(");
        push_str(&mut msg, key);
        push_str(&mut msg, ") 对应的记录数超过 1.");
        return Err(AppError::new(ErrorCode::ParseError, Some(msg.as_str()), "ApfReProcdefDao::create", None));
    }
    Ok(version)
}

/// Deploying a key again gives a version above the latest one.
pub proof fn lemma_next_version_increases(latest: i32)
    requires
        latest < i32::MAX,
    ensures
        (latest + 1) as i32 > latest,
{
}

/// The statement that selects the process definitions that are not deleted,
/// with the time of their deployment.
pub open spec fn find_by_sql() -> Seq<char> {
    "select t1.id, t1.rev, t1.name, t1.key, t1.version, t1.deployment_id, t1.resource_name, t1.description, t1.suspension_state, t1.deployer_id, t1.deployer_name, t1.company_id, t1.company_name, t2.deploy_time from apf_re_procdef t1 join apf_re_deployment t2 on t2.id = t1.deployment_id where t1.is_deleted = 0"@
}

/// A statement, its parameters and the number of the last one.
pub struct FindAcc {
    pub sql: Seq<char>,
    pub params: Seq<Seq<char>>,
    pub idx: nat,
}

/// One filter of a search: where `value` is set and not empty, the condition
/// that `column` equals the next numbered parameter is added, and `value`
/// becomes it; an empty value counts as unset.
pub open spec fn find_step(acc: FindAcc, value: Option<Seq<char>>, column: Seq<char>) -> FindAcc {
    match value {
        Some(v) if v.len() > 0 => FindAcc {
            sql: acc.sql + " and "@ + column + " = $"@ + decimal(acc.idx + 1),
            params: acc.params.push(v),
            idx: acc.idx + 1,
        },
        _ => acc,
    }
}

/// The value of a search filter as a list: one parameter where it is set and
/// not empty.
pub open spec fn filled(o: Option<String>) -> Seq<Seq<char>> {
    match o {
        Some(v) => if v@.len() > 0 {
            seq![v@]
        } else {
            Seq::empty()
        },
        None => Seq::empty(),
    }
}

/// The search for process definitions by the filters of `d` that are set and
/// not empty, in
/// the order id, name, key, deployment, deployer, deployer name, company,
/// company name.
pub open spec fn find_by_dto_query(d: ProcdefDto) -> FindAcc {
    let a0 = FindAcc { sql: find_by_sql(), params: Seq::empty(), idx: 0 };
    let a1 = find_step(a0, opt_view(d.id), "t1.id"@);
    let a2 = find_step(a1, opt_view(d.name), "t1.name"@);
    let a3 = find_step(a2, opt_view(d.key), "t1.key"@);
    let a4 = find_step(a3, opt_view(d.deployment_id), "t1.deployment_id"@);
    let a5 = find_step(a4, opt_view(d.deployer_id), "t1.deployer_id"@);
    let a6 = find_step(a5, opt_view(d.deployer_name), "t1.deployer_name"@);
    let a7 = find_step(a6, opt_view(d.company_id), "t1.company_id"@);
    find_step(a7, opt_view(d.company_name), "t1.company_name"@)
}

proof fn lemma_find_step_params(acc: FindAcc, value: Option<String>, column: Seq<char>)
    ensures
        find_step(acc, opt_view(value), column).params == acc.params + filled(value),
        find_step(acc, opt_view(value), column).idx == acc.idx + filled(value).len(),
{
    assert(find_step(acc, opt_view(value), column).params =~= acc.params + filled(value));
}

/// A search binds as many parameters as it numbers, in the order of their
/// numbers: the values of the filters of `d` that are set and not empty.
pub proof fn lemma_find_params_numbered(d: ProcdefDto)
    ensures
        find_by_dto_query(d).params == filled(d.id) + filled(d.name) + filled(d.key) + filled(d.deployment_id)
            + filled(d.deployer_id) + filled(d.deployer_name) + filled(d.company_id) + filled(d.company_name),
        find_by_dto_query(d).idx == find_by_dto_query(d).params.len(),
{
    let a0 = FindAcc { sql: find_by_sql(), params: Seq::empty(), idx: 0 };
    let a1 = find_step(a0, opt_view(d.id), "t1.id"@);
    let a2 = find_step(a1, opt_view(d.name), "t1.name"@);
    let a3 = find_step(a2, opt_view(d.key), "t1.key"@);
    let a4 = find_step(a3, opt_view(d.deployment_id), "t1.deployment_id"@);
    let a5 = find_step(a4, opt_view(d.deployer_id), "t1.deployer_id"@);
    let a6 = find_step(a5, opt_view(d.deployer_name), "t1.deployer_name"@);
    let a7 = find_step(a6, opt_view(d.company_id), "t1.company_id"@);
    lemma_find_step_params(a0, d.id, "t1.id"@);
    lemma_find_step_params(a1, d.name, "t1.name"@);
    lemma_find_step_params(a2, d.key, "t1.key"@);
    lemma_find_step_params(a3, d.deployment_id, "t1.deployment_id"@);
    lemma_find_step_params(a4, d.deployer_id, "t1.deployer_id"@);
    lemma_find_step_params(a5, d.deployer_name, "t1.deployer_name"@);
    lemma_find_step_params(a6, d.company_id, "t1.company_id"@);
    lemma_find_step_params(a7, d.company_name, "t1.company_name"@);
    assert(Seq::<Seq<char>>::empty() + filled(d.id) =~= filled(d.id));
}

/// `t` stands somewhere in `s`.
pub open spec fn has_infix(s: Seq<char>, t: Seq<char>) -> bool {
    exists|i: int| 0 <= i && i + t.len() <= s.len() && #[trigger] s.subrange(i, i + t.len()) == t
}

/// In the search `acc`, where the filter value `o` is set and not empty, some
/// numbered parameter `$k` holds it and the statement compares `column` with
/// that very parameter.
pub open spec fn binds(acc: FindAcc, column: Seq<char>, o: Option<String>) -> bool {
    match o {
        Some(v) => v@.len() > 0 ==> exists|k: nat|
            1 <= k <= acc.params.len() && acc.params[k - 1] == v@ && has_infix(
                acc.sql,
                " and "@ + column + " = $"@ + #[trigger] decimal(k),
            ),
        None => true,
    }
}

proof fn lemma_step_binds(acc: FindAcc, o: Option<String>, column: Seq<char>)
    requires
        acc.idx == acc.params.len(),
    ensures
        binds(find_step(acc, opt_view(o), column), column, o),
{
    if let Some(v) = o {
        if v@.len() > 0 {
            let n = find_step(acc, opt_view(o), column);
            let t = " and "@ + column + " = $"@ + decimal(acc.idx + 1);
            let k: nat = acc.idx + 1;
            assert(n.sql =~= acc.sql + t);
            assert(n.sql.subrange(acc.sql.len() as int, (acc.sql.len() + t.len()) as int) =~= t);
            assert(n.params[k - 1] == v@);
            assert(has_infix(n.sql, " and "@ + column + " = $"@ + decimal(k)));
        }
    }
}

proof fn lemma_step_keeps_binds(acc: FindAcc, value: Option<Seq<char>>, column: Seq<char>, col: Seq<char>, o: Option<String>)
    requires
        binds(acc, col, o),
    ensures
        binds(find_step(acc, value, column), col, o),
{
    if let Some(v) = o {
        if v@.len() > 0 {
            let n = find_step(acc, value, column);
            let k = choose|k: nat|
                1 <= k <= acc.params.len() && acc.params[k - 1] == v@ && has_infix(
                    acc.sql,
                    " and "@ + col + " = $"@ + #[trigger] decimal(k),
                );
            let t = " and "@ + col + " = $"@ + decimal(k);
            let i = choose|i: int| 0 <= i && i + t.len() <= acc.sql.len() && #[trigger] acc.sql.subrange(i, i + t.len()) == t;
            assert(n.sql.subrange(i, i + t.len()) =~= acc.sql.subrange(i, i + t.len()));
            assert(n.params[k - 1] == acc.params[k - 1]);
            assert(has_infix(n.sql, t));
        }
    }
}

proof fn lemma_step_idx(acc: FindAcc, value: Option<Seq<char>>, column: Seq<char>)
    requires
        acc.idx == acc.params.len(),
    ensures
        find_step(acc, value, column).idx == find_step(acc, value, column).params.len(),
{
}

proof fn lemma_binds_carry(
    accs: Seq<FindAcc>,
    cols: Seq<Seq<char>>,
    vals: Seq<Option<String>>,
    col: Seq<char>,
    o: Option<String>,
    m: int,
)
    requires
        0 <= m <= 8,
        accs.len() == 9,
        cols.len() == 8,
        vals.len() == 8,
        forall|x: int| 0 <= x < 8 ==> accs[x + 1] == find_step(accs[x], opt_view(vals[x]), cols[x]),
        binds(accs[m], col, o),
    ensures
        binds(accs[8], col, o),
    decreases 8 - m,
{
    if m < 8 {
        lemma_step_keeps_binds(accs[m], opt_view(vals[m]), cols[m], col, o);
        lemma_binds_carry(accs, cols, vals, col, o, m + 1);
    }
}

/// Each filter of a search that is set and not empty is compared with the
/// parameter that holds its own value, in its own column: the statement
/// reads ` and t1.<column> = $k` with `$k` bound to that filter's value, for
/// the columns `id`, `name`, `key`, `deployment_id`, `deployer_id`,
/// `deployer_name`, `company_id` and `company_name` of the matching fields.
pub proof fn lemma_find_filters_bind_their_columns(d: ProcdefDto)
    ensures
        binds(find_by_dto_query(d), "t1.id"@, d.id),
        binds(find_by_dto_query(d), "t1.name"@, d.name),
        binds(find_by_dto_query(d), "t1.key"@, d.key),
        binds(find_by_dto_query(d), "t1.deployment_id"@, d.deployment_id),
        binds(find_by_dto_query(d), "t1.deployer_id"@, d.deployer_id),
        binds(find_by_dto_query(d), "t1.deployer_name"@, d.deployer_name),
        binds(find_by_dto_query(d), "t1.company_id"@, d.company_id),
        binds(find_by_dto_query(d), "t1.company_name"@, d.company_name),
{
    let cols = seq!["t1.id"@, "t1.name"@, "t1.key"@, "t1.deployment_id"@, "t1.deployer_id"@, "t1.deployer_name"@,
        "t1.company_id"@, "t1.company_name"@];
    let vals = seq![d.id, d.name, d.key, d.deployment_id, d.deployer_id, d.deployer_name, d.company_id, d.company_name];
    let a0 = FindAcc { sql: find_by_sql(), params: Seq::empty(), idx: 0 };
    let a1 = find_step(a0, opt_view(d.id), "t1.id"@);
    let a2 = find_step(a1, opt_view(d.name), "t1.name"@);
    let a3 = find_step(a2, opt_view(d.key), "t1.key"@);
    let a4 = find_step(a3, opt_view(d.deployment_id), "t1.deployment_id"@);
    let a5 = find_step(a4, opt_view(d.deployer_id), "t1.deployer_id"@);
    let a6 = find_step(a5, opt_view(d.deployer_name), "t1.deployer_name"@);
    let a7 = find_step(a6, opt_view(d.company_id), "t1.company_id"@);
    let a8 = find_step(a7, opt_view(d.company_name), "t1.company_name"@);
    let accs = seq![a0, a1, a2, a3, a4, a5, a6, a7, a8];
    assert(a8 == find_by_dto_query(d));
    // Each step keeps the count of parameters as their last number.
    lemma_step_idx(a0, opt_view(d.id), "t1.id"@);
    lemma_step_idx(a1, opt_view(d.name), "t1.name"@);
    lemma_step_idx(a2, opt_view(d.key), "t1.key"@);
    lemma_step_idx(a3, opt_view(d.deployment_id), "t1.deployment_id"@);
    lemma_step_idx(a4, opt_view(d.deployer_id), "t1.deployer_id"@);
    lemma_step_idx(a5, opt_view(d.deployer_name), "t1.deployer_name"@);
    lemma_step_idx(a6, opt_view(d.company_id), "t1.company_id"@);
    assert forall|j: int| 0 <= j < 8 implies binds(a8, #[trigger] cols[j], vals[j]) by {
        assert(accs[j + 1] == find_step(accs[j], opt_view(vals[j]), cols[j]));
        lemma_step_binds(accs[j], vals[j], cols[j]);
        lemma_binds_carry(accs, cols, vals, cols[j], vals[j], j + 1);
    }
    assert(cols[0] == "t1.id"@ && vals[0] == d.id);
    assert(cols[1] == "t1.name"@ && vals[1] == d.name);
    assert(cols[2] == "t1.key"@ && vals[2] == d.key);
    assert(cols[3] == "t1.deployment_id"@ && vals[3] == d.deployment_id);
    assert(cols[4] == "t1.deployer_id"@ && vals[4] == d.deployer_id);
    assert(cols[5] == "t1.deployer_name"@ && vals[5] == d.deployer_name);
    assert(cols[6] == "t1.company_id"@ && vals[6] == d.company_id);
    assert(cols[7] == "t1.company_name"@ && vals[7] == d.company_name);
}

fn push_find_filter(sql: &mut String, params: &mut Vec<String>, idx: &mut u64, value: &Option<String>, column: &str)
    requires
        *old(idx) < 100,
    ensures
        ({
            let a = find_step(
                FindAcc { sql: old(sql)@, params: views(old(params)@), idx: *old(idx) as nat },
                opt_view(*value),
                column@,
            );
            &&& final(sql)@ == a.sql
            &&& views(final(params)@) == a.params
            &&& *final(idx) as nat == a.idx
        }),
{
    if let Some(v) = value {
        if v.as_str().is_empty() {
            return;
        }
        *idx = *idx + 1;
        push_str(sql, " and ");
        push_str(sql, column);
        push_str(sql, " = $");
        push_decimal(sql, *idx);
        let ghost before = params@;
        params.push(v.clone());
        assert(views(params@) =~= views(before).push(v@));
    }
}

/// The statement and parameters that search for the process definitions
/// matching every filter of `d` that is set and not empty (see
/// `find_by_dto_query`).
pub fn find_by_dto_sql(d: &ProcdefDto) -> (r: (String, Vec<String>))
    ensures
        r.0@ == find_by_dto_query(*d).sql,
        views(r.1@) == find_by_dto_query(*d).params,
{
    let mut sql = String::from_str(
        "select t1.id, t1.rev, t1.name, t1.key, t1.version, t1.deployment_id, t1.resource_name, t1.description, t1.suspension_state, t1.deployer_id, t1.deployer_name, t1.company_id, t1.company_name, t2.deploy_time from apf_re_procdef t1 join apf_re_deployment t2 on t2.id = t1.deployment_id where t1.is_deleted = 0",
    );
    let mut params: Vec<String> = Vec::new();
    let mut idx: u64 = 0;
    assert(views(params@) =~= Seq::<Seq<char>>::empty());
    let ghost a0 = FindAcc { sql: sql@, params: views(params@), idx: 0 };
    push_find_filter(&mut sql, &mut params, &mut idx, &d.id, "t1.id");
    let ghost a1 = find_step(a0, opt_view(d.id), "t1.id"@);
    assert(sql@ == a1.sql && views(params@) == a1.params && idx == a1.idx);
    push_find_filter(&mut sql, &mut params, &mut idx, &d.name, "t1.name");
    let ghost a2 = find_step(a1, opt_view(d.name), "t1.name"@);
    assert(sql@ == a2.sql && views(params@) == a2.params && idx == a2.idx);
    push_find_filter(&mut sql, &mut params, &mut idx, &d.key, "t1.key");
    let ghost a3 = find_step(a2, opt_view(d.key), "t1.key"@);
    assert(sql@ == a3.sql && views(params@) == a3.params && idx == a3.idx);
    push_find_filter(&mut sql, &mut params, &mut idx, &d.deployment_id, "t1.deployment_id");
    let ghost a4 = find_step(a3, opt_view(d.deployment_id), "t1.deployment_id"@);
    assert(sql@ == a4.sql && views(params@) == a4.params && idx == a4.idx);
    push_find_filter(&mut sql, &mut params, &mut idx, &d.deployer_id, "t1.deployer_id");
    let ghost a5 = find_step(a4, opt_view(d.deployer_id), "t1.deployer_id"@);
    assert(sql@ == a5.sql && views(params@) == a5.params && idx == a5.idx);
    push_find_filter(&mut sql, &mut params, &mut idx, &d.deployer_name, "t1.deployer_name");
    let ghost a6 = find_step(a5, opt_view(d.deployer_name), "t1.deployer_name"@);
    assert(sql@ == a6.sql && views(params@) == a6.params && idx == a6.idx);
    push_find_filter(&mut sql, &mut params, &mut idx, &d.company_id, "t1.company_id");
    let ghost a7 = find_step(a6, opt_view(d.company_id), "t1.company_id"@);
    assert(sql@ == a7.sql && views(params@) == a7.params && idx == a7.idx);
    push_find_filter(&mut sql, &mut params, &mut idx, &d.company_name, "t1.company_name");
    (sql, params)
}

} // verus!
