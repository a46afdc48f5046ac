//! A query over waiting tasks: the filters a caller sets, and the SQL
//! statement and parameters that they give.

use vstd::prelude::*;
use crate::dao::base_dao::BaseDao;
use crate::dao::sql_fragment::{SqlFragment, fragment_text};
use crate::manager::engine::bpmn::bpmn_node::{copy_opt, opt_view};
use crate::text::{decimal, push_decimal, push_str, trim, trim_str, views};

verus! {

/// What `regex::Regex::new(pattern)` followed by `replace_all(text, rep)`
/// gives: `text` with every leftmost-first match of the regular expression
/// `pattern` replaced by `rep`.
pub uninterp spec fn regex_replace_all(pattern: Seq<char>, text: Seq<char>, rep: Seq<char>) -> Seq<char>;

/// The pattern that finds a line break and the white space after it.
pub open spec fn line_break_pattern() -> Seq<char> {
    "\n\\s*"@
}

/// `regex::Regex::new(pattern)` and, where the pattern compiles,
/// `replace_all(text, rep)`: `None` where the pattern does not compile. The
/// replaced text is named by `regex_replace_all`, a function of the three
/// arguments alone. The pattern `\n\s*` (a line break and the white space
/// after it) is valid regular-expression syntax, so it compiles. Which other
/// patterns fail to compile is left unsaid.
#[verifier::external_body]
fn replace_all(pattern: &str, text: &str, rep: &str) -> (r: Option<String>)
    ensures
        r matches Some(s) ==> s@ == regex_replace_all(pattern@, text@, rep@),
        pattern@ == line_break_pattern() ==> r is Some,
{
    match regex::Regex::new(pattern) {
        Ok(re) => Some(re.replace_all(text, rep).into_owned()),
        Err(_) => None,
    }
}

/// A query over the tasks that wait to be completed. Each filter that is set
/// adds a condition; `id` is kept but adds none.
#[derive(Debug)]
pub struct TaskQuery {
    pub id: Option<String>,
    pub execution_id: Option<String>,
    pub proc_inst_id: Option<String>,
    pub candidate_group: Option<String>,
    pub candidate_user: Option<String>,
    pub business_key: Option<String>,
    pub process_definition_key: Option<String>,
    pub order_by: Option<String>,
    pub count: Option<String>,
}

/// The SQL text and parameters built so far, and the number of the last
/// parameter.
pub struct SqlAcc {
    pub sql: Seq<char>,
    pub params: Seq<Seq<char>>,
    pub idx: nat,
}

/// One filter: where `value` is set, the condition `column` compared with the
/// next numbered parameter (followed by `suffix`) is added, and `value`
/// becomes that parameter.
pub open spec fn filter_step(acc: SqlAcc, value: Option<Seq<char>>, column: Seq<char>, suffix: Seq<char>) -> SqlAcc {
    match value {
        Some(v) => SqlAcc {
            sql: acc.sql + " AND "@ + column + decimal(acc.idx + 1) + suffix,
            params: acc.params.push(v),
            idx: acc.idx + 1,
        },
        None => acc,
    }
}

/// The statement before its conditions: the selected columns (or the count),
/// the task table, the joins that the filters need, and `WHERE 1 = 1`.
pub open spec fn query_head(q: TaskQuery, fields: Seq<char>) -> Seq<char> {
    let select = match q.count {
        Some(v) => fragment_text(SqlFragment::COUNT(v)),
        None => " DISTINCT"@ + " "@ + fields,
    };
    let from = " from "@ + "apf_ru_task t1"@;
    let join_def = if q.process_definition_key is Some {
        " JOIN "@ + "apf_re_procdef t2 on t2.id = t1.proc_def_id"@
    } else {
        Seq::empty()
    };
    let join_ident = if q.candidate_group is Some || q.candidate_user is Some {
        " JOIN "@ + "apf_ru_identitylink t3 on t3.task_id = t1.id"@
    } else {
        Seq::empty()
    };
    "SELECT"@ + select + from + join_def + join_ident + " WHERE 1 = 1"@
}

/// The statement and parameters after the conditions of the filters, in the
/// order execution, process instance, business key, candidate group,
/// candidate user, process definition key; the parameters are numbered from 1.
pub open spec fn query_filters(q: TaskQuery, fields: Seq<char>) -> SqlAcc {
    let a0 = SqlAcc { sql: query_head(q, fields), params: Seq::empty(), idx: 0 };
    let a1 = filter_step(a0, opt_view(q.execution_id), "t1.execution_id = $"@, Seq::empty());
    let a2 = filter_step(a1, opt_view(q.proc_inst_id), "t1.proc_inst_id = $"@, Seq::empty());
    let a3 = filter_step(a2, opt_view(q.business_key), "t1.business_key = $"@, Seq::empty());
    let a4 = filter_step(a3, opt_view(q.candidate_group), "t3.group_id in ($"@, ")"@);
    let a5 = filter_step(a4, opt_view(q.candidate_user), "t3.user_id = $"@, Seq::empty());
    filter_step(a5, opt_view(q.process_definition_key), "t2.key = $"@, Seq::empty())
}

/// The SQL statement of a query whose selected columns are `fields`: the head,
/// the conditions, and the ordering where one is set.
pub open spec fn query_sql(q: TaskQuery, fields: Seq<char>) -> Seq<char> {
    let a = query_filters(q, fields);
    match q.order_by {
        Some(o) => a.sql + " order by "@ + o@,
        None => a.sql,
    }
}

/// The value of a filter as a list: one parameter where it is set.
pub open spec fn present(o: Option<String>) -> Seq<Seq<char>> {
    match o {
        Some(v) => seq![v@],
        None => Seq::empty(),
    }
}

/// The parameters of a query, in the order of their numbers: the values of
/// the filters that are set, in the order of `query_filters`.
pub open spec fn query_params(q: TaskQuery) -> Seq<Seq<char>> {
    present(q.execution_id) + present(q.proc_inst_id) + present(q.business_key) + present(q.candidate_group)
        + present(q.candidate_user) + present(q.process_definition_key)
}

/// The statement binds as many parameters as it numbers, in the order of their
/// numbers: one for each filter that is set, whatever columns are selected.
pub proof fn lemma_params_numbered(q: TaskQuery, fields: Seq<char>)
    ensures
        query_filters(q, fields).params == query_params(q),
        query_filters(q, fields).idx == query_params(q).len(),
{
    let a0 = SqlAcc { sql: query_head(q, fields), params: Seq::empty(), idx: 0 };
    let a1 = filter_step(a0, opt_view(q.execution_id), "t1.execution_id = $"@, Seq::empty());
    let a2 = filter_step(a1, opt_view(q.proc_inst_id), "t1.proc_inst_id = $"@, Seq::empty());
    let a3 = filter_step(a2, opt_view(q.business_key), "t1.business_key = $"@, Seq::empty());
    let a4 = filter_step(a3, opt_view(q.candidate_group), "t3.group_id in ($"@, ")"@);
    let a5 = filter_step(a4, opt_view(q.candidate_user), "t3.user_id = $"@, Seq::empty());
    let a6 = filter_step(a5, opt_view(q.process_definition_key), "t2.key = $"@, Seq::empty());
    assert(a1.params =~= present(q.execution_id));
    assert(a2.params =~= present(q.execution_id) + present(q.proc_inst_id));
    assert(a3.params =~= present(q.execution_id) + present(q.proc_inst_id) + present(q.business_key));
    assert(a4.params =~= present(q.execution_id) + present(q.proc_inst_id) + present(q.business_key) + present(q.candidate_group));
    assert(a5.params =~= present(q.execution_id) + present(q.proc_inst_id) + present(q.business_key) + present(q.candidate_group)
        + present(q.candidate_user));
    assert(a6.params =~= query_params(q));
    assert(a1.idx == a1.params.len());
    assert(a2.idx == a2.params.len());
    assert(a3.idx == a3.params.len());
    assert(a4.idx == a4.params.len());
    assert(a5.idx == a5.params.len());
    assert(a6.idx == a6.params.len());
}

proof fn lemma_suffix_of_concat(a: Seq<char>, b: Seq<char>)
    ensures
        b.is_suffix_of(a + b),
        a.is_prefix_of(a + b),
{
    assert((a + b).subrange(a.len() as int, (a + b).len() as int) =~= b);
    assert((a + b).subrange(0, a.len() as int) =~= a);
}

/// Every table that a condition of a query names is joined before the
/// conditions: the statement begins with its head, and the head ends, just
/// before `WHERE 1 = 1`, with the join of the identity links (table `t3`)
/// exactly where a candidate group or user is set, preceded by the join of
/// the process definitions (table `t2`) exactly where a process definition
/// key is set; with neither, the head ends with the task table itself.
pub proof fn lemma_query_joins(q: TaskQuery, fields: Seq<char>)
    ensures
        query_head(q, fields).is_prefix_of(query_sql(q, fields)),
        (q.candidate_group is Some || q.candidate_user is Some) && q.process_definition_key is None ==> (
        " JOIN apf_ru_identitylink t3 on t3.task_id = t1.id WHERE 1 = 1"@).is_suffix_of(query_head(q, fields))
            && !(" JOIN apf_re_procdef t2 on t2.id = t1.proc_def_id JOIN apf_ru_identitylink t3 on t3.task_id = t1.id WHERE 1 = 1"@).is_suffix_of(
            query_head(q, fields),
        ),
        (q.candidate_group is Some || q.candidate_user is Some) && q.process_definition_key is Some ==> (
        " JOIN apf_re_procdef t2 on t2.id = t1.proc_def_id JOIN apf_ru_identitylink t3 on t3.task_id = t1.id WHERE 1 = 1"@).is_suffix_of(
            query_head(q, fields),
        ),
        q.candidate_group is None && q.candidate_user is None && q.process_definition_key is Some ==> (
        " from apf_ru_task t1 JOIN apf_re_procdef t2 on t2.id = t1.proc_def_id WHERE 1 = 1"@).is_suffix_of(
            query_head(q, fields),
        ),
        q.candidate_group is None && q.candidate_user is None && q.process_definition_key is None ==> (
        " from apf_ru_task t1 WHERE 1 = 1"@).is_suffix_of(query_head(q, fields)),
{
    reveal_strlit(" JOIN apf_ru_identitylink t3 on t3.task_id = t1.id WHERE 1 = 1");
    reveal_strlit(" JOIN apf_re_procdef t2 on t2.id = t1.proc_def_id JOIN apf_ru_identitylink t3 on t3.task_id = t1.id WHERE 1 = 1");
    reveal_strlit(" JOIN apf_re_procdef t2 on t2.id = t1.proc_def_id WHERE 1 = 1");
    reveal_strlit(" from apf_ru_task t1 JOIN apf_re_procdef t2 on t2.id = t1.proc_def_id WHERE 1 = 1");
    reveal_strlit(" from apf_ru_task t1 WHERE 1 = 1");
    reveal_strlit(" JOIN ");
    reveal_strlit("apf_re_procdef t2 on t2.id = t1.proc_def_id");
    reveal_strlit("apf_ru_identitylink t3 on t3.task_id = t1.id");
    reveal_strlit(" WHERE 1 = 1");
    reveal_strlit(" from ");
    reveal_strlit("apf_ru_task t1");
    reveal_strlit("SELECT");
    let head = query_head(q, fields);
    let a = query_filters(q, fields);
    lemma_filters_extend_head(q, fields);
    match q.order_by {
        Some(o) => lemma_suffix_of_concat(a.sql, " order by "@ + o@),
        None => {},
    }
    let select = match q.count {
        Some(v) => fragment_text(SqlFragment::COUNT(v)),
        None => " DISTINCT"@ + " "@ + fields,
    };
    let from = " from "@ + "apf_ru_task t1"@;
    let j2 = " JOIN "@ + "apf_re_procdef t2 on t2.id = t1.proc_def_id"@;
    let j3 = " JOIN "@ + "apf_ru_identitylink t3 on t3.task_id = t1.id"@;
    let w = " WHERE 1 = 1"@;
    let g = q.candidate_group is Some || q.candidate_user is Some;
    let k = q.process_definition_key is Some;
    if g && !k {
        assert(head =~= ("SELECT"@ + select + from) + (j3 + w));
        lemma_suffix_of_concat("SELECT"@ + select + from, j3 + w);
        let t = " JOIN apf_re_procdef t2 on t2.id = t1.proc_def_id JOIN apf_ru_identitylink t3 on t3.task_id = t1.id WHERE 1 = 1"@;
        if t.is_suffix_of(head) {
            let u = (j3 + w);
            assert(u.is_suffix_of(t)) by {
                assert(t =~= j2 + u);
                lemma_suffix_of_concat(j2, u);
            }
            // The character before the identity-link join differs.
            let hl = head.len() as int;
            assert(head.subrange(hl - t.len(), hl) == t);
            assert(head[hl - u.len() - 1] == t[t.len() - u.len() - 1]);
            assert(("SELECT"@ + select + from).last() == '1');
            assert(head[hl - u.len() - 1] == ("SELECT"@ + select + from).last());
            assert(t[t.len() - u.len() - 1] == 'd');
        }
    } else if g && k {
        assert(head =~= ("SELECT"@ + select + from) + (j2 + j3 + w));
        lemma_suffix_of_concat("SELECT"@ + select + from, j2 + j3 + w);
    } else if !g && k {
        assert(head =~= ("SELECT"@ + select) + (from + j2 + w));
        lemma_suffix_of_concat("SELECT"@ + select, from + j2 + w);
    } else {
        assert(head =~= ("SELECT"@ + select) + (from + w));
        lemma_suffix_of_concat("SELECT"@ + select, from + w);
    }
}

/// The conditions only follow the head: the statement after the filters
/// begins with the head.
proof fn lemma_filters_extend_head(q: TaskQuery, fields: Seq<char>)
    ensures
        query_head(q, fields).is_prefix_of(query_filters(q, fields).sql),
        query_head(q, fields).is_prefix_of(query_sql(q, fields)),
{
    let a0 = SqlAcc { sql: query_head(q, fields), params: Seq::empty(), idx: 0 };
    let a1 = filter_step(a0, opt_view(q.execution_id), "t1.execution_id = $"@, Seq::empty());
    let a2 = filter_step(a1, opt_view(q.proc_inst_id), "t1.proc_inst_id = $"@, Seq::empty());
    let a3 = filter_step(a2, opt_view(q.business_key), "t1.business_key = $"@, Seq::empty());
    let a4 = filter_step(a3, opt_view(q.candidate_group), "t3.group_id in ($"@, ")"@);
    let a5 = filter_step(a4, opt_view(q.candidate_user), "t3.user_id = $"@, Seq::empty());
    let a6 = filter_step(a5, opt_view(q.process_definition_key), "t2.key = $"@, Seq::empty());
    lemma_step_extends(a0, opt_view(q.execution_id), "t1.execution_id = $"@, Seq::empty());
    lemma_step_extends(a1, opt_view(q.proc_inst_id), "t1.proc_inst_id = $"@, Seq::empty());
    lemma_step_extends(a2, opt_view(q.business_key), "t1.business_key = $"@, Seq::empty());
    lemma_step_extends(a3, opt_view(q.candidate_group), "t3.group_id in ($"@, ")"@);
    lemma_step_extends(a4, opt_view(q.candidate_user), "t3.user_id = $"@, Seq::empty());
    lemma_step_extends(a5, opt_view(q.process_definition_key), "t2.key = $"@, Seq::empty());
    let h = query_head(q, fields);
    assert(h.is_prefix_of(a6.sql)) by {
        assert(a6.sql.subrange(0, h.len() as int) =~= h) by {
            assert(a1.sql.subrange(0, h.len() as int) =~= h);
            assert(a2.sql.subrange(0, a1.sql.len() as int) =~= a1.sql);
            assert(a2.sql.subrange(0, h.len() as int) =~= h);
            assert(a3.sql.subrange(0, a2.sql.len() as int) =~= a2.sql);
            assert(a3.sql.subrange(0, h.len() as int) =~= h);
            assert(a4.sql.subrange(0, a3.sql.len() as int) =~= a3.sql);
            assert(a4.sql.subrange(0, h.len() as int) =~= h);
            assert(a5.sql.subrange(0, a4.sql.len() as int) =~= a4.sql);
            assert(a5.sql.subrange(0, h.len() as int) =~= h);
            assert(a6.sql.subrange(0, a5.sql.len() as int) =~= a5.sql);
        }
    }
    match q.order_by {
        Some(o) => {
            assert((a6.sql + " order by "@ + o@).subrange(0, h.len() as int) =~= h);
        },
        None => {},
    }
}

proof fn lemma_step_extends(acc: SqlAcc, value: Option<Seq<char>>, column: Seq<char>, suffix: Seq<char>)
    ensures
        acc.sql.is_prefix_of(filter_step(acc, value, column, suffix).sql),
{
    let n = filter_step(acc, value, column, suffix);
    assert(n.sql.subrange(0, acc.sql.len() as int) =~= acc.sql);
}

/// The columns that a query selects, on one line: the column list with its
/// line breaks and their indentation replaced by single blanks, trimmed.
pub open spec fn selected_fields() -> Seq<char> {
    trim(regex_replace_all(line_break_pattern(), trim(task_select_field()), " "@))
}

/// The column list of the task table.
pub open spec fn task_select_field() -> Seq<char> {
    "\n        t1.id, t1.rev, t1.execution_id, t1.proc_inst_id, t1.proc_def_id,\n        t1.element_id, t1.element_name, t1.element_type, t1.business_key,\n        t1.description, t1.start_user_id, t1.create_time,\n        t1.suspension_state, t1.form_key\n    "@
}

/// Appends the condition and parameter of one filter.
fn push_filter(
    sql: &mut String,
    params: &mut Vec<String>,
    idx: &mut u64,
    value: &Option<String>,
    column: &str,
    suffix: &str,
)
    requires
        *old(idx) < 100,
    ensures
        ({
            let a = filter_step(
                SqlAcc { sql: old(sql)@, params: views(old(params)@), idx: *old(idx) as nat },
                opt_view(*value),
                column@,
                suffix@,
            );
            &&& final(sql)@ == a.sql
            &&& views(final(params)@) == a.params
            &&& *final(idx) as nat == a.idx
        }),
{
    if let Some(v) = value {
        *idx = *idx + 1;
        push_str(sql, " AND ");
        push_str(sql, column);
        push_decimal(sql, *idx);
        push_str(sql, suffix);
        let ghost before = params@;
        params.push(v.clone());
        assert(views(params@) =~= views(before).push(v@));
    }
}

impl TaskQuery {
    /// The column list of the task table, as the statement selects it.
    pub const SELECT_FIELD: &'static str = "\n        t1.id, t1.rev, t1.execution_id, t1.proc_inst_id, t1.proc_def_id,\n        t1.element_id, t1.element_name, t1.element_type, t1.business_key,\n        t1.description, t1.start_user_id, t1.create_time,\n        t1.suspension_state, t1.form_key\n    ";

    /// A query with no filter set.
    pub fn new() -> (r: Self)
        ensures
            r.id is None,
            r.execution_id is None,
            r.proc_inst_id is None,
            r.candidate_group is None,
            r.candidate_user is None,
            r.business_key is None,
            r.process_definition_key is None,
            r.order_by is None,
            r.count is None,
    {
        TaskQuery {
            id: None,
            execution_id: None,
            proc_inst_id: None,
            candidate_group: None,
            candidate_user: None,
            business_key: None,
            process_definition_key: None,
            order_by: None,
            count: None,
        }
    }

    /// Counts the rows by `field` in place of selecting them.
    pub fn count(self, field: &str) -> (r: Self)
        ensures
            r == (TaskQuery { count: Some(r.count->0), ..self }),
            r.count is Some && r.count->0@ == field@,
    {
        TaskQuery { count: Some(field.to_owned()), ..self }
    }

    pub fn id(self, id: &str) -> (r: Self)
        ensures
            r == (TaskQuery { id: Some(r.id->0), ..self }),
            r.id is Some && r.id->0@ == id@,
    {
        TaskQuery { id: Some(id.to_owned()), ..self }
    }

    pub fn execution_id(self, execution_id: &str) -> (r: Self)
        ensures
            r == (TaskQuery { execution_id: Some(r.execution_id->0), ..self }),
            r.execution_id is Some && r.execution_id->0@ == execution_id@,
    {
        TaskQuery { execution_id: Some(execution_id.to_owned()), ..self }
    }

    pub fn proc_inst_id(self, proc_inst_id: &str) -> (r: Self)
        ensures
            r == (TaskQuery { proc_inst_id: Some(r.proc_inst_id->0), ..self }),
            r.proc_inst_id is Some && r.proc_inst_id->0@ == proc_inst_id@,
    {
        TaskQuery { proc_inst_id: Some(proc_inst_id.to_owned()), ..self }
    }

    pub fn candidate_user(self, candidate_user: Option<String>) -> (r: Self)
        ensures
            r == (TaskQuery { candidate_user, ..self }),
    {
        TaskQuery { candidate_user, ..self }
    }

    pub fn candidate_group(self, candidate_group: Option<String>) -> (r: Self)
        ensures
            r == (TaskQuery { candidate_group, ..self }),
    {
        TaskQuery { candidate_group, ..self }
    }

    pub fn business_key(self, business_key: &str) -> (r: Self)
        ensures
            r == (TaskQuery { business_key: Some(r.business_key->0), ..self }),
            r.business_key is Some && r.business_key->0@ == business_key@,
    {
        TaskQuery { business_key: Some(business_key.to_owned()), ..self }
    }

    pub fn process_definition_key(self, process_definition_key: &str) -> (r: Self)
        ensures
            r == (TaskQuery { process_definition_key: Some(r.process_definition_key->0), ..self }),
            r.process_definition_key is Some && r.process_definition_key->0@ == process_definition_key@,
    {
        TaskQuery { process_definition_key: Some(process_definition_key.to_owned()), ..self }
    }

    /// The statement up to its conditions.
    fn build_head(&self, fields: &str) -> (r: String)
        ensures
            r@ == query_head(*self, fields@),
    {
        let mut sql = SqlFragment::SELECT.to_string();
        if let Some(v) = &self.count {
            let c = SqlFragment::COUNT(v.clone()).to_string();
            push_str(&mut sql, c.as_str());
        } else {
            let d = SqlFragment::DISTINCT.to_string();
            push_str(&mut sql, d.as_str());
            let f = SqlFragment::FIELD(fields.to_owned()).to_string();
            push_str(&mut sql, f.as_str());
        }
        let from = SqlFragment::FROM(String::from_str("apf_ru_task t1")).to_string();
        push_str(&mut sql, from.as_str());
        let ghost s1 = sql@;
        if let Some(_) = &self.process_definition_key {
            let j = SqlFragment::JOIN(String::from_str("apf_re_procdef t2 on t2.id = t1.proc_def_id")).to_string();
            push_str(&mut sql, j.as_str());
        } else {
            assert(sql@ =~= s1 + Seq::<char>::empty());
        }
        let ghost s2 = sql@;
        if self.candidate_group.is_some() || self.candidate_user.is_some() {
            let j = SqlFragment::JOIN(String::from_str("apf_ru_identitylink t3 on t3.task_id = t1.id")).to_string();
            push_str(&mut sql, j.as_str());
        } else {
            assert(sql@ =~= s2 + Seq::<char>::empty());
        }
        let w = SqlFragment::WHERE.to_string();
        push_str(&mut sql, w.as_str());
        assert(sql@ =~= query_head(*self, fields@));
        sql
    }

    /// The statement and its parameters for this query, selecting the columns
    /// `fields` where no count is asked for.
    pub fn build_sql_with_fields(&self, fields: &str) -> (r: (String, Vec<String>))
        ensures
            r.0@ == query_sql(*self, fields@),
            views(r.1@) == query_params(*self),
    {
        let mut sql = self.build_head(fields);
        let mut params: Vec<String> = Vec::new();
        let mut idx: u64 = 0;
        proof {
            reveal_strlit("");
        }
        assert(views(params@) =~= Seq::<Seq<char>>::empty());
        let ghost a0 = SqlAcc { sql: sql@, params: views(params@), idx: 0 };
        push_filter(&mut sql, &mut params, &mut idx, &self.execution_id, "t1.execution_id = $", "");
        let ghost a1 = filter_step(a0, opt_view(self.execution_id), "t1.execution_id = $"@, Seq::empty());
        assert(sql@ == a1.sql && views(params@) == a1.params && idx == a1.idx);
        push_filter(&mut sql, &mut params, &mut idx, &self.proc_inst_id, "t1.proc_inst_id = $", "");
        let ghost a2 = filter_step(a1, opt_view(self.proc_inst_id), "t1.proc_inst_id = $"@, Seq::empty());
        assert(sql@ == a2.sql && views(params@) == a2.params && idx == a2.idx);
        push_filter(&mut sql, &mut params, &mut idx, &self.business_key, "t1.business_key = $", "");
        let ghost a3 = filter_step(a2, opt_view(self.business_key), "t1.business_key = $"@, Seq::empty());
        assert(sql@ == a3.sql && views(params@) == a3.params && idx == a3.idx);
        if let Some(v) = &self.candidate_group {
            let _param_in_str = BaseDao::split_params(v.as_str(), ',');
        }
        push_filter(&mut sql, &mut params, &mut idx, &self.candidate_group, "t3.group_id in ($", ")");
        let ghost a4 = filter_step(a3, opt_view(self.candidate_group), "t3.group_id in ($"@, ")"@);
        assert(sql@ == a4.sql && views(params@) == a4.params && idx == a4.idx);
        push_filter(&mut sql, &mut params, &mut idx, &self.candidate_user, "t3.user_id = $", "");
        let ghost a5 = filter_step(a4, opt_view(self.candidate_user), "t3.user_id = $"@, Seq::empty());
        assert(sql@ == a5.sql && views(params@) == a5.params && idx == a5.idx);
        push_filter(&mut sql, &mut params, &mut idx, &self.process_definition_key, "t2.key = $", "");
        let ghost a6 = filter_step(a5, opt_view(self.process_definition_key), "t2.key = $"@, Seq::empty());
        assert(sql@ == a6.sql && views(params@) == a6.params && idx == a6.idx);
        assert(a6 == query_filters(*self, fields@));
        assert(a6.params =~= query_params(*self));
        if let Some(v) = &self.order_by {
            let o = SqlFragment::ORDER_BY(v.clone()).to_string();
            push_str(&mut sql, o.as_str());
        }
        (sql, params)
    }

    /// The statement and its parameters for this query (see `query_sql` and
    /// `query_params`), selecting the task columns on one line where no count
    /// is asked for.
    pub fn build_sql(&self) -> (r: (String, Vec<String>))
        ensures
            r.0@ == query_sql(*self, selected_fields()),
            views(r.1@) == query_params(*self),
    {
        let field = trim_str(Self::SELECT_FIELD);
        let replaced = replace_all("\n\\s*", field.as_str(), " ");
        let field = match replaced {
            Some(f) => trim_str(f.as_str()),
            None => {
                assert(false);
                String::new()
            },
        };
        self.build_sql_with_fields(field.as_str())
    }
}

} // verus!
