use apf_engine::dao::apf_re_procdef_dao::find_by_dto_sql;
use apf_engine::dto::ProcdefDto;
use apf_engine::dao::base_dao::BaseDao;
use apf_engine::dao::sql_fragment::SqlFragment;
use apf_engine::manager::engine::query::task_query::TaskQuery;

const FIELDS: &str = "t1.id, t1.rev, t1.execution_id, t1.proc_inst_id, t1.proc_def_id, t1.element_id, t1.element_name, t1.element_type, t1.business_key, t1.description, t1.start_user_id, t1.create_time, t1.suspension_state, t1.form_key";

#[test]
fn sql_fragments() {
    assert_eq!(SqlFragment::SELECT.to_string(), "SELECT");
    assert_eq!(SqlFragment::DISTINCT.to_string(), " DISTINCT");
    assert_eq!(SqlFragment::COUNT("id".to_owned()).to_string(), " COUNT(id)");
    assert_eq!(SqlFragment::WHERE.to_string(), " WHERE 1 = 1");
    assert_eq!(SqlFragment::JOIN("t2".to_owned()).to_string(), " JOIN t2");
    assert_eq!(SqlFragment::LEFT_JOIN("t2".to_owned()).to_string(), " LEFT JOIN t2");
    assert_eq!(SqlFragment::AND("a = 1".to_owned()).to_string(), " AND a = 1");
    assert_eq!(SqlFragment::FIELD("a, b".to_owned()).to_string(), " a, b");
    assert_eq!(SqlFragment::FROM("t".to_owned()).to_string(), " from t");
    assert_eq!(SqlFragment::ORDER_BY("a desc".to_owned()).to_string(), " order by a desc");
    assert_eq!(SqlFragment::BLANK, " ");
    assert_eq!(SqlFragment::WHERE.vechars(), " WHERE 1 = 1".chars().collect::<Vec<char>>());
}

#[test]
fn split_params_quotes_each_value() {
    assert_eq!(BaseDao::split_params("test_group_id_1, test_group_id_2", ','), "'test_group_id_1','test_group_id_2'");
    assert_eq!(BaseDao::split_params("a", ','), "'a'");
    assert_eq!(BaseDao::split_params("", ','), "''");
    assert_eq!(BaseDao::split_params(" x ;y;", ';'), "'x','y',''");
}

#[test]
fn query_without_filters() {
    let (sql, params) = TaskQuery::new().build_sql();
    assert_eq!(sql, format!("SELECT DISTINCT {} from apf_ru_task t1 WHERE 1 = 1", FIELDS));
    assert!(params.is_empty());
}

#[test]
fn query_with_every_filter() {
    let q = TaskQuery::new()
        .execution_id("test_exec_id_1")
        .candidate_user(Some("test_user_id_1".to_owned()))
        .candidate_group(Some("test_group_id_1, test_group_id_2".to_owned()))
        .process_definition_key("test_process_definition_key");
    let (sql, params) = q.build_sql();
    assert_eq!(
        sql,
        format!(
            "SELECT DISTINCT {} from apf_ru_task t1 JOIN apf_re_procdef t2 on t2.id = t1.proc_def_id JOIN apf_ru_identitylink t3 on t3.task_id = t1.id WHERE 1 = 1 AND t1.execution_id = $1 AND t3.group_id in ($2) AND t3.user_id = $3 AND t2.key = $4",
            FIELDS
        )
    );
    assert_eq!(
        params,
        vec!["test_exec_id_1", "test_group_id_1, test_group_id_2", "test_user_id_1", "test_process_definition_key"]
    );
}

#[test]
fn count_query() {
    let q = TaskQuery::new().execution_id("e1").count("id");
    let (sql, params) = q.build_sql();
    assert_eq!(sql, "SELECT COUNT(id) from apf_ru_task t1 WHERE 1 = 1 AND t1.execution_id = $1");
    assert_eq!(params, vec!["e1"]);
}

#[test]
fn query_numbers_parameters_in_order() {
    let q = TaskQuery::new().proc_inst_id("p").business_key("b").id("ignored");
    let (sql, params) = q.build_sql_with_fields("t1.id");
    assert_eq!(sql, "SELECT DISTINCT t1.id from apf_ru_task t1 WHERE 1 = 1 AND t1.proc_inst_id = $1 AND t1.business_key = $2");
    assert_eq!(params, vec!["p", "b"]);
}

#[test]
fn setters_set_only_their_filter() {
    let q = TaskQuery::new().business_key("bk");
    assert_eq!(q.business_key.as_deref(), Some("bk"));
    assert!(q.id.is_none() && q.execution_id.is_none() && q.count.is_none());
    let q = q.candidate_user(None);
    assert!(q.candidate_user.is_none());
    assert_eq!(q.business_key.as_deref(), Some("bk"));
}

#[test]
fn procdef_search_statement() {
    let base = "select t1.id, t1.rev, t1.name, t1.key, t1.version, t1.deployment_id, t1.resource_name, t1.description, t1.suspension_state, t1.deployer_id, t1.deployer_name, t1.company_id, t1.company_name, t2.deploy_time from apf_re_procdef t1 join apf_re_deployment t2 on t2.id = t1.deployment_id where t1.is_deleted = 0";
    let d = ProcdefDto {
        id: Some("1".to_owned()),
        name: None,
        key: Some("k".to_owned()),
        deployment_id: None,
        deployer_id: None,
        deployer_name: None,
        company_id: Some("c".to_owned()),
        company_name: None,
    };
    let (sql, params) = find_by_dto_sql(&d);
    assert_eq!(sql, format!("{} and t1.id = $1 and t1.key = $2 and t1.company_id = $3", base));
    assert_eq!(params, vec!["1", "k", "c"]);
    let none = ProcdefDto {
        id: None,
        name: None,
        key: None,
        deployment_id: None,
        deployer_id: None,
        deployer_name: None,
        company_id: None,
        company_name: None,
    };
    assert_eq!(find_by_dto_sql(&none).0, base);
    let blank = ProcdefDto {
        id: Some("".to_owned()),
        name: Some("n".to_owned()),
        key: None,
        deployment_id: Some("".to_owned()),
        deployer_id: None,
        deployer_name: None,
        company_id: None,
        company_name: Some("co".to_owned()),
    };
    let (sql, params) = find_by_dto_sql(&blank);
    assert_eq!(sql, format!("{} and t1.name = $1 and t1.company_name = $2", base));
    assert_eq!(params, vec!["n", "co"]);
}

#[test]
fn every_set_filter_is_one_numbered_parameter() {
    let q = TaskQuery::new().execution_id("e").proc_inst_id("p").business_key("b");
    let (sql, params) = q.build_sql_with_fields("x");
    assert_eq!(params.len(), 3);
    assert!(sql.contains("$1") && sql.contains("$2") && sql.contains("$3") && !sql.contains("$4"));
}
