use apf_engine::dao::apf_re_procdef_dao::next_version;
use apf_engine::dao::checks::{check_proc_inst_updated, check_taskinst_updated, check_updated, duration, first_row};
use apf_engine::dao::records::{hi_varinst_updated, hi_varinst_upsert, variable_updated, variable_upsert, Upsert};
use apf_engine::dto::ProcdefDto;
use apf_engine::error::{AppError, ErrorCode};
use apf_engine::manager::engine::deployment_builder::DeploymentBuilder;
use apf_engine::manager::engine::process_engine::{get_default_process_engine, ProcessEngine};
use apf_engine::model::{ApfHiVarinst, ApfRuVariable, ApfRuVariableDto};
use apf_engine::{boot, common, gen_id, get_now};

fn variable() -> ApfRuVariable {
    ApfRuVariable {
        id: "v1".to_owned(),
        rev: 3,
        var_type: "bool".to_owned(),
        name: "approval".to_owned(),
        value: "1".to_owned(),
        proc_inst_id: "p1".to_owned(),
        execution_id: None,
        task_id: None,
    }
}

fn dto(value: &str) -> ApfRuVariableDto {
    ApfRuVariableDto {
        var_type: "str".to_owned(),
        name: "approval".to_owned(),
        value: value.to_owned(),
        proc_inst_id: "p1".to_owned(),
        execution_id: Some("e1".to_owned()),
        task_id: Some("t1".to_owned()),
    }
}

#[test]
fn versions_of_a_key() {
    assert_eq!(next_version(&vec![], "k").unwrap(), 1);
    assert_eq!(next_version(&vec![4], "k").unwrap(), 5);
    let e = next_version(&vec![4, 3], "key1").unwrap_err();
    assert_eq!(e.code, ErrorCode::ParseError);
    assert_eq!(e.msg, "apf_re_procdef 中 key(key1) 对应的记录数超过 1.");
}

#[test]
fn update_counts() {
    assert_eq!(check_updated("apf_hi_actinst", "a1", 1).unwrap(), 1);
    let e = check_updated("apf_hi_actinst", "a1", 0).unwrap_err();
    assert_eq!(e.code, ErrorCode::InternalError);
    assert_eq!(e.msg, "apf_hi_actinst(a1) is not updated correctly, affects (0) != 1");
    let e = check_taskinst_updated("t1", 2).unwrap_err();
    assert_eq!(e.msg, "apf_hi_taskinst(t1) is not updated correctly, affects(2) != 1");
    assert!(check_proc_inst_updated("p1", 1).is_ok());
    let e = check_proc_inst_updated("p1", 0).unwrap_err();
    assert_eq!(e.code, ErrorCode::NotFound);
    assert_eq!(e.msg, "apf_ru_execution(p1) is not updated");
}

#[test]
fn first_row_or_not_found() {
    assert_eq!(first_row(vec![7, 8], "x").unwrap(), 7);
    let e = first_row(Vec::<i32>::new(), "apf_hi_varinst(id:v9)").unwrap_err();
    assert_eq!(e.code, ErrorCode::NotFound);
    assert_eq!(e.msg, "apf_hi_varinst(id:v9) is not exist");
    assert_eq!(duration(1000, 1500), 500);
}

#[test]
fn variable_created_or_updated() {
    let up = variable_upsert(Ok(variable()), &dto("test_update_value"));
    match up {
        Upsert::Update(v) => {
            assert_eq!(v.id, "v1");
            assert_eq!(v.rev, 3);
            assert_eq!(v.value, "test_update_value");
            assert_eq!(v.var_type, "str");
            assert_eq!(v.task_id.as_deref(), Some("t1"));
        },
        _ => panic!("expected an update"),
    }
    let missing = AppError::new(ErrorCode::NotFound, Some("gone"), "here", None);
    assert!(matches!(variable_upsert(Err(missing), &dto("x")), Upsert::Create));
    let other = AppError::internal_error("here");
    assert!(matches!(variable_upsert(Err(other), &dto("x")), Upsert::Keep));
}

#[test]
fn history_of_a_variable() {
    let h = ApfHiVarinst {
        id: "v1".to_owned(),
        rev: 1,
        var_type: "bool".to_owned(),
        name: "old".to_owned(),
        value: "0".to_owned(),
        proc_inst_id: "p1".to_owned(),
        execution_id: None,
        task_id: None,
        create_time: 10,
        last_updated_time: 10,
    };
    match hi_varinst_upsert(Ok(h), &variable(), 99) {
        Upsert::Update(u) => {
            assert_eq!(u.name, "approval");
            assert_eq!(u.value, "1");
            assert_eq!(u.create_time, 10);
            assert_eq!(u.last_updated_time, 99);
        },
        _ => panic!("expected an update"),
    }
    let missing = AppError::notfound_error("x");
    assert!(matches!(hi_varinst_upsert(Err(missing), &variable(), 1), Upsert::Create));
}

#[test]
fn procdef_filters_are_trimmed() {
    let mut d = ProcdefDto {
        id: Some(" 1 ".to_owned()),
        name: None,
        key: Some("\tkey\n".to_owned()),
        deployment_id: Some("d".to_owned()),
        deployer_id: None,
        deployer_name: Some("  ".to_owned()),
        company_id: None,
        company_name: Some("co ".to_owned()),
    };
    d.trim();
    assert_eq!(d.id.as_deref(), Some("1"));
    assert_eq!(d.name, None);
    assert_eq!(d.key.as_deref(), Some("key"));
    assert_eq!(d.deployment_id.as_deref(), Some("d"));
    assert_eq!(d.deployer_name.as_deref(), Some(""));
    assert_eq!(d.company_name.as_deref(), Some("co"));
    let before = format!("{:?}", d);
    d.trim();
    assert_eq!(format!("{:?}", d), before);
}

#[test]
fn server_addresses() {
    let s = boot::Server { ip: "127.0.0.1".to_owned(), port: 8080, thread_per_worker: 1, workers: 2 };
    assert_eq!(s.addr(), "127.0.0.1:8080");
    let s = common::Server { ip: "0.0.0.0".to_owned(), port: 0, thread_per_worker: 1, workers: 2 };
    assert_eq!(s.addr(), "0.0.0.0:0");
    let d = common::Database { max: None, host: None, port: None, user: None, password: None, dbname: None };
    assert_eq!(d.pool_size(), 15);
}

#[test]
fn engine_and_services() {
    let engine = get_default_process_engine();
    assert_eq!(engine.get_name(), "default");
    assert_eq!(ProcessEngine::new("other").get_name(), "other");
    let b = engine.get_repository_service().create_deployment_builder();
    assert!(b.new_deployment.key.is_none());
}

#[test]
fn deployment_builder_steps() {
    let b = DeploymentBuilder::new().name("test_deploy").unwrap().key("test_key").unwrap();
    assert_eq!(b.new_deployment.name.as_deref(), Some("test_deploy"));
    assert_eq!(b.new_deployment.key.as_deref(), Some("test_key"));
    let b = b.with_file("bpmn/process1.bpmn.xml", b"<x/>".to_vec());
    assert!(b.new_deployment.key.is_none());
    assert_eq!(b.new_deployment.new_bytearray.name.as_deref(), Some("bpmn/process1.bpmn.xml"));
    assert_eq!(b.new_deployment.new_bytearray.bytes.as_deref(), Some(&b"<x/>"[..]));
    assert!(DeploymentBuilder::check_file_size("a", 1).is_ok());
    assert!(DeploymentBuilder::check_file_size("a", 2 * 1024 * 1024).is_ok());
    let e = DeploymentBuilder::check_file_size("a.xml", 2 * 1024 * 1024 + 1).unwrap_err();
    assert_eq!(e.code, ErrorCode::InternalError);
    assert_eq!(e.msg, "文件大小不能超过 2M (a.xml)");
    let e = DeploymentBuilder::check_file_size("b.xml", 0).unwrap_err();
    assert_eq!(e.msg, "文件大小不能为 0 (b.xml)");
}

#[test]
fn fresh_ids_are_uuids() {
    let a = gen_id();
    let b = gen_id();
    assert_ne!(a, b);
    for id in [a, b] {
        let cs: Vec<char> = id.chars().collect();
        assert_eq!(cs.len(), 36);
        for (i, c) in cs.iter().enumerate() {
            if i == 8 || i == 13 || i == 18 || i == 23 {
                assert_eq!(*c, '-');
            } else {
                assert!(c.is_ascii_hexdigit() && !c.is_ascii_uppercase());
            }
        }
        assert_eq!(cs[14], '4');
        assert!("89ab".contains(cs[19]));
    }
}

#[test]
fn clock_moves_forward() {
    let a = get_now();
    let b = get_now();
    assert!(a > 1_500_000_000_000);
    assert!(b >= a);
}

#[test]
fn writing_the_same_values_twice_changes_nothing() {
    let once = variable_updated(variable(), &dto("again"));
    let twice = variable_updated(variable_updated(variable(), &dto("again")), &dto("again"));
    assert_eq!(once.id, twice.id);
    assert_eq!(once.rev, twice.rev);
    assert_eq!(once.name, twice.name);
    assert_eq!(once.value, twice.value);
    assert_eq!(once.var_type, twice.var_type);
    assert_eq!(once.proc_inst_id, twice.proc_inst_id);
    assert_eq!(once.execution_id, twice.execution_id);
    assert_eq!(once.task_id, twice.task_id);
    assert_eq!(twice.value, "again");
    assert_eq!(twice.id, "v1");

    let h = ApfHiVarinst {
        id: "v1".to_owned(),
        rev: 1,
        var_type: "bool".to_owned(),
        name: "old".to_owned(),
        value: "0".to_owned(),
        proc_inst_id: "p1".to_owned(),
        execution_id: None,
        task_id: None,
        create_time: 10,
        last_updated_time: 10,
    };
    let h2 = hi_varinst_updated(h, &variable(), 50);
    let (v2, n2, t2, u2) = (h2.value.clone(), h2.name.clone(), h2.var_type.clone(), h2.last_updated_time);
    let h3 = hi_varinst_updated(h2, &variable(), 50);
    assert_eq!((h3.value.clone(), h3.name.clone(), h3.var_type.clone(), h3.last_updated_time), (v2, n2, t2, u2));
    assert_eq!(h3.id, "v1");
    assert_eq!(h3.create_time, 10);
    assert_eq!(h3.last_updated_time, 50);
    assert_eq!(h3.value, "1");
    assert_eq!(h3.name, "approval");
}
