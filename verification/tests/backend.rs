use vertebrae_local_backend::error::{ColumnKind, DbStep, ErrorKind, LocalError, ServiceError, failure};
use vertebrae_local_backend::migrations::{
    CURRENT_VERSION, MigrationPlan, applied_versions, known_migrations, plan_migrations,
};
use vertebrae_local_backend::paths::{DbLocation, DB_FILENAME, default_db_path};
use vertebrae_local_backend::rows::{
    get_bool, get_i64, get_opt_bool, get_opt_i64, get_opt_text, get_text,
};
use vertebrae_local_backend::services::{LocalService, not_yet_implemented, workflow_not_found};
use vertebrae_local_backend::text::decimal_string;
use vertebrae_local_backend::ChangeEvent;

fn s(x: &str) -> String {
    x.to_string()
}

#[test]
fn decimal_renders_like_display() {
    for n in [0i64, 7, 9, 10, 99, 100, 12345, -1, -42, -100, i64::MAX, i64::MIN] {
        assert_eq!(decimal_string(n), n.to_string());
    }
}

#[test]
fn failure_messages_name_the_step() {
    assert_eq!(
        failure(&DbStep::CreateDataDir { parent: s("/tmp/x") }, "denied"),
        LocalError::Database(s("cannot create data directory /tmp/x: denied"))
    );
    assert_eq!(failure(&DbStep::Open, "e"), LocalError::Database(s("libsql open failed: e")));
    assert_eq!(failure(&DbStep::Connect, "e"), LocalError::Database(s("libsql connect failed: e")));
    assert_eq!(failure(&DbStep::BeginTransaction, "e"), LocalError::Database(s("tx begin failed: e")));
    assert_eq!(failure(&DbStep::Execute, "e"), LocalError::Query(s("execute failed: e")));
    assert_eq!(failure(&DbStep::Query, "e"), LocalError::Query(s("query failed: e")));
    assert_eq!(failure(&DbStep::FetchRow, "e"), LocalError::Query(s("row fetch failed: e")));
    assert_eq!(
        failure(&DbStep::ReadColumn { kind: ColumnKind::OptF64, idx: 12 }, "bad"),
        LocalError::Query(s("row opt f64 col 12 failed: bad"))
    );
    assert_eq!(failure(&DbStep::ReadVersion, "e"), LocalError::Query(s("version read failed: e")));
    assert_eq!(
        failure(&DbStep::ApplyMigration { version: 1 }, "syntax"),
        LocalError::Migration(s("migration 1 failed: syntax"))
    );
    assert_eq!(
        failure(&DbStep::RecordVersion { version: -3 }, "x"),
        LocalError::Migration(s("record version -3 failed: x"))
    );
    assert_eq!(failure(&DbStep::Commit, "e"), LocalError::Migration(s("commit failed: e")));
    assert_eq!(
        failure(&DbStep::ResolveDataDir, "no home"),
        LocalError::Database(s("cannot resolve data directory: no home"))
    );
}

#[test]
fn local_error_display_text() {
    assert_eq!(LocalError::Database(s("m")).to_display_string(), "Database error: m");
    assert_eq!(LocalError::Query(s("m")).to_display_string(), "Query error: m");
    assert_eq!(LocalError::Migration(s("m")).to_display_string(), "Migration error: m");
    assert_eq!(LocalError::Route(s("m")).to_display_string(), "Route evaluation error: m");
    assert_eq!(LocalError::Orchestrator(s("m")).to_display_string(), "Orchestrator error: m");
}

#[test]
fn local_error_new_and_message() {
    let e = LocalError::new(ErrorKind::Route, s("bad rule"));
    assert_eq!(e, LocalError::Route(s("bad rule")));
    assert_eq!(e.message(), "bad rule");
}

#[test]
fn service_error_mapping() {
    assert_eq!(ServiceError::from(LocalError::Database(s("m"))), ServiceError::ConfigError(s("m")));
    assert_eq!(
        ServiceError::from(LocalError::Query(s("m"))),
        ServiceError::ConfigError(s("query error: m"))
    );
    assert_eq!(
        ServiceError::from(LocalError::Migration(s("m"))),
        ServiceError::ConfigError(s("migration error: m"))
    );
    assert_eq!(
        ServiceError::from(LocalError::Route(s("m"))),
        ServiceError::ValidationFailed { message: s("m") }
    );
    assert_eq!(
        ServiceError::from(LocalError::Orchestrator(s("m"))),
        ServiceError::ConfigError(s("orchestrator error: m"))
    );
}

#[test]
fn service_error_keeps_message_for_every_kind() {
    for kind in [ErrorKind::Database, ErrorKind::Query, ErrorKind::Migration, ErrorKind::Route, ErrorKind::Orchestrator] {
        let r = ServiceError::from(LocalError::new(kind, s("the detail")));
        let text = match &r {
            ServiceError::ConfigError(m) => m.clone(),
            ServiceError::ValidationFailed { message } => message.clone(),
            ServiceError::WorkflowNotFound { workflow_id } => workflow_id.clone(),
        };
        assert!(text.ends_with("the detail"));
        assert_eq!(matches!(r, ServiceError::ValidationFailed { .. }), kind == ErrorKind::Route);
    }
}

#[test]
fn text_columns() {
    assert_eq!(get_text(0, Ok(Some(s("hi")))), Ok(s("hi")));
    assert_eq!(get_text(3, Ok(None)), Err(LocalError::Query(s("NULL in non-null text col 3"))));
    assert_eq!(get_text(1, Err(s("boom"))), Err(LocalError::Query(s("row text col 1 failed: boom"))));
    assert_eq!(get_opt_text(2, Ok(None)), Ok(None));
    assert_eq!(get_opt_text(2, Ok(Some(s("x")))), Ok(Some(s("x"))));
    assert_eq!(get_opt_text(2, Err(s("e"))), Err(LocalError::Query(s("row opt text col 2 failed: e"))));
}

#[test]
fn integer_columns() {
    assert_eq!(get_i64(0, Ok(-5)), Ok(-5));
    assert_eq!(get_i64(4, Err(s("null"))), Err(LocalError::Query(s("row i64 col 4 failed: null"))));
    assert_eq!(get_opt_i64(0, Ok(None)), Ok(None));
    assert_eq!(get_opt_i64(0, Ok(Some(9))), Ok(Some(9)));
    assert_eq!(get_opt_i64(5, Err(s("e"))), Err(LocalError::Query(s("row opt i64 col 5 failed: e"))));
}

#[test]
fn bool_columns() {
    assert_eq!(get_bool(0, Ok(None)), Ok(false));
    assert_eq!(get_bool(0, Ok(Some(0))), Ok(false));
    assert_eq!(get_bool(0, Ok(Some(1))), Ok(true));
    assert_eq!(get_bool(0, Ok(Some(-7))), Ok(true));
    assert_eq!(get_bool(6, Err(s("e"))), Err(LocalError::Query(s("row bool col 6 failed: e"))));
    assert_eq!(get_opt_bool(0, Ok(None)), Ok(None));
    assert_eq!(get_opt_bool(0, Ok(Some(0))), Ok(Some(false)));
    assert_eq!(get_opt_bool(0, Ok(Some(2))), Ok(Some(true)));
    assert_eq!(get_opt_bool(7, Err(s("e"))), Err(LocalError::Query(s("row opt bool col 7 failed: e"))));
}

fn under(dir: &str) -> DbLocation<String> {
    DbLocation::InDirectory { dir: s(dir), file_name: DB_FILENAME }
}

#[test]
fn default_path_prefers_non_empty_override() {
    assert_eq!(
        default_db_path(Some(s("/custom/db.sqlite")), Ok(s("/data"))),
        Ok(DbLocation::Override(s("/custom/db.sqlite")))
    );
    assert_eq!(
        default_db_path::<String>(Some(s("/custom/db.sqlite")), Err(s("no home"))),
        Ok(DbLocation::Override(s("/custom/db.sqlite")))
    );
}

#[test]
fn default_path_ignores_empty_override() {
    assert_eq!(default_db_path(Some(s("")), Ok(s("/data"))), Ok(under("/data")));
    assert_eq!(
        default_db_path(None, Ok(s("/home/u/.local/share/vertebrae"))),
        Ok(under("/home/u/.local/share/vertebrae"))
    );
    assert_eq!(DB_FILENAME, "vertebrae.db");
}

#[test]
fn default_path_keeps_the_directory_as_given() {
    let dir = std::path::PathBuf::from("C:\\data\\");
    assert_eq!(
        default_db_path(None, Ok(dir.clone())),
        Ok(DbLocation::InDirectory { dir, file_name: "vertebrae.db" })
    );
}

#[test]
fn default_path_reports_data_dir_failure() {
    assert_eq!(
        default_db_path::<String>(None, Err(s("no home"))),
        Err(LocalError::Database(s("cannot resolve data directory: no home")))
    );
}

#[test]
fn conversion_through_into() {
    let e: ServiceError = LocalError::Query(s("x")).into();
    assert_eq!(e, ServiceError::ConfigError(s("query error: x")));
}

#[test]
fn plan_for_fresh_database() {
    assert_eq!(known_migrations(), vec![1i64]);
    assert_eq!(plan_migrations(&vec![]), MigrationPlan::Apply { pending: vec![1], record: CURRENT_VERSION });
}

#[test]
fn plan_for_current_database() {
    assert_eq!(plan_migrations(&vec![1]), MigrationPlan::UpToDate);
    assert_eq!(plan_migrations(&vec![0, 1]), MigrationPlan::UpToDate);
}

#[test]
fn plan_for_unrelated_versions() {
    assert_eq!(plan_migrations(&vec![0]), MigrationPlan::Apply { pending: vec![1], record: 1 });
}

#[test]
fn second_run_applies_nothing() {
    let mut applied: Vec<i64> = vec![];
    match plan_migrations(&applied) {
        MigrationPlan::Apply { pending, record } => {
            // Each version is recorded at most once.
            for v in pending.into_iter().chain(std::iter::once(record)) {
                if !applied.contains(&v) {
                    applied.push(v);
                }
            }
        }
        MigrationPlan::UpToDate => panic!("fresh database must be migrated"),
    }
    assert_eq!(applied, vec![1]);
    assert_eq!(plan_migrations(&applied), MigrationPlan::UpToDate);
}

#[test]
fn versions_read_from_cells() {
    assert_eq!(applied_versions(&vec![]), Ok(vec![]));
    assert_eq!(applied_versions(&vec![Ok(Some(1)), Ok(None), Ok(Some(3))]), Ok(vec![1, 0, 3]));
    assert_eq!(
        applied_versions(&vec![Ok(Some(1)), Err(s("first")), Err(s("second"))]),
        Err(LocalError::Query(s("version read failed: first")))
    );
}

#[test]
fn unimplemented_services_refuse() {
    assert_eq!(
        not_yet_implemented(LocalService::Task),
        ServiceError::ValidationFailed { message: s("LocalTaskService: not yet implemented") }
    );
    assert_eq!(
        not_yet_implemented(LocalService::Workflow),
        ServiceError::ValidationFailed { message: s("LocalWorkflowService: not yet implemented") }
    );
    assert_eq!(workflow_not_found("wf-1"), ServiceError::WorkflowNotFound { workflow_id: s("wf-1") });
}

#[test]
fn change_event_holds_its_fields() {
    let e = ChangeEvent { entity: s("task"), entity_id: s("t1"), project_id: s("p1"), event: s("task_created") };
    assert_eq!(e.clone(), e);
    assert_eq!(e.event, "task_created");
}
