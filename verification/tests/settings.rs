use pg_durable::settings as own;
use pg_durable::settings::{pg_init, Setting, SettingContext, SettingValue};

fn settings() -> Vec<Setting> {
    match pg_init(true) {
        Ok(settings) => settings,
        Err(e) => panic!("{e}"),
    }
}

fn find(name: &str) -> Setting {
    for setting in settings() {
        if setting.name == name {
            return setting;
        }
    }
    panic!("no setting {name}")
}

fn number(name: &str) -> (i32, i32, i32) {
    match find(name).initial {
        SettingValue::Integer { value, least, greatest } => (value, least, greatest),
        _ => panic!("{name} is no number"),
    }
}

#[test]
fn loads_only_with_the_server() {
    match pg_init(false) {
        Ok(_) => panic!("must be refused"),
        Err(e) => assert_eq!(
            e,
            "pg_durable must be loaded via shared_preload_libraries.\n\nHINT: Add 'pg_durable' to shared_preload_libraries in postgresql.conf and restart the server."
        ),
    }
}

#[test]
fn connection_limit_guc_defaults() {
    assert_eq!(number("pg_durable.max_management_connections"), (6, 1, 1000));
    assert_eq!(number("pg_durable.max_duroxide_connections"), (10, 1, 1000));
    assert_eq!(number("pg_durable.max_user_connections"), (10, 1, 1000));
    assert_eq!(number("pg_durable.max_new_transaction_starts"), (2, 1, 1000));
    assert_eq!(number("pg_durable.execution_acquire_timeout"), (30, 1, 3600));
    assert_eq!(number("pg_durable.new_transaction_start_timeout"), (5, 1, 3600));
    assert_eq!(number("pg_durable.list_instances_max_limit"), (1000, 1, 1_000_000));
    assert_eq!(number("pg_durable.retention_days"), (30, 0, 36500));
    assert_eq!(number("pg_durable.reconcile_interval"), (3600, 0, 86400));
}

#[test]
fn text_defaults() {
    for (name, expected) in [
        ("pg_durable.worker_role", "postgres"),
        ("pg_durable.database", "postgres"),
        ("pg_durable.host", ""),
    ] {
        let setting = find(name);
        assert!(matches!(setting.initial, SettingValue::Text(text) if text == expected));
        assert_eq!(setting.context, SettingContext::Postmaster);
    }
}

#[test]
fn superuser_guc_boot_default_is_off() {
    let setting = find("pg_durable.enable_superuser_instances");
    assert!(matches!(setting.initial, SettingValue::Flag(false)));
    assert_eq!(setting.context, SettingContext::Postmaster);
    assert!(setting.superuser_only);
}

#[test]
fn workflow_sql_is_logged_by_default() {
    let setting = find("pg_durable.log_workflow_sql");
    assert!(matches!(setting.initial, SettingValue::Flag(true)));
    assert!(!setting.superuser_only);
}

#[test]
fn the_listing_limit_alone_changes_at_runtime() {
    let all = settings();
    assert_eq!(all.len(), 14);
    for setting in &all {
        assert_eq!(
            setting.context == SettingContext::Suset,
            setting.name == "pg_durable.list_instances_max_limit"
        );
        assert!(setting.name.starts_with("pg_durable."));
        assert!(!setting.summary.is_empty());
    }
    assert_eq!(pg_durable::WORKER_SCHEMA_VERSION, 1);
}

#[test]
fn the_table_holds_the_initial_values() {
    assert_eq!(number("pg_durable.max_management_connections").0, own::MAX_MANAGEMENT_CONNECTIONS);
    assert_eq!(number("pg_durable.list_instances_max_limit").0, own::LIST_INSTANCES_MAX_LIMIT);
    assert_eq!(number("pg_durable.retention_days").0, own::RETENTION_DAYS);
    assert_eq!(own::WORKER_ROLE, "postgres");
    assert_eq!(own::HOST, "");
    assert!(!own::ENABLE_SUPERUSER_INSTANCES);
    assert!(own::LOG_WORKFLOW_SQL);
}
