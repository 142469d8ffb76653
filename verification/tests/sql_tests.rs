use auth_store::error::Error;
use auth_store::sql::{
    create_table_stmt, delete_by_email_stmt, delete_by_id_stmt, insert_params, insert_stmt,
    map_create_outcome, map_delete_outcome, map_fetch_outcome, map_update_outcome,
    select_by_email_stmt, select_by_id_stmt, update_params, update_stmt, Dialect, ExecOutcome,
    FetchOutcome, Param,
};
use auth_store::user::User;

#[test]
fn statements_use_each_dialects_placeholders() {
    for d in [Dialect::MySql, Dialect::Postgres] {
        for stmt in [
            create_table_stmt(d),
            insert_stmt(d),
            update_stmt(d),
            delete_by_id_stmt(d),
            delete_by_email_stmt(d),
            select_by_id_stmt(d),
            select_by_email_stmt(d),
        ] {
            match d {
                Dialect::MySql => assert!(!stmt.contains('$')),
                Dialect::Postgres => assert!(!stmt.contains('?')),
            }
        }
    }
    assert!(create_table_stmt(Dialect::MySql).starts_with("CREATE TABLE IF NOT EXISTS users"));
    assert!(create_table_stmt(Dialect::Postgres).starts_with("CREATE TABLE IF NOT EXISTS users"));
}

#[test]
fn insert_binds_in_declaration_order_for_both_dialects() {
    for d in [Dialect::MySql, Dialect::Postgres] {
        let params = insert_params(d, 9, "a@b.com", "H1", true);
        assert_eq!(
            params,
            vec![
                Param::Id(9),
                Param::Text("a@b.com".to_string()),
                Param::Text("H1".to_string()),
                Param::Flag(true),
            ]
        );
    }
}

#[test]
fn update_bind_order_is_dialect_specific() {
    let u = User {
        id: 9,
        email: "a@b.com".to_string(),
        password: "H1".to_string(),
        is_admin: true,
    };
    assert_eq!(
        update_params(Dialect::MySql, &u),
        vec![
            Param::Text("a@b.com".to_string()),
            Param::Text("H1".to_string()),
            Param::Flag(true),
            Param::Id(9),
        ]
    );
    assert_eq!(
        update_params(Dialect::Postgres, &u),
        vec![
            Param::Id(9),
            Param::Text("a@b.com".to_string()),
            Param::Text("H1".to_string()),
            Param::Flag(true),
        ]
    );
}

#[test]
fn driver_outcomes_normalize_into_the_taxonomy() {
    assert_eq!(map_create_outcome(ExecOutcome::Done(1)), Ok(()));
    assert_eq!(
        map_create_outcome(ExecOutcome::UniqueViolation("dup".to_string())),
        Err(Error::EmailAlreadyExists)
    );
    assert_eq!(
        map_create_outcome(ExecOutcome::Fault("io".to_string())),
        Err(Error::SqlxError("io".to_string()))
    );

    assert_eq!(map_update_outcome(ExecOutcome::Done(0)), Err(Error::UserNotFoundError));
    assert_eq!(map_update_outcome(ExecOutcome::Done(1)), Ok(()));
    assert_eq!(
        map_update_outcome(ExecOutcome::UniqueViolation("dup".to_string())),
        Err(Error::EmailAlreadyExists)
    );

    assert_eq!(map_delete_outcome(ExecOutcome::Done(0)), Ok(()));
    assert_eq!(map_delete_outcome(ExecOutcome::Done(1)), Ok(()));
    assert_eq!(
        map_delete_outcome(ExecOutcome::Fault("io".to_string())),
        Err(Error::SqlxError("io".to_string()))
    );

    let row = User {
        id: 1,
        email: "a@b.com".to_string(),
        password: "h".to_string(),
        is_admin: false,
    };
    assert_eq!(map_fetch_outcome(FetchOutcome::Row(row.clone())), Ok(row));
    assert_eq!(map_fetch_outcome(FetchOutcome::NoRows), Err(Error::UserNotFoundError));
    assert_eq!(
        map_fetch_outcome(FetchOutcome::Fault("io".to_string())),
        Err(Error::SqlxError("io".to_string()))
    );
}
