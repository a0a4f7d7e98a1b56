use container_db::container_store::{
    affected_outcome, exists_outcome, listing_outcome, lookup_outcome, rows_to_containers,
    status_update, write_outcome, Creation, Step,
};
use container_db::row::{new_row, row_to_container, ConfigBlob, ContainerRow};
use container_db::statement::{Reply, Statement};
use container_db::migrations::run as provision;
use container_db::{
    Container, ContainerConfig, ContainerId, ContainerStatus, ContainerStore, Database, DbError,
    DriverError, DriverErrorKind, Timestamp,
};

fn config() -> ContainerConfig {
    ContainerConfig {
        cpu_limit: Some(2),
        memory_limit: None,
        disk_limit: Some(100 * 1024 * 1024),
        network_interfaces: vec![],
        rootfs_path: "/var/lib/lxc/test/rootfs".to_string(),
        environment: vec![("LANG".to_string(), "C".to_string())],
    }
}

fn stored_row() -> ContainerRow {
    ContainerRow {
        id: "67e55044-10b1-426f-9247-bb680e5fe0c8".to_string(),
        name: "web-1".to_string(),
        status: "running".to_string(),
        template: "alpine".to_string(),
        node_id: Some("00000000-0000-0000-0000-00000000002a".to_string()),
        created_at: Timestamp { seconds: 100, nanos: 5 },
        updated_at: Timestamp { seconds: 200, nanos: 6 },
        config: ConfigBlob::Parsed(config()),
    }
}

fn stored_container() -> Container {
    Container {
        id: ContainerId(0x67e55044_10b1_426f_9247_bb680e5fe0c8),
        name: "web-1".to_string(),
        status: ContainerStatus::Running,
        template: "alpine".to_string(),
        node_id: Some(ContainerId(42)),
        created_at: Timestamp { seconds: 100, nanos: 5 },
        updated_at: Timestamp { seconds: 200, nanos: 6 },
        config: config(),
    }
}

fn busy() -> DriverError {
    DriverError::new(DriverErrorKind::Other, "database is locked")
}

fn duplicate() -> DriverError {
    DriverError::new(
        DriverErrorKind::UniqueViolation,
        "UNIQUE constraint failed: containers.name",
    )
}

#[test]
fn row_reads_as_its_entity() {
    assert_eq!(row_to_container(stored_row()), Ok(stored_container()));
}

#[test]
fn identifier_is_read_in_every_form_the_parser_takes() {
    let value = 0x67e55044_10b1_426f_9247_bb680e5fe0c8;
    for text in [
        "67e55044-10b1-426f-9247-bb680e5fe0c8",
        "67E55044-10B1-426F-9247-BB680E5FE0C8",
        "67e5504410b1426f9247bb680e5fe0c8",
        "{67e55044-10b1-426f-9247-bb680e5fe0c8}",
        "urn:uuid:67e55044-10b1-426f-9247-bb680e5fe0c8",
    ] {
        let mut row = stored_row();
        row.id = text.to_string();
        assert_eq!(row_to_container(row).map(|c| c.id), Ok(ContainerId(value)));
    }
}

#[test]
fn malformed_identifier_is_invalid_data() {
    for text in ["", "not-a-uuid", "67e55044-10b1-426f-9247-bb680e5fe0cg", "web-1"] {
        let mut row = stored_row();
        row.id = text.to_string();
        let complaint = uuid::Uuid::parse_str(text).expect_err("no identifier");
        assert_eq!(
            row_to_container(row),
            Err(DbError::InvalidData(format!("Invalid UUID: {}", complaint)))
        );
    }
}

#[test]
fn malformed_config_is_invalid_data() {
    let mut row = stored_row();
    row.config = ConfigBlob::Malformed("expected value at line 1 column 1".to_string());
    assert_eq!(
        row_to_container(row),
        Err(DbError::InvalidData(
            "Invalid config JSON: expected value at line 1 column 1".to_string()
        ))
    );
}

#[test]
fn identifier_is_held_against_the_row_before_the_config() {
    let mut row = stored_row();
    row.id = "x".to_string();
    row.config = ConfigBlob::Malformed("EOF while parsing".to_string());
    let complaint = uuid::Uuid::parse_str("x").expect_err("no identifier");
    assert_eq!(
        row_to_container(row),
        Err(DbError::InvalidData(format!("Invalid UUID: {}", complaint)))
    );
}

#[test]
fn unknown_status_reads_as_error() {
    for word in ["", "paused", "RUNNING", "running ", "stoped"] {
        let mut row = stored_row();
        row.status = word.to_string();
        assert_eq!(
            row_to_container(row).map(|c| c.status),
            Ok(ContainerStatus::Error)
        );
    }
}

#[test]
fn malformed_node_reads_as_no_node() {
    let mut row = stored_row();
    row.node_id = Some("node-7".to_string());
    assert_eq!(row_to_container(row).map(|c| c.node_id), Ok(None));
    let mut row = stored_row();
    row.node_id = None;
    assert_eq!(row_to_container(row).map(|c| c.node_id), Ok(None));
}

#[test]
fn new_row_is_stopped_and_reads_back() {
    let id = ContainerId(0xa1a2a3a4_b1b2_c1c2_d1d2_d3d4d5d6d7d8);
    let now = Timestamp { seconds: 1_700_000_000, nanos: 999_999_999 };
    let row = new_row("db-2", "debian-12", config(), id, now);
    assert_eq!(
        row,
        ContainerRow {
            id: "a1a2a3a4-b1b2-c1c2-d1d2-d3d4d5d6d7d8".to_string(),
            name: "db-2".to_string(),
            status: "stopped".to_string(),
            template: "debian-12".to_string(),
            node_id: None,
            created_at: now,
            updated_at: now,
            config: ConfigBlob::Parsed(config()),
        }
    );
    assert_eq!(
        row_to_container(row),
        Ok(Container {
            id,
            name: "db-2".to_string(),
            status: ContainerStatus::Stopped,
            template: "debian-12".to_string(),
            node_id: None,
            created_at: now,
            updated_at: now,
            config: config(),
        })
    );
}

#[test]
fn new_row_writes_small_and_large_identifiers_in_full() {
    let now = Timestamp { seconds: 0, nanos: 0 };
    assert_eq!(
        new_row("a", "b", config(), ContainerId(0), now).id,
        "00000000-0000-0000-0000-000000000000"
    );
    assert_eq!(
        new_row("a", "b", config(), ContainerId(0x0123_4567_89ab_cdef), now).id,
        "00000000-0000-0000-0123-456789abcdef"
    );
    assert_eq!(
        new_row("a", "b", config(), ContainerId(u128::MAX), now).id,
        "ffffffff-ffff-ffff-ffff-ffffffffffff"
    );
}

#[test]
fn lookup_decides_on_the_reply() {
    assert_eq!(
        lookup_outcome(Reply::Row(Some(stored_row())), "web-1"),
        Ok(stored_container())
    );
    assert_eq!(
        lookup_outcome(Reply::Row(None), "web-1"),
        Err(DbError::ContainerNotFound("web-1".to_string()))
    );
    assert_eq!(
        lookup_outcome(Reply::Failed(busy()), "web-1"),
        Err(DbError::SqlxError(busy()))
    );
    assert_eq!(lookup_outcome(Reply::Count(1), "web-1"), Err(DbError::InternalError));
    assert_eq!(lookup_outcome(Reply::Affected(1), "web-1"), Err(DbError::InternalError));
    assert_eq!(lookup_outcome(Reply::Rows(vec![]), "web-1"), Err(DbError::InternalError));
}

#[test]
fn listing_fails_on_the_first_row_that_is_invalid() {
    let mut second = stored_row();
    second.name = "web-2".to_string();
    second.config = ConfigBlob::Malformed("second".to_string());
    let mut third = stored_row();
    third.name = "web-3".to_string();
    third.config = ConfigBlob::Malformed("third".to_string());
    assert_eq!(
        rows_to_containers(vec![stored_row(), second.clone(), third]),
        Err(DbError::InvalidData("Invalid config JSON: second".to_string()))
    );
    assert_eq!(
        listing_outcome(Reply::Rows(vec![stored_row(), stored_row()])),
        Ok(vec![stored_container(), stored_container()])
    );
    assert_eq!(rows_to_containers(vec![]), Ok(vec![]));
    assert_eq!(
        listing_outcome(Reply::Failed(busy())),
        Err(DbError::SqlxError(busy()))
    );
    assert_eq!(listing_outcome(Reply::Row(None)), Err(DbError::InternalError));
}

#[test]
fn existence_is_a_count_above_zero() {
    assert_eq!(exists_outcome(Reply::Count(0)), Ok(false));
    assert_eq!(exists_outcome(Reply::Count(1)), Ok(true));
    assert_eq!(exists_outcome(Reply::Count(7)), Ok(true));
    assert_eq!(exists_outcome(Reply::Count(-1)), Ok(false));
    assert_eq!(exists_outcome(Reply::Failed(busy())), Err(DbError::SqlxError(busy())));
    assert_eq!(exists_outcome(Reply::Affected(1)), Err(DbError::InternalError));
}

#[test]
fn write_succeeds_whatever_the_count() {
    assert_eq!(write_outcome(Reply::Affected(0)), Ok(()));
    assert_eq!(write_outcome(Reply::Affected(1)), Ok(()));
    assert_eq!(write_outcome(Reply::Failed(busy())), Err(DbError::SqlxError(busy())));
    assert_eq!(write_outcome(Reply::Count(1)), Err(DbError::InternalError));
}

#[test]
fn write_can_tell_how_many_rows_it_changed() {
    assert_eq!(affected_outcome(Reply::Affected(0)), Ok(0));
    assert_eq!(affected_outcome(Reply::Affected(1)), Ok(1));
    assert_eq!(affected_outcome(Reply::Failed(busy())), Err(DbError::SqlxError(busy())));
    assert_eq!(affected_outcome(Reply::Row(None)), Err(DbError::InternalError));
}

fn begin() -> (Creation, Statement) {
    Creation::start(
        "web-1",
        "alpine",
        config(),
        ContainerId(1),
        Timestamp { seconds: 5, nanos: 0 },
    )
}

fn fresh() -> ContainerRow {
    new_row(
        "web-1",
        "alpine",
        config(),
        ContainerId(1),
        Timestamp { seconds: 5, nanos: 0 },
    )
}

fn run(step: Step) -> Statement {
    match step {
        Step::Run(statement) => statement,
        Step::Return(outcome) => panic!("the creation ended early: {:?}", outcome),
    }
}

fn end(step: Step) -> Result<Container, DbError> {
    match step {
        Step::Return(outcome) => outcome,
        Step::Run(statement) => panic!("the creation went on: {:?}", statement),
    }
}

#[test]
fn creation_finds_the_existing_row() {
    let (state, first) = begin();
    assert_eq!(first, Statement::SelectByName { name: "web-1".to_string() });
    let (_, step) = state.advance(Reply::Row(Some(stored_row())));
    assert_eq!(end(step), Ok(stored_container()));
}

#[test]
fn creation_stores_and_reads_back() {
    let (state, _) = begin();
    let (state, step) = state.advance(Reply::Row(None));
    assert_eq!(run(step), Statement::Insert { row: fresh() });
    let (state, step) = state.advance(Reply::Affected(1));
    assert_eq!(
        run(step),
        Statement::SelectById { id: "00000000-0000-0000-0000-000000000001".to_string() }
    );
    let (_, step) = state.advance(Reply::Row(Some(fresh())));
    assert_eq!(end(step).map(|c| (c.id, c.status)), Ok((ContainerId(1), ContainerStatus::Stopped)));
}

#[test]
fn creation_that_lost_the_race_hands_out_the_winner() {
    let (state, _) = begin();
    let (state, _) = state.advance(Reply::Row(None));
    let (state, step) = state.advance(Reply::Failed(duplicate()));
    assert_eq!(run(step), Statement::SelectByName { name: "web-1".to_string() });
    let (_, step) = state.advance(Reply::Row(Some(stored_row())));
    assert_eq!(end(step), Ok(stored_container()));
}

#[test]
fn creation_reports_the_conflict_where_no_row_has_the_name() {
    let (state, _) = begin();
    let (state, _) = state.advance(Reply::Row(None));
    let (state, _) = state.advance(Reply::Failed(duplicate()));
    let (_, step) = state.advance(Reply::Row(None));
    assert_eq!(end(step), Err(DbError::SqlxError(duplicate())));
}

#[test]
fn creation_passes_driver_failures_through() {
    let (state, _) = begin();
    let (_, step) = state.advance(Reply::Failed(busy()));
    assert_eq!(end(step), Err(DbError::SqlxError(busy())));

    let (state, _) = begin();
    let (state, _) = state.advance(Reply::Row(None));
    let (_, step) = state.advance(Reply::Failed(busy()));
    assert_eq!(end(step), Err(DbError::SqlxError(busy())));

    let (state, _) = begin();
    let (state, _) = state.advance(Reply::Row(None));
    let (state, _) = state.advance(Reply::Affected(1));
    let (_, step) = state.advance(Reply::Failed(busy()));
    assert_eq!(end(step), Err(DbError::SqlxError(busy())));

    let (state, _) = begin();
    let (state, _) = state.advance(Reply::Row(None));
    let (state, _) = state.advance(Reply::Failed(duplicate()));
    let (_, step) = state.advance(Reply::Failed(busy()));
    assert_eq!(end(step), Err(DbError::SqlxError(busy())));
}

#[test]
fn creation_reports_a_row_that_vanished_and_a_config_that_cannot_be_written() {
    let (state, _) = begin();
    let (state, _) = state.advance(Reply::Row(None));
    let (state, _) = state.advance(Reply::Affected(1));
    let (_, step) = state.advance(Reply::Row(None));
    assert_eq!(
        end(step),
        Err(DbError::ContainerNotFound(
            "00000000-0000-0000-0000-000000000001".to_string()
        ))
    );

    let (state, _) = begin();
    let (state, _) = state.advance(Reply::Row(None));
    let (_, step) = state.advance(Reply::Rejected("key must be a string".to_string()));
    assert_eq!(end(step), Err(DbError::InvalidData("key must be a string".to_string())));
}

#[test]
fn creation_takes_no_reply_that_does_not_fit() {
    let (state, _) = begin();
    let (state, step) = state.advance(Reply::Count(3));
    assert_eq!(end(step), Err(DbError::InternalError));
    let (_, step) = state.advance(Reply::Row(None));
    assert_eq!(end(step), Err(DbError::InternalError));

    let (state, _) = begin();
    let (state, _) = state.advance(Reply::Row(None));
    let (_, step) = state.advance(Reply::Row(None));
    assert_eq!(end(step), Err(DbError::InternalError));
}

#[test]
fn creation_with_the_clock_stores_a_fresh_stopped_row() {
    let (state, first) = Creation::begin("web-1", "alpine", config());
    assert_eq!(first, Statement::SelectByName { name: "web-1".to_string() });
    let (_, step) = state.advance(Reply::Row(None));
    let row = match run(step) {
        Statement::Insert { row } => row,
        other => panic!("expected the row to be stored, not {:?}", other),
    };
    assert_eq!(row.name, "web-1");
    assert_eq!(row.template, "alpine");
    assert_eq!(row.status, "stopped");
    assert_eq!(row.node_id, None);
    assert_eq!(row.created_at, row.updated_at);
    assert!(row.created_at.seconds > 1_600_000_000);
    assert!(row.created_at.nanos < 1_000_000_000);
    assert_eq!(row.config, ConfigBlob::Parsed(config()));
    let id = uuid::Uuid::parse_str(&row.id).expect("an identifier");
    assert_eq!(id.get_version_num(), 4);
    assert_eq!(row.id, id.hyphenated().to_string());

    let (_, again) = Creation::begin("web-1", "alpine", config());
    assert_eq!(again, first);
}

#[test]
fn status_update_is_stamped_with_the_clock() {
    let before = chrono::Utc::now().timestamp();
    let statement = status_update("web-1", "frozen");
    let after = chrono::Utc::now().timestamp();
    match statement {
        Statement::UpdateStatus { status, updated_at, name } => {
            assert_eq!(status, "frozen");
            assert_eq!(name, "web-1");
            assert!(before <= updated_at.seconds && updated_at.seconds <= after);
            assert!(updated_at.nanos < 1_000_000_000);
        }
        other => panic!("expected a status update, not {:?}", other),
    }
}

/// Runs a creation as a caller with a backend of its own does: statement by
/// statement, until the creation hands out its outcome.
fn drive(db: &mut Database, name: &str, id: u128, seconds: i64) -> (Result<Container, DbError>, usize) {
    let (mut state, mut statement) = Creation::start(
        name,
        "alpine",
        config(),
        ContainerId(id),
        Timestamp { seconds, nanos: 0 },
    );
    let mut statements = 0;
    loop {
        statements += 1;
        let reply = db.execute(statement);
        let (next, step) = state.advance(reply);
        state = next;
        match step {
            Step::Run(next) => statement = next,
            Step::Return(outcome) => return (outcome, statements),
        }
    }
}

#[test]
fn a_driven_creation_comes_to_what_the_repository_gives() {
    let mut driven = Database::new();
    provision(&mut driven).expect("provisioned");
    let mut db = Database::new();
    provision(&mut db).expect("provisioned");
    let mut store = ContainerStore::new(db);

    // A fresh name, the same name again, and a fresh name under a used identifier.
    let calls = [("web-1", 1, 10, 3), ("web-1", 2, 20, 1), ("web-2", 1, 30, 3)];
    for (name, id, seconds, expected_statements) in calls {
        let (outcome, statements) = drive(&mut driven, name, id, seconds);
        assert_eq!(statements, expected_statements);
        assert_eq!(
            outcome,
            store.get_or_create_at(
                name,
                "alpine",
                config(),
                ContainerId(id),
                Timestamp { seconds, nanos: 0 }
            )
        );
    }
    assert_eq!(
        rows_to_containers(driven.select_all().expect("listed")),
        store.list()
    );
    assert_eq!(store.list().map(|listed| listed.len()), Ok(1));
}
