use container_db::migrations::run;
use container_db::{
    Container, ContainerConfig, ContainerId, ContainerNetworkInterface, ContainerStatus,
    ContainerStore, Database, DbError, DriverError, DriverErrorKind, Timestamp,
};

fn setup_test_db() -> Database {
    let mut db = Database::new();
    run(&mut db).expect("Failed to create pool");
    db
}

fn small_config() -> ContainerConfig {
    ContainerConfig {
        cpu_limit: Some(1),
        memory_limit: Some(256 * 1024 * 1024),
        disk_limit: Some(1024 * 1024 * 1024),
        network_interfaces: vec![],
        rootfs_path: "/var/lib/lxc/test/rootfs".to_string(),
        environment: vec![],
    }
}

fn at(seconds: i64) -> Timestamp {
    Timestamp { seconds, nanos: 0 }
}

#[test]
fn test_container_store_get_or_create() {
    let pool = setup_test_db();
    let mut store = ContainerStore::new(pool);

    let config = ContainerConfig {
        cpu_limit: Some(2),
        memory_limit: Some(512 * 1024 * 1024),
        disk_limit: Some(5 * 1024 * 1024 * 1024),
        network_interfaces: vec![],
        rootfs_path: "/var/lib/lxc/test/rootfs".to_string(),
        environment: vec![],
    };

    let container = store
        .get_or_create("test-container", "alpine", config)
        .expect("Failed to create container");

    assert_eq!(container.name, "test-container");
    assert_eq!(container.template, "alpine");
    assert_eq!(container.status, ContainerStatus::Stopped);
}

#[test]
fn test_container_store_get_by_name() {
    let pool = setup_test_db();
    let mut store = ContainerStore::new(pool);

    let config = small_config();

    let created = store
        .get_or_create("lookup-test", "alpine", config.clone())
        .expect("Failed to create");

    let retrieved = store.get_by_name("lookup-test").expect("Failed to retrieve");

    assert_eq!(created.id, retrieved.id);
    assert_eq!(created.name, retrieved.name);
}

#[test]
fn test_container_store_list() {
    let pool = setup_test_db();
    let mut store = ContainerStore::new(pool);

    let config = small_config();

    // Create multiple containers
    for i in 0..3 {
        let _ = store.get_or_create(&format!("test-{}", i), "alpine", config.clone());
    }

    let containers = store.list().expect("Failed to list");
    assert_eq!(containers.len(), 3);
}

#[test]
fn test_container_store_update_status() {
    let pool = setup_test_db();
    let mut store = ContainerStore::new(pool);

    let config = small_config();

    let _ = store
        .get_or_create("status-test", "alpine", config)
        .expect("Failed to create");

    store
        .update_status("status-test", "running")
        .expect("Failed to update");

    let container = store.get_by_name("status-test").expect("Failed to get");

    assert_eq!(container.status, ContainerStatus::Running);
}

#[test]
fn test_container_store_delete() {
    let pool = setup_test_db();
    let mut store = ContainerStore::new(pool);

    let config = small_config();

    let _ = store
        .get_or_create("delete-test", "alpine", config)
        .expect("Failed to create");

    store.delete("delete-test").expect("Failed to delete");

    let result = store.get_by_name("delete-test");
    assert!(result.is_err(), "Container should not exist after deletion");
}

#[test]
fn test_container_store_exists() {
    let pool = setup_test_db();
    let mut store = ContainerStore::new(pool);

    let config = small_config();

    let _ = store.get_or_create("exists-test", "alpine", config);

    assert!(
        store.contains("exists-test").expect("Failed to check"),
        "Container should exist"
    );

    assert!(
        !store.contains("nonexistent").expect("Failed to check"),
        "Nonexistent container should not exist"
    );
}

#[test]
fn test_container_store_get_or_create_idempotent() {
    let pool = setup_test_db();
    let mut store = ContainerStore::new(pool);

    let config = small_config();

    let container1 = store
        .get_or_create("idempotent-test", "alpine", config.clone())
        .expect("Failed to create");

    // Call again with same parameters
    let container2 = store
        .get_or_create("idempotent-test", "alpine", config)
        .expect("Failed to get");

    // IDs should be identical
    assert_eq!(
        container1.id, container2.id,
        "get_or_create should return same container"
    );
}

#[test]
fn creation_stores_what_it_is_given() {
    let mut store = ContainerStore::new(setup_test_db());
    let config = ContainerConfig {
        cpu_limit: None,
        memory_limit: Some(64 * 1024 * 1024),
        disk_limit: None,
        network_interfaces: vec![ContainerNetworkInterface {
            descriptor: "{\"name\":\"eth0\"}".to_string(),
        }],
        rootfs_path: "/srv/\"quoted\"/rootfs".to_string(),
        environment: vec![
            ("PATH".to_string(), "/usr/bin".to_string()),
            ("EMPTY".to_string(), String::new()),
        ],
    };
    let id = ContainerId(0x67e55044_10b1_426f_9247_bb680e5fe0c8);
    let created = store
        .get_or_create_at("web-1", "alpine", config.clone(), id, Timestamp { seconds: 7, nanos: 9 })
        .expect("a fresh name and a fresh identifier are stored");
    assert_eq!(
        created,
        Container {
            id,
            name: "web-1".to_string(),
            status: ContainerStatus::Stopped,
            template: "alpine".to_string(),
            node_id: None,
            created_at: Timestamp { seconds: 7, nanos: 9 },
            updated_at: Timestamp { seconds: 7, nanos: 9 },
            config,
        }
    );
    assert_eq!(store.get_by_name("web-1"), Ok(created.clone()));
    assert_eq!(store.get_by_id(&id), Ok(created));
}

#[test]
fn second_creation_ignores_template_and_config() {
    let mut store = ContainerStore::new(setup_test_db());
    let first = store
        .get_or_create_at("web-1", "alpine", small_config(), ContainerId(1), at(10))
        .expect("created");
    let mut other = small_config();
    other.cpu_limit = Some(64);
    other.rootfs_path = "/elsewhere".to_string();
    let second = store
        .get_or_create_at("web-1", "debian", other, ContainerId(2), at(20))
        .expect("found");
    assert_eq!(second, first);
    assert_eq!(second.id, ContainerId(1));
    assert_eq!(second.template, "alpine");
    assert_eq!(store.list().expect("listed").len(), 1);
    assert_eq!(
        store.get_by_id(&ContainerId(2)),
        Err(DbError::ContainerNotFound(
            "00000000-0000-0000-0000-000000000002".to_string()
        ))
    );
}

#[test]
fn creation_under_a_used_identifier_is_refused() {
    let mut store = ContainerStore::new(setup_test_db());
    store
        .get_or_create_at("web-1", "alpine", small_config(), ContainerId(1), at(10))
        .expect("created");
    let refused = store.get_or_create_at("web-2", "alpine", small_config(), ContainerId(1), at(11));
    assert_eq!(
        refused,
        Err(DbError::SqlxError(DriverError {
            kind: DriverErrorKind::UniqueViolation,
            message: "UNIQUE constraint failed: containers.id".to_string(),
        }))
    );
    assert_eq!(store.contains("web-2"), Ok(false));
    assert_eq!(store.list().expect("listed").len(), 1);
}

#[test]
fn names_stay_unique_over_many_operations() {
    let mut store = ContainerStore::new(setup_test_db());
    let names = ["a", "b", "a", "c", "b", "a"];
    for (i, name) in names.iter().enumerate() {
        store
            .get_or_create_at(name, "alpine", small_config(), ContainerId(i as u128), at(i as i64))
            .expect("created or found");
        store.update_status(name, "running").expect("updated");
    }
    store.delete("b").expect("deleted");
    store
        .get_or_create_at("b", "alpine", small_config(), ContainerId(100), at(100))
        .expect("created again");
    let listed = store.list().expect("listed");
    assert_eq!(listed.len(), 3);
    for i in 0..listed.len() {
        for j in (i + 1)..listed.len() {
            assert_ne!(listed[i].name, listed[j].name);
            assert_ne!(listed[i].id, listed[j].id);
        }
    }
}

#[test]
fn list_is_newest_first() {
    let mut store = ContainerStore::new(setup_test_db());
    let times = [(5, 0), (9, 1), (1, 0), (9, 0), (5, 7)];
    for (i, (seconds, nanos)) in times.iter().enumerate() {
        store
            .get_or_create_at(
                &format!("c{}", i),
                "alpine",
                small_config(),
                ContainerId(i as u128),
                Timestamp { seconds: *seconds, nanos: *nanos },
            )
            .expect("created");
    }
    let listed = store.list().expect("listed");
    let names: Vec<&str> = listed.iter().map(|c| c.name.as_str()).collect();
    assert_eq!(names, vec!["c1", "c3", "c4", "c0", "c2"]);
    assert_eq!(store.list().expect("listed again"), listed);
}

#[test]
fn list_puts_the_later_of_two_equal_times_first() {
    let mut store = ContainerStore::new(setup_test_db());
    for (i, name) in ["x", "y", "z"].iter().enumerate() {
        store
            .get_or_create_at(name, "alpine", small_config(), ContainerId(i as u128), at(3))
            .expect("created");
    }
    let listed = store.list().expect("listed");
    let names: Vec<&str> = listed.iter().map(|c| c.name.as_str()).collect();
    assert_eq!(names, vec!["z", "y", "x"]);
}

#[test]
fn list_of_an_empty_table_is_empty() {
    let store = ContainerStore::new(setup_test_db());
    assert_eq!(store.list(), Ok(vec![]));
}

#[test]
fn lifecycle_of_one_container() {
    let mut store = ContainerStore::new(setup_test_db());
    let created = store
        .get_or_create_at("web-1", "alpine", small_config(), ContainerId(1), at(10))
        .expect("created");
    assert_eq!(created.status, ContainerStatus::Stopped);

    assert_eq!(
        store.update_status_at("web-1", "running", Timestamp { seconds: 10, nanos: 1 }),
        Ok(1)
    );
    let running = store.get_by_name("web-1").expect("found");
    assert_eq!(running.status, ContainerStatus::Running);
    assert_eq!(running.created_at, at(10));
    assert_eq!(running.updated_at, Timestamp { seconds: 10, nanos: 1 });
    assert!(running.updated_at > created.updated_at);
    assert_eq!(running.id, created.id);
    assert_eq!(running.config, created.config);

    store.delete("web-1").expect("deleted");
    assert_eq!(
        store.get_by_name("web-1"),
        Err(DbError::ContainerNotFound("web-1".to_string()))
    );
    assert_eq!(store.contains("web-1"), Ok(false));
}

#[test]
fn lifecycle_with_the_clock() {
    let mut store = ContainerStore::new(setup_test_db());
    let created = store
        .get_or_create("web-1", "alpine", small_config())
        .expect("created");
    assert_eq!(created.created_at, created.updated_at);
    assert!(created.created_at.seconds > 1_600_000_000);
    assert!(created.created_at.nanos < 1_000_000_000);
    store.update_status("web-1", "frozen").expect("updated");
    let frozen = store.get_by_name("web-1").expect("found");
    assert_eq!(frozen.status, ContainerStatus::Frozen);
    assert!(frozen.updated_at >= created.updated_at);
    assert_eq!(frozen.created_at, created.created_at);
}

#[test]
fn fresh_identifiers_are_random_uuids() {
    let mut store = ContainerStore::new(setup_test_db());
    let a = store.get_or_create("a", "alpine", small_config()).expect("created");
    let b = store.get_or_create("b", "alpine", small_config()).expect("created");
    assert_ne!(a.id, b.id);
    for id in [a.id, b.id] {
        let uuid = uuid::Uuid::from_u128(id.0);
        assert_eq!(uuid.get_version_num(), 4);
        assert_eq!(id.0 & 0xf000_c000_0000_0000_0000, 0x4000_8000_0000_0000_0000);
        assert_eq!(store.get_by_id(&id).map(|c| c.id), Ok(id));
    }
}

#[test]
fn update_of_a_missing_container_changes_nothing() {
    let mut store = ContainerStore::new(setup_test_db());
    store
        .get_or_create_at("web-1", "alpine", small_config(), ContainerId(1), at(10))
        .expect("created");
    let before = store.list().expect("listed");
    assert_eq!(store.update_status_at("web-2", "running", at(11)), Ok(0));
    assert_eq!(store.update_status("web-2", "running"), Ok(()));
    // No row is touched, so the status is not held against the schema.
    assert_eq!(store.update_status_at("web-2", "no-such-status", at(11)), Ok(0));
    assert_eq!(store.list().expect("listed"), before);
}

#[test]
fn update_to_an_unknown_status_is_refused() {
    let mut store = ContainerStore::new(setup_test_db());
    store
        .get_or_create_at("web-1", "alpine", small_config(), ContainerId(1), at(10))
        .expect("created");
    let before = store.get_by_name("web-1");
    assert_eq!(
        store.update_status_at("web-1", "Running", at(11)),
        Err(DbError::SqlxError(DriverError {
            kind: DriverErrorKind::CheckViolation,
            message: "CHECK constraint failed: valid_status".to_string(),
        }))
    );
    assert_eq!(store.get_by_name("web-1"), before);
}

#[test]
fn every_status_can_be_stored() {
    let mut store = ContainerStore::new(setup_test_db());
    store
        .get_or_create_at("web-1", "alpine", small_config(), ContainerId(1), at(10))
        .expect("created");
    let statuses = [
        ("running", ContainerStatus::Running),
        ("starting", ContainerStatus::Starting),
        ("stopping", ContainerStatus::Stopping),
        ("frozen", ContainerStatus::Frozen),
        ("error", ContainerStatus::Error),
        ("stopped", ContainerStatus::Stopped),
    ];
    for (word, status) in statuses {
        store.update_status_at("web-1", word, at(11)).expect("updated");
        assert_eq!(store.get_by_name("web-1").expect("found").status, status);
        assert_eq!(status.as_str(), word);
        assert_eq!(ContainerStatus::from_text(word), status);
        assert!(ContainerStatus::is_known(word));
    }
    assert_eq!(ContainerStatus::from_text("paused"), ContainerStatus::Error);
    assert_eq!(ContainerStatus::from_text(""), ContainerStatus::Error);
    assert!(!ContainerStatus::is_known("paused"));
}

#[test]
fn delete_of_a_missing_container_succeeds() {
    let mut store = ContainerStore::new(setup_test_db());
    store
        .get_or_create_at("web-1", "alpine", small_config(), ContainerId(1), at(10))
        .expect("created");
    assert_eq!(store.delete("web-2"), Ok(()));
    assert_eq!(store.remove("web-2"), Ok(0));
    assert_eq!(store.contains("web-1"), Ok(true));
    assert_eq!(store.remove("web-1"), Ok(1));
    assert_eq!(store.delete("web-1"), Ok(()));
    assert_eq!(store.remove("web-1"), Ok(0));
    assert_eq!(store.list(), Ok(vec![]));
}

#[test]
fn lookup_by_identifier_names_the_identifier_it_missed() {
    let store = ContainerStore::new(setup_test_db());
    assert_eq!(
        store.get_by_id(&ContainerId(0xa1a2a3a4_b1b2_c1c2_d1d2_d3d4d5d6d7d8)),
        Err(DbError::ContainerNotFound(
            "a1a2a3a4-b1b2-c1c2-d1d2-d3d4d5d6d7d8".to_string()
        ))
    );
}

#[test]
fn nothing_works_before_the_schema_is_provisioned() {
    let no_table = DbError::SqlxError(DriverError {
        kind: DriverErrorKind::Other,
        message: "no such table: containers".to_string(),
    });
    let mut store = ContainerStore::new(Database::new());
    assert_eq!(
        store.get_or_create_at("web-1", "alpine", small_config(), ContainerId(1), at(10)),
        Err(no_table.clone())
    );
    assert_eq!(store.get_by_name("web-1"), Err(no_table.clone()));
    assert_eq!(store.get_by_id(&ContainerId(1)), Err(no_table.clone()));
    assert_eq!(store.list(), Err(no_table.clone()));
    assert_eq!(store.update_status("web-1", "running"), Err(no_table.clone()));
    assert_eq!(store.delete("web-1"), Err(no_table.clone()));
    assert_eq!(store.remove("web-1"), Err(no_table.clone()));
    assert_eq!(
        store.update_status_at("web-1", "running", at(10)),
        Err(no_table.clone())
    );
    assert_eq!(store.contains("web-1"), Err(no_table));
}

#[test]
fn an_update_before_the_creation_keeps_the_time_of_creation() {
    let mut store = ContainerStore::new(setup_test_db());
    let created = store
        .get_or_create_at("web-1", "alpine", small_config(), ContainerId(1), at(10))
        .expect("created");
    assert_eq!(store.update_status_at("web-1", "running", at(5)), Ok(1));
    let running = store.get_by_name("web-1").expect("found");
    assert_eq!(running.status, ContainerStatus::Running);
    assert_eq!(running.created_at, at(10));
    assert_eq!(running.updated_at, at(10));
    assert!(running.updated_at >= running.created_at);
    assert_eq!(running.id, created.id);
    assert_eq!(store.get_by_id(&created.id).map(|c| c.id), Ok(created.id));
}

#[test]
fn rows_stay_chronological_whatever_the_times() {
    let mut store = ContainerStore::new(setup_test_db());
    let times = [50, 20, 70, 10, 20, 60];
    for (i, seconds) in times.iter().enumerate() {
        let name = format!("c{}", i % 3);
        store
            .get_or_create_at(&name, "alpine", small_config(), ContainerId(i as u128), at(*seconds))
            .expect("created or found");
        store
            .update_status_at("c0", "running", at(*seconds - 15))
            .expect("updated");
        store
            .update_status_at(&name, "frozen", at(100 - *seconds))
            .expect("updated");
        for container in store.list().expect("listed") {
            assert!(container.updated_at >= container.created_at);
        }
    }
    store.delete("c1").expect("deleted");
    for container in store.list().expect("listed") {
        assert!(container.updated_at >= container.created_at);
    }
}
