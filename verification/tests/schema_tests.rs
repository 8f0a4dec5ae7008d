use smt_kvdb::error::StorageError;
use smt_kvdb::redb_kvdb::{RedbKVDB, RedbKVDBSnapshot};
use smt_kvdb::schema::{all_table_names, static_table_name, IN_MEM_DEPTH_CF, LEAVES_CF};
use smt_kvdb::turso_kvdb::{TursoKVDB, TursoKVDBSnapshot};

#[test]
fn known_names_are_found() {
    for name in all_table_names() {
        let owned = name.to_string();
        assert_eq!(static_table_name(&owned).unwrap(), name);
    }
    assert_eq!(all_table_names()[0], LEAVES_CF);
    assert_eq!(all_table_names()[8], IN_MEM_DEPTH_CF);
}

#[test]
fn unknown_names_are_unsupported() {
    for name in ["", "leave", "leavess", "LEAVES", "st17", "nöde"] {
        match static_table_name(name) {
            Err(StorageError::Unsupported(text)) => {
                assert_eq!(text, format!("unknown table `{name}`"));
            },
            other => panic!("unexpected {other:?}"),
        }
    }
}

#[test]
fn names_are_distinct_identifiers() {
    let names = all_table_names();
    for i in 0..names.len() {
        assert!(names[i].chars().next().unwrap().is_ascii_lowercase());
        assert!(names[i]
            .chars()
            .all(|c| c.is_ascii_lowercase() || c.is_ascii_digit() || c == '_'));
        for j in 0..i {
            assert_ne!(names[i], names[j]);
        }
    }
}

#[test]
fn every_reader_finds_the_same_tables() {
    assert_eq!(RedbKVDB.table("st24").unwrap().name(), "st24");
    assert_eq!(RedbKVDBSnapshot.table("st24").unwrap().clone().name(), "st24");
    assert_eq!(TursoKVDB.table("metadata").unwrap().name(), "metadata");
    assert_eq!(TursoKVDBSnapshot.table("metadata").unwrap().clone().name(), "metadata");
    assert!(matches!(RedbKVDB.table("x"), Err(StorageError::Unsupported(_))));
    assert!(matches!(RedbKVDBSnapshot.table("x"), Err(StorageError::Unsupported(_))));
    assert!(matches!(TursoKVDB.table("x"), Err(StorageError::Unsupported(_))));
    assert!(matches!(TursoKVDBSnapshot.table("x"), Err(StorageError::Unsupported(_))));
}

#[test]
fn table_handles_show_their_name() {
    assert_eq!(
        format!("{:?}", RedbKVDB.table("leaves").unwrap()),
        "RedbTable { name: \"leaves\" }"
    );
    assert_eq!(
        format!("{:?}", TursoKVDB.table("leaves").unwrap()),
        "TursoTable { name: \"leaves\" }"
    );
}
