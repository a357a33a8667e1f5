use rusqlite::types::Value;
use rusqlite::{params_from_iter, Connection};
use storyboard::schema::{
    migrate, table_shape, LegacyShot, ShotTable, StoredProject, TableShape, CHARACTER_TABLE,
    CHAT_TABLE, CREATE_CHARACTER_TABLE, CREATE_CHAT_TABLE, CREATE_META_TABLE, CREATE_PROP_TABLE,
    CREATE_SCENE_TABLE, CREATE_SHOT_TABLE, META_TABLE, PROP_TABLE, SCENE_TABLE, SHOT_TABLE,
};
use storyboard::models::Storyboard;

const LEGACY_TABLE: &str = "CREATE TABLE storyboards (
    id INTEGER PRIMARY KEY AUTOINCREMENT,
    sequence_number INTEGER,
    shot_type TEXT,
    shot_size TEXT,
    duration REAL,
    dialogue TEXT,
    description TEXT,
    notes TEXT,
    image_prompt_zh TEXT,
    image_prompt_en TEXT,
    image_prompt_tail_zh TEXT,
    image_prompt_tail_en TEXT,
    video_prompt_zh TEXT,
    video_prompt_en TEXT
)";

const COLUMNS: &str = "shot_type, shot_size, duration, dialogue, description, notes, \
    image_prompt_zh, image_prompt_en, image_prompt_tail_zh, image_prompt_tail_en, \
    video_prompt_zh, video_prompt_en";

fn definition(conn: &Connection, table: &str) -> Option<String> {
    let mut stmt =
        conn.prepare("SELECT sql FROM sqlite_master WHERE type='table' AND name=?1").unwrap();
    let mut rows = stmt.query([table]).unwrap();
    rows.next().unwrap().map(|row| row.get::<_, String>(0).unwrap())
}

fn text(value: Value) -> Option<String> {
    match value {
        Value::Null => None,
        Value::Integer(i) => Some(i.to_string()),
        Value::Real(f) => Some(f.to_string()),
        Value::Text(s) => Some(s),
        Value::Blob(b) => Some(String::from_utf8_lossy(&b).into_owned()),
    }
}

fn read_shots(conn: &Connection) -> ShotTable {
    let found = definition(conn, SHOT_TABLE);
    match table_shape(found.as_deref()) {
        TableShape::Absent => ShotTable::Absent,
        TableShape::Legacy => {
            let sql = format!("SELECT id, sequence_number, {} FROM storyboards ORDER BY id", COLUMNS);
            let mut stmt = conn.prepare(&sql).unwrap();
            let rows = stmt
                .query_map([], |row| {
                    let mut texts = Vec::new();
                    for i in 2..14 {
                        texts.push(text(row.get::<_, Value>(i)?));
                    }
                    texts.reverse();
                    Ok(LegacyShot {
                        id: row.get(0)?,
                        mirror_id: None,
                        sequence_number: row.get(1)?,
                        shot_type: texts.pop().unwrap(),
                        shot_size: texts.pop().unwrap(),
                        duration: texts.pop().unwrap(),
                        dialogue: texts.pop().unwrap(),
                        description: texts.pop().unwrap(),
                        notes: texts.pop().unwrap(),
                        image_prompt_zh: texts.pop().unwrap(),
                        image_prompt_en: texts.pop().unwrap(),
                        image_prompt_tail_zh: texts.pop().unwrap(),
                        image_prompt_tail_en: texts.pop().unwrap(),
                        video_prompt_zh: texts.pop().unwrap(),
                        video_prompt_en: texts.pop().unwrap(),
                    })
                })
                .unwrap()
                .map(|r| r.unwrap())
                .collect();
            ShotTable::Legacy { rows }
        }
        TableShape::Current => {
            let sql = format!(
                "SELECT sequence_number, mirror_id, {}, image_first_path, image_last_path, \
                 image_status FROM storyboards ORDER BY rowid",
                COLUMNS
            );
            let mut stmt = conn.prepare(&sql).unwrap();
            let rows = stmt
                .query_map([], |row| {
                    let mut texts = Vec::new();
                    for i in 1..17 {
                        texts.push(text(row.get::<_, Value>(i)?));
                    }
                    texts.reverse();
                    Ok(Storyboard {
                        sequence_number: row.get(0)?,
                        mirror_id: texts.pop().unwrap().unwrap_or_default(),
                        shot_type: texts.pop().unwrap(),
                        shot_size: texts.pop().unwrap(),
                        duration: texts.pop().unwrap(),
                        dialogue: texts.pop().unwrap(),
                        description: texts.pop().unwrap(),
                        notes: texts.pop().unwrap(),
                        image_prompt_zh: texts.pop().unwrap(),
                        image_prompt_en: texts.pop().unwrap(),
                        image_prompt_tail_zh: texts.pop().unwrap(),
                        image_prompt_tail_en: texts.pop().unwrap(),
                        video_prompt_zh: texts.pop().unwrap(),
                        video_prompt_en: texts.pop().unwrap(),
                        image_first_path: texts.pop().unwrap(),
                        image_last_path: texts.pop().unwrap(),
                        image_status: texts.pop().unwrap(),
                    })
                })
                .unwrap()
                .map(|r| r.unwrap())
                .collect();
            ShotTable::Current { has_image_columns: true, rows }
        }
    }
}

fn write_shots(conn: &Connection, table: &ShotTable) {
    if let ShotTable::Current { rows, .. } = table {
        conn.execute("DROP TABLE IF EXISTS storyboards", []).unwrap();
        conn.execute(CREATE_SHOT_TABLE, []).unwrap();
        let sql = format!(
            "INSERT INTO storyboards (sequence_number, mirror_id, {}, image_first_path, \
             image_last_path, image_status) \
             VALUES (?1, ?2, ?3, ?4, ?5, ?6, ?7, ?8, ?9, ?10, ?11, ?12, ?13, ?14, ?15, ?16, ?17)",
            COLUMNS
        );
        for s in rows {
            let values = vec![
                Value::Integer(s.sequence_number),
                Value::Text(s.mirror_id.clone()),
                s.shot_type.clone().map(Value::Text).unwrap_or(Value::Null),
                s.shot_size.clone().map(Value::Text).unwrap_or(Value::Null),
                s.duration.clone().map(Value::Text).unwrap_or(Value::Null),
                s.dialogue.clone().map(Value::Text).unwrap_or(Value::Null),
                s.description.clone().map(Value::Text).unwrap_or(Value::Null),
                s.notes.clone().map(Value::Text).unwrap_or(Value::Null),
                s.image_prompt_zh.clone().map(Value::Text).unwrap_or(Value::Null),
                s.image_prompt_en.clone().map(Value::Text).unwrap_or(Value::Null),
                s.image_prompt_tail_zh.clone().map(Value::Text).unwrap_or(Value::Null),
                s.image_prompt_tail_en.clone().map(Value::Text).unwrap_or(Value::Null),
                s.video_prompt_zh.clone().map(Value::Text).unwrap_or(Value::Null),
                s.video_prompt_en.clone().map(Value::Text).unwrap_or(Value::Null),
                s.image_first_path.clone().map(Value::Text).unwrap_or(Value::Null),
                s.image_last_path.clone().map(Value::Text).unwrap_or(Value::Null),
                s.image_status.clone().map(Value::Text).unwrap_or(Value::Null),
            ];
            conn.execute(&sql, params_from_iter(values)).unwrap();
        }
    }
}

fn migrate_in_place(conn: &Connection) {
    let mut stored = StoredProject::empty();
    stored.shots = read_shots(conn);
    let after = migrate(stored);
    write_shots(conn, &after.shots);
}

fn dump(conn: &Connection) -> (Option<String>, ShotTable) {
    (definition(conn, SHOT_TABLE), read_shots(conn))
}

#[test]
fn every_table_definition_is_accepted() {
    let conn = Connection::open_in_memory().unwrap();
    let tables = [
        (SHOT_TABLE, CREATE_SHOT_TABLE),
        (CHARACTER_TABLE, CREATE_CHARACTER_TABLE),
        (SCENE_TABLE, CREATE_SCENE_TABLE),
        (PROP_TABLE, CREATE_PROP_TABLE),
        (META_TABLE, CREATE_META_TABLE),
        (CHAT_TABLE, CREATE_CHAT_TABLE),
    ];
    for (name, create) in tables {
        assert_eq!(definition(&conn, name), None);
        conn.execute(create, []).unwrap();
        conn.execute(create, []).unwrap();
        assert!(definition(&conn, name).is_some());
    }
}

#[test]
fn created_shot_table_reads_as_current() {
    let conn = Connection::open_in_memory().unwrap();
    assert_eq!(table_shape(definition(&conn, SHOT_TABLE).as_deref()), TableShape::Absent);
    conn.execute(CREATE_SHOT_TABLE, []).unwrap();
    assert_eq!(table_shape(definition(&conn, SHOT_TABLE).as_deref()), TableShape::Current);
}

#[test]
fn legacy_database_is_migrated_once_and_for_all() {
    let conn = Connection::open_in_memory().unwrap();
    conn.execute(LEGACY_TABLE, []).unwrap();
    conn.execute(
        "INSERT INTO storyboards (sequence_number, shot_type, duration, description) \
         VALUES (3, 'pan', 2.5, 'first'), (NULL, 'fixed', NULL, 'second'), (7, NULL, 4, 'third')",
        [],
    )
    .unwrap();
    assert_eq!(table_shape(definition(&conn, SHOT_TABLE).as_deref()), TableShape::Legacy);

    migrate_in_place(&conn);
    let once = dump(&conn);
    assert_eq!(table_shape(once.0.as_deref()), TableShape::Current);
    match &once.1 {
        ShotTable::Current { rows, .. } => {
            let ids: Vec<&str> = rows.iter().map(|r| r.mirror_id.as_str()).collect();
            assert_eq!(ids, vec!["1", "2", "3"]);
            let positions: Vec<i64> = rows.iter().map(|r| r.sequence_number).collect();
            assert_eq!(positions, vec![3, 0, 7]);
            assert_eq!(rows[0].shot_type, Some("pan".to_string()));
            assert_eq!(rows[0].duration, Some("2.5".to_string()));
            assert_eq!(rows[1].duration, None);
            assert_eq!(rows[2].shot_type, None);
            assert_eq!(rows[2].description, Some("third".to_string()));
            assert_eq!(rows[0].image_first_path, None);
            assert_eq!(rows[0].image_status, Some("empty".to_string()));
        }
        other => panic!("not migrated: {:?}", other),
    }

    migrate_in_place(&conn);
    let twice = dump(&conn);
    assert_eq!(twice, once);
}

#[test]
fn columns_are_found_by_introspection() {
    let conn = Connection::open_in_memory().unwrap();
    conn.execute(LEGACY_TABLE, []).unwrap();
    let count = |column: &str| -> i64 {
        conn.query_row(
            "SELECT COUNT(*) FROM pragma_table_info(?1) WHERE name=?2",
            [SHOT_TABLE, column],
            |row| row.get(0),
        )
        .unwrap()
    };
    assert_eq!(count("id"), 1);
    assert_eq!(count("mirror_id"), 0);
    assert_eq!(count("image_first_path"), 0);
    conn.execute("DROP TABLE storyboards", []).unwrap();
    conn.execute(CREATE_SHOT_TABLE, []).unwrap();
    let count = |column: &str| -> i64 {
        conn.query_row(
            "SELECT COUNT(*) FROM pragma_table_info(?1) WHERE name=?2",
            [SHOT_TABLE, column],
            |row| row.get(0),
        )
        .unwrap()
    };
    assert_eq!(count("mirror_id"), 1);
    assert_eq!(count("image_first_path"), 1);
    assert_eq!(count("image_status"), 1);
}

#[test]
fn log_rows_keep_their_identities_in_the_file() {
    let conn = Connection::open_in_memory().unwrap();
    conn.execute(CREATE_CHAT_TABLE, []).unwrap();
    for (id, content) in [(3i64, "a"), (7, "b")] {
        conn.execute(
            "INSERT INTO chat_history (id, role, content, timestamp) VALUES (?1, ?2, ?3, ?4)",
            params_from_iter(vec![
                Value::Integer(id),
                Value::Text("user".to_string()),
                Value::Text(content.to_string()),
                Value::Integer(1_700_000_000_000),
            ]),
        )
        .unwrap();
    }
    let mut stmt =
        conn.prepare("SELECT id, content, timestamp FROM chat_history ORDER BY id").unwrap();
    let rows: Vec<(i64, String, i64)> = stmt
        .query_map([], |row| Ok((row.get(0)?, row.get(1)?, row.get(2)?)))
        .unwrap()
        .map(|r| r.unwrap())
        .collect();
    assert_eq!(
        rows,
        vec![(3, "a".to_string(), 1_700_000_000_000), (7, "b".to_string(), 1_700_000_000_000)]
    );
}
