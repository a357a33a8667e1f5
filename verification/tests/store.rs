use storyboard::assets::UpsertPolicy;
use storyboard::commands::{
    get_characters, get_chat_history, get_project_style, get_props, get_scenes, get_storyboards,
    image_slot, save_chat_message, save_generated_data, save_project_style,
    update_storyboard_image, upsert, AnyAsset, ReplaceMode, DEFAULT_HISTORY_LIMIT,
};
use storyboard::db::{ImageSlot, ProjectDatabase};
use storyboard::error::StoreError;
use storyboard::meta::MetaEntry;
use storyboard::models::{Character, Prop, Scene, Storyboard};
use storyboard::schema::StoredProject;

fn fresh() -> ProjectDatabase {
    ProjectDatabase::open(StoredProject::empty()).unwrap()
}

fn shot(id: &str, position: i64) -> Storyboard {
    Storyboard {
        sequence_number: position,
        mirror_id: id.to_string(),
        shot_type: Some("fixed".to_string()),
        shot_size: None,
        duration: Some("3".to_string()),
        dialogue: None,
        description: Some(format!("shot {}", id)),
        notes: None,
        image_prompt_zh: None,
        image_prompt_en: None,
        image_prompt_tail_zh: None,
        image_prompt_tail_en: None,
        video_prompt_zh: None,
        video_prompt_en: None,
        image_first_path: Some("/tmp/old.png".to_string()),
        image_last_path: None,
        image_status: Some("generated".to_string()),
    }
}

fn character(name: &str, description: &str) -> Character {
    Character {
        name: name.to_string(),
        description: Some(description.to_string()),
        image_prompt_zh: None,
        image_prompt_en: None,
        notes: None,
    }
}

fn scene(name: &str) -> Scene {
    Scene {
        name: name.to_string(),
        description: None,
        image_prompt_zh: None,
        image_prompt_en: None,
        notes: None,
    }
}

fn prop(name: &str) -> Prop {
    Prop {
        name: name.to_string(),
        description: None,
        image_prompt_zh: None,
        image_prompt_en: None,
        notes: None,
    }
}

fn ids(db: &ProjectDatabase) -> Vec<String> {
    get_storyboards(db).into_iter().map(|s| s.mirror_id).collect()
}

fn positions(db: &ProjectDatabase) -> Vec<i64> {
    get_storyboards(db).into_iter().map(|s| s.sequence_number).collect()
}

fn meta_value(db: &ProjectDatabase, key: &str) -> Option<String> {
    db.meta().iter().find(|e| e.key == key).map(|e| e.value.clone())
}

#[test]
fn full_replace_leaves_only_the_new_batch() {
    let mut db = fresh();
    let first = vec![shot("s1", 0), shot("s2", 0), shot("s3", 0), shot("s4", 0), shot("s5", 0)];
    save_generated_data(
        &mut db,
        first,
        vec![character("Alice", "a pilot")],
        vec![scene("Hangar")],
        vec![prop("Helmet")],
        ReplaceMode::Full,
        1_000,
    )
    .unwrap();
    assert_eq!(ids(&db), vec!["s1", "s2", "s3", "s4", "s5"]);
    assert_eq!(get_characters(&db).len(), 1);

    save_generated_data(
        &mut db,
        vec![shot("t1", 9), shot("t2", 9)],
        vec![],
        vec![],
        vec![],
        ReplaceMode::Full,
        2_000,
    )
    .unwrap();
    assert_eq!(ids(&db), vec!["t1", "t2"]);
    assert_eq!(positions(&db), vec![1, 2]);
    assert!(get_characters(&db).is_empty());
    assert!(get_scenes(&db).is_empty());
    assert!(get_props(&db).is_empty());
}

#[test]
fn partial_replace_preserves_existing_asset() {
    let mut db = fresh();
    upsert(&mut db, AnyAsset::Character(character("Alice", "hand-written")), UpsertPolicy::Overwrite, 1);
    let before = get_characters(&db);

    save_generated_data(
        &mut db,
        vec![shot("A1", 1)],
        vec![character("Alice", "regenerated"), character("Bob", "new")],
        vec![scene("Street")],
        vec![],
        ReplaceMode::Partial,
        5,
    )
    .unwrap();

    let after = get_characters(&db);
    assert_eq!(after.len(), 2);
    assert_eq!(after[0], before[0]);
    assert_eq!(after[0].description, Some("hand-written".to_string()));
    assert_eq!(after[1].name, "Bob");
    assert_eq!(get_scenes(&db).len(), 1);
}

#[test]
fn full_replace_overwrites_within_the_batch() {
    let mut db = fresh();
    save_generated_data(
        &mut db,
        vec![],
        vec![character("Alice", "first"), character("Alice", "second")],
        vec![],
        vec![],
        ReplaceMode::Full,
        5,
    )
    .unwrap();
    let rows = get_characters(&db);
    assert_eq!(rows.len(), 1);
    assert_eq!(rows[0].description, Some("second".to_string()));
}

#[test]
fn positions_follow_submission_order() {
    let mut db = fresh();
    save_generated_data(
        &mut db,
        vec![shot("A3", 42), shot("A1", -7), shot("A2", 42), shot("A8-1", 0)],
        vec![],
        vec![],
        vec![],
        ReplaceMode::Partial,
        0,
    )
    .unwrap();
    assert_eq!(ids(&db), vec!["A3", "A1", "A2", "A8-1"]);
    assert_eq!(positions(&db), vec![1, 2, 3, 4]);
}

#[test]
fn stored_shot_has_defaults_and_no_images() {
    let mut db = fresh();
    save_generated_data(&mut db, vec![shot("A1", 3)], vec![], vec![], vec![], ReplaceMode::Full, 0)
        .unwrap();
    let stored = get_storyboards(&db);
    assert_eq!(stored.len(), 1);
    assert_eq!(stored[0].shot_type, Some("fixed".to_string()));
    assert_eq!(stored[0].shot_size, Some(String::new()));
    assert_eq!(stored[0].duration, Some("3".to_string()));
    assert_eq!(stored[0].dialogue, Some(String::new()));
    assert_eq!(stored[0].image_first_path, None);
    assert_eq!(stored[0].image_last_path, None);
    assert_eq!(stored[0].image_status, Some("empty".to_string()));
}

#[test]
fn stored_asset_has_empty_texts_for_missing_ones() {
    let mut db = fresh();
    upsert(&mut db, AnyAsset::Prop(prop("Helmet")), UpsertPolicy::KeepExisting, 1);
    let rows = get_props(&db);
    assert_eq!(rows[0].name, "Helmet");
    assert_eq!(rows[0].description, Some(String::new()));
    assert_eq!(rows[0].notes, Some(String::new()));
}

#[test]
fn failed_replacement_leaves_the_store_untouched() {
    let mut db = fresh();
    let existing = vec![shot("s1", 0), shot("s2", 0), shot("s3", 0), shot("s4", 0), shot("s5", 0)];
    save_generated_data(
        &mut db,
        existing,
        vec![character("Alice", "a pilot")],
        vec![],
        vec![],
        ReplaceMode::Full,
        10,
    )
    .unwrap();
    let before = db.to_stored();

    let third_fails = vec![shot("n1", 0), shot("n2", 0), shot("n1", 0), shot("n4", 0), shot("n5", 0)];
    let outcome = save_generated_data(
        &mut db,
        third_fails,
        vec![character("Zed", "never stored")],
        vec![],
        vec![],
        ReplaceMode::Full,
        20,
    );
    assert_eq!(outcome, Err(StoreError::ConstraintViolation));
    assert_eq!(db.to_stored(), before);
    assert_eq!(ids(&db), vec!["s1", "s2", "s3", "s4", "s5"]);
}

#[test]
fn empty_shot_list_is_a_valid_outcome() {
    let mut db = fresh();
    save_generated_data(&mut db, vec![shot("A1", 1)], vec![], vec![], vec![], ReplaceMode::Full, 1)
        .unwrap();
    save_generated_data(&mut db, vec![], vec![], vec![], vec![], ReplaceMode::Partial, 2).unwrap();
    assert!(get_storyboards(&db).is_empty());
}

#[test]
fn saving_refreshes_modified_at() {
    let mut db = fresh();
    save_generated_data(&mut db, vec![], vec![], vec![], vec![], ReplaceMode::Full, 1_700_000_000_123)
        .unwrap();
    assert_eq!(meta_value(&db, "modified_at"), Some("1700000000123".to_string()));
    save_project_style(&mut db, None, None, -5);
    assert_eq!(meta_value(&db, "modified_at"), Some("-5".to_string()));
    assert_eq!(db.meta().len(), 1);
}

#[test]
fn upsert_overwrite_replaces_in_place() {
    let mut db = fresh();
    upsert(&mut db, AnyAsset::Character(character("Alice", "one")), UpsertPolicy::Overwrite, 1);
    upsert(&mut db, AnyAsset::Character(character("Bob", "two")), UpsertPolicy::Overwrite, 1);
    upsert(&mut db, AnyAsset::Character(character("Alice", "three")), UpsertPolicy::Overwrite, 1);
    let rows = get_characters(&db);
    assert_eq!(rows.len(), 2);
    assert_eq!(rows[0].name, "Alice");
    assert_eq!(rows[0].description, Some("three".to_string()));
    assert_eq!(rows[1].name, "Bob");
}

#[test]
fn upsert_keep_existing_skips_known_name() {
    let mut db = fresh();
    upsert(&mut db, AnyAsset::Scene(scene("Street")), UpsertPolicy::KeepExisting, 1);
    let mut changed = scene("Street");
    changed.notes = Some("rainy".to_string());
    upsert(&mut db, AnyAsset::Scene(changed), UpsertPolicy::KeepExisting, 1);
    let rows = get_scenes(&db);
    assert_eq!(rows.len(), 1);
    assert_eq!(rows[0].notes, Some(String::new()));
}

#[test]
fn upsert_refreshes_modified_at() {
    let mut db = fresh();
    upsert(&mut db, AnyAsset::Prop(prop("Helmet")), UpsertPolicy::Overwrite, 4_321);
    assert_eq!(meta_value(&db, "modified_at"), Some("4321".to_string()));
    assert!(get_characters(&db).is_empty());
    assert!(get_scenes(&db).is_empty());
    assert_eq!(get_props(&db).len(), 1);
}

#[test]
fn asset_names_are_case_sensitive() {
    let mut db = fresh();
    upsert(&mut db, AnyAsset::Character(character("alice", "lower")), UpsertPolicy::KeepExisting, 1);
    upsert(&mut db, AnyAsset::Character(character("Alice", "upper")), UpsertPolicy::KeepExisting, 1);
    assert_eq!(get_characters(&db).len(), 2);
}

#[test]
fn log_reads_back_the_most_recent_in_order() {
    let mut db = fresh();
    assert_eq!(save_chat_message(&mut db, "user".to_string(), "m1".to_string(), 100), Ok(100));
    assert_eq!(save_chat_message(&mut db, "assistant".to_string(), "m2".to_string(), 200), Ok(200));
    assert_eq!(save_chat_message(&mut db, "user".to_string(), "m3".to_string(), 300), Ok(300));
    let contents: Vec<String> =
        get_chat_history(&db, Some(2)).into_iter().map(|m| m.content).collect();
    assert_eq!(contents, vec!["m2", "m3"]);
}

#[test]
fn log_assigns_rising_identities() {
    let mut db = fresh();
    for i in 0..3 {
        save_chat_message(&mut db, "user".to_string(), format!("m{}", i), 7).unwrap();
    }
    let all = get_chat_history(&db, None);
    let found: Vec<Option<i64>> = all.iter().map(|m| m.id).collect();
    assert_eq!(found, vec![Some(1), Some(2), Some(3)]);
    assert_eq!(all[0].timestamp, Some(7));
    assert_eq!(all[0].role, "user");
}

#[test]
fn log_limit_edge_cases() {
    let mut db = fresh();
    for i in 0..25 {
        save_chat_message(&mut db, "user".to_string(), format!("m{}", i), i).unwrap();
    }
    assert_eq!(DEFAULT_HISTORY_LIMIT, 20);
    let default = get_chat_history(&db, None);
    assert_eq!(default.len(), 20);
    assert_eq!(default[0].content, "m5");
    assert_eq!(default[19].content, "m24");
    assert!(get_chat_history(&db, Some(0)).is_empty());
    assert_eq!(get_chat_history(&db, Some(100)).len(), 25);
    assert_eq!(get_chat_history(&db, Some(-1)).len(), 25);
    assert_eq!(get_chat_history(&db, Some(25)).len(), 25);
    assert_eq!(get_chat_history(&db, Some(1))[0].content, "m24");
}

#[test]
fn log_refuses_when_identities_run_out() {
    let mut stored = ProjectDatabase::open(StoredProject::empty()).unwrap().to_stored();
    stored.chat = Some(vec![storyboard::models::ChatMessage {
        id: Some(i64::MAX),
        role: "user".to_string(),
        content: "last".to_string(),
        timestamp: Some(1),
    }]);
    let mut db = ProjectDatabase::open(stored).unwrap();
    let before = db.to_stored();
    assert_eq!(
        save_chat_message(&mut db, "user".to_string(), "one more".to_string(), 2),
        Err(StoreError::ConstraintViolation)
    );
    assert_eq!(db.to_stored(), before);
}

#[test]
fn logging_does_not_touch_modified_at() {
    let mut db = fresh();
    save_chat_message(&mut db, "user".to_string(), "hello".to_string(), 9).unwrap();
    assert_eq!(meta_value(&db, "modified_at"), None);
}

#[test]
fn image_update_marks_the_shot_generated() {
    let mut db = fresh();
    save_generated_data(
        &mut db,
        vec![shot("A1", 0), shot("A2", 0)],
        vec![],
        vec![],
        vec![],
        ReplaceMode::Full,
        1,
    )
    .unwrap();
    update_storyboard_image(&mut db, "A2", "first", "/img/a2.png".to_string(), 50).unwrap();
    update_storyboard_image(&mut db, "A2", "last", "/img/a2-tail.png".to_string(), 60).unwrap();
    let shots = get_storyboards(&db);
    assert_eq!(shots[0].image_status, Some("empty".to_string()));
    assert_eq!(shots[0].image_first_path, None);
    assert_eq!(shots[1].image_first_path, Some("/img/a2.png".to_string()));
    assert_eq!(shots[1].image_last_path, Some("/img/a2-tail.png".to_string()));
    assert_eq!(shots[1].image_status, Some("generated".to_string()));
    assert_eq!(meta_value(&db, "modified_at"), Some("60".to_string()));
}

#[test]
fn image_update_refuses_unknown_type_and_unknown_shot() {
    let mut db = fresh();
    save_generated_data(&mut db, vec![shot("A1", 0)], vec![], vec![], vec![], ReplaceMode::Full, 1)
        .unwrap();
    let before = db.to_stored();
    assert_eq!(
        update_storyboard_image(&mut db, "A1", "middle", "/x.png".to_string(), 2),
        Err(StoreError::ValidationFailure)
    );
    assert_eq!(
        update_storyboard_image(&mut db, "nope", "middle", "/x.png".to_string(), 2),
        Err(StoreError::ValidationFailure)
    );
    assert_eq!(
        update_storyboard_image(&mut db, "nope", "first", "/x.png".to_string(), 2),
        Err(StoreError::NotFound)
    );
    assert_eq!(db.to_stored(), before);
    assert_eq!(image_slot("first"), Some(ImageSlot::First));
    assert_eq!(image_slot("last"), Some(ImageSlot::Last));
    assert_eq!(image_slot("First"), None);
}

#[test]
fn style_prompts_round_trip() {
    let mut db = fresh();
    let none = get_project_style(&db);
    assert_eq!(none.style_prompt, None);
    assert_eq!(none.quality_prompt, None);
    save_project_style(&mut db, Some("pixar".to_string()), None, 1);
    save_project_style(&mut db, None, Some("8k".to_string()), 2);
    save_project_style(&mut db, Some("noir".to_string()), None, 3);
    let style = get_project_style(&db);
    assert_eq!(style.style_prompt, Some("noir".to_string()));
    assert_eq!(style.quality_prompt, Some("8k".to_string()));
    assert_eq!(
        db.meta()[0],
        MetaEntry { key: "style_prompt".to_string(), value: "noir".to_string() }
    );
}

#[test]
fn reopening_what_was_stored_gives_the_same_store() {
    let mut db = fresh();
    save_generated_data(
        &mut db,
        vec![shot("A1", 0), shot("A2", 0)],
        vec![character("Alice", "a pilot")],
        vec![scene("Hangar")],
        vec![prop("Helmet")],
        ReplaceMode::Full,
        77,
    )
    .unwrap();
    save_chat_message(&mut db, "user".to_string(), "hi".to_string(), 78).unwrap();
    let stored = db.to_stored();
    let again = ProjectDatabase::open(stored.clone()).unwrap();
    assert_eq!(again.to_stored(), stored);
}

#[test]
fn every_failure_has_its_message() {
    let all = [
        StoreError::IoFailure,
        StoreError::SchemaFailure,
        StoreError::ConstraintViolation,
        StoreError::NotFound,
        StoreError::ValidationFailure,
    ];
    for (i, a) in all.iter().enumerate() {
        assert!(!a.message().is_empty());
        for b in all.iter().skip(i + 1) {
            assert_ne!(a.message(), b.message());
        }
    }
    assert_eq!(StoreError::NotFound.message(), "no such project, shot or asset");
}
