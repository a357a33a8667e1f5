use storyboard::assets::{copy_assets, find_asset, merge_assets, upsert_asset, UpsertPolicy};
use storyboard::db::{keys_distinct, log_in_order, names_distinct, shot_ids_distinct};
use storyboard::meta::{copy_entries, find_entry, get_entry, set_entry, MetaEntry};
use storyboard::models::{
    clone_text, text_or_empty, Asset, ChatMessage, GlobalConfig, Prop, Storyboard,
};
use storyboard::order::{insert_ranked, sort_ranked};

fn prop(name: &str, notes: Option<&str>) -> Prop {
    Prop {
        name: name.to_string(),
        description: None,
        image_prompt_zh: None,
        image_prompt_en: None,
        notes: notes.map(|n| n.to_string()),
    }
}

fn placed(id: &str, position: i64) -> Storyboard {
    Storyboard {
        sequence_number: position,
        mirror_id: id.to_string(),
        shot_type: None,
        shot_size: None,
        duration: None,
        dialogue: None,
        description: None,
        notes: None,
        image_prompt_zh: None,
        image_prompt_en: None,
        image_prompt_tail_zh: None,
        image_prompt_tail_en: None,
        video_prompt_zh: None,
        video_prompt_en: None,
        image_first_path: None,
        image_last_path: None,
        image_status: None,
    }
}

fn entry(key: &str, value: &str) -> MetaEntry {
    MetaEntry { key: key.to_string(), value: value.to_string() }
}

#[test]
fn asset_table_finds_by_name() {
    let table = vec![prop("a", None), prop("b", None)];
    assert_eq!(find_asset(&table, &"a".to_string()), Some(0));
    assert_eq!(find_asset(&table, &"b".to_string()), Some(1));
    assert_eq!(find_asset(&table, &"c".to_string()), None);
    assert_eq!(find_asset(&Vec::<Prop>::new(), &"a".to_string()), None);
}

#[test]
fn asset_table_upsert_and_merge() {
    let mut table: Vec<Prop> = Vec::new();
    upsert_asset(&mut table, prop("a", Some("1")), UpsertPolicy::KeepExisting);
    upsert_asset(&mut table, prop("a", Some("2")), UpsertPolicy::KeepExisting);
    assert_eq!(table, vec![Prop { description: Some(String::new()), image_prompt_zh: Some(String::new()), image_prompt_en: Some(String::new()), ..prop("a", Some("1")) }]);
    merge_assets(
        &mut table,
        vec![prop("b", None), prop("a", Some("3")), prop("b", Some("4"))],
        UpsertPolicy::Overwrite,
    );
    assert_eq!(table.len(), 2);
    assert_eq!(table[0].name, "a");
    assert_eq!(table[0].notes, Some("3".to_string()));
    assert_eq!(table[1].name, "b");
    assert_eq!(table[1].notes, Some("4".to_string()));
    merge_assets(
        &mut table,
        vec![prop("c", None), prop("a", Some("5")), prop("c", Some("6"))],
        UpsertPolicy::KeepExisting,
    );
    assert_eq!(table.len(), 3);
    assert_eq!(table[0].notes, Some("3".to_string()));
    assert_eq!(table[2].name, "c");
    assert_eq!(table[2].notes, Some(String::new()));
    assert_eq!(copy_assets(&table), table);
}

#[test]
fn asset_copies_and_stored_rows() {
    let a = prop("a", Some("n"));
    assert_eq!(a.duplicate(), a);
    assert_eq!(a.name(), "a");
    let stored = prop("b", None).into_stored();
    assert_eq!(stored.notes, Some(String::new()));
    assert_eq!(stored.description, Some(String::new()));
    assert_eq!(stored.name, "b");
    assert_eq!(clone_text(&Some("x".to_string())), Some("x".to_string()));
    assert_eq!(clone_text(&None), None);
    assert_eq!(text_or_empty(None), Some(String::new()));
    assert_eq!(text_or_empty(Some("x".to_string())), Some("x".to_string()));
}

#[test]
fn metadata_table_reads_and_writes() {
    let mut table: Vec<MetaEntry> = Vec::new();
    assert_eq!(get_entry(&table, "k"), None);
    set_entry(&mut table, "k", "1".to_string());
    set_entry(&mut table, "j", "2".to_string());
    set_entry(&mut table, "k", "3".to_string());
    assert_eq!(table, vec![entry("k", "3"), entry("j", "2")]);
    assert_eq!(find_entry(&table, "j"), Some(1));
    assert_eq!(find_entry(&table, "x"), None);
    assert_eq!(get_entry(&table, "k"), Some("3".to_string()));
    assert_eq!(get_entry(&table, "K"), None);
    assert_eq!(copy_entries(&table), table);
}

#[test]
fn validity_of_stored_rows_is_told() {
    assert!(shot_ids_distinct(&vec![placed("a", 1), placed("b", 1)]));
    assert!(!shot_ids_distinct(&vec![placed("a", 1), placed("b", 2), placed("a", 3)]));
    assert!(names_distinct(&vec![prop("a", None), prop("A", None)]));
    assert!(!names_distinct(&vec![prop("a", None), prop("a", Some("x"))]));
    assert!(keys_distinct(&vec![entry("a", "1"), entry("b", "1")]));
    assert!(!keys_distinct(&vec![entry("a", "1"), entry("a", "2")]));
    let message = |id: Option<i64>| ChatMessage {
        id,
        role: "user".to_string(),
        content: String::new(),
        timestamp: Some(0),
    };
    assert!(log_in_order(&vec![]));
    assert!(log_in_order(&vec![message(Some(-5)), message(Some(0)), message(Some(9))]));
    assert!(!log_in_order(&vec![message(Some(1)), message(Some(1))]));
    assert!(!log_in_order(&vec![message(Some(1)), message(Some(3)), message(Some(2))]));
    assert!(!log_in_order(&vec![message(Some(1)), message(None)]));
}

#[test]
fn ordering_is_ascending_and_stable() {
    let sorted = sort_ranked(vec![
        placed("a", 3),
        placed("b", 1),
        placed("c", 3),
        placed("d", 2),
        placed("e", 1),
        placed("f", i64::MIN),
        placed("g", i64::MAX),
    ]);
    let ids: Vec<&str> = sorted.iter().map(|s| s.mirror_id.as_str()).collect();
    assert_eq!(ids, vec!["f", "b", "e", "d", "a", "c", "g"]);

    let mut list = vec![placed("x", 1), placed("y", 5)];
    insert_ranked(&mut list, placed("z", 5));
    insert_ranked(&mut list, placed("w", 0));
    insert_ranked(&mut list, placed("v", 3));
    let ids: Vec<&str> = list.iter().map(|s| s.mirror_id.as_str()).collect();
    assert_eq!(ids, vec!["w", "x", "v", "y", "z"]);
}

#[test]
fn default_configuration_is_empty() {
    let config = GlobalConfig::default();
    assert!(config.apis.is_empty());
    assert_eq!(config.base_folder, None);
    assert_eq!(config.last_project, None);
}
