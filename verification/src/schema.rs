//! The tables of a project as they are found on disk, and the migrator that
//! brings them to the current shape.
//!
//! There is no version counter: the shape of the shot table is read off the
//! text of its definition.  A table in the first shape, with a numeric
//! identity and no identifier of its own as key, is rebuilt row by row; a
//! table in the current shape that lacks the image columns gets them added.
//! Migrating is all or nothing for the shot table, and migrating twice gives
//! what migrating once gives.

use vstd::prelude::*;
use vstd::string::*;
use crate::meta::{MetaEntry, entry_views};
use crate::models::{
    Asset, AssetView, Character, ChatMessage, MessageView, Prop, Scene, ShotView, Storyboard,
    asset_views, message_views, opt_int, opt_text, shot_ids, shot_views, status_empty,
};
use crate::text::{
    all_distinct, contains, contains_bytes, decimal, decimal_text, distinct,
    lemma_decimal_text_injective, text_views,
};

verus! {

/// The name of the shot table.
pub const SHOT_TABLE: &'static str = "storyboards";

/// The name of the table of characters.
pub const CHARACTER_TABLE: &'static str = "characters";

/// The name of the table of scenes.
pub const SCENE_TABLE: &'static str = "scenes";

/// The name of the table of props.
pub const PROP_TABLE: &'static str = "props";

/// The name of the metadata table.
pub const META_TABLE: &'static str = "project_meta";

/// The name of the conversation log.
pub const CHAT_TABLE: &'static str = "chat_history";

/// The definition of the shot table in its current shape.
pub const CREATE_SHOT_TABLE: &'static str =
    "CREATE TABLE IF NOT EXISTS storyboards (
        mirror_id TEXT PRIMARY KEY,
        sequence_number INTEGER NOT NULL,
        shot_type TEXT,
        shot_size TEXT,
        duration REAL,
        dialogue TEXT,
        description TEXT,
        notes TEXT,
        image_prompt_zh TEXT,
        image_prompt_en TEXT,
        image_prompt_tail_zh TEXT,
        image_prompt_tail_en TEXT,
        video_prompt_zh TEXT,
        video_prompt_en TEXT,
        image_first_path TEXT,
        image_last_path TEXT,
        image_status TEXT DEFAULT 'empty'
    )";

/// The definition of the table of characters.
pub const CREATE_CHARACTER_TABLE: &'static str =
    "CREATE TABLE IF NOT EXISTS characters (
        name TEXT PRIMARY KEY,
        description TEXT,
        image_prompt_zh TEXT,
        image_prompt_en TEXT,
        notes TEXT
    )";

/// The definition of the table of scenes.
pub const CREATE_SCENE_TABLE: &'static str =
    "CREATE TABLE IF NOT EXISTS scenes (
        name TEXT PRIMARY KEY,
        description TEXT,
        image_prompt_zh TEXT,
        image_prompt_en TEXT,
        notes TEXT
    )";

/// The definition of the table of props.
pub const CREATE_PROP_TABLE: &'static str =
    "CREATE TABLE IF NOT EXISTS props (
        name TEXT PRIMARY KEY,
        description TEXT,
        image_prompt_zh TEXT,
        image_prompt_en TEXT,
        notes TEXT
    )";

/// The definition of the metadata table.
pub const CREATE_META_TABLE: &'static str =
    "CREATE TABLE IF NOT EXISTS project_meta (
        key TEXT PRIMARY KEY,
        value TEXT
    )";

/// The definition of the conversation log.
pub const CREATE_CHAT_TABLE: &'static str =
    "CREATE TABLE IF NOT EXISTS chat_history (
        id INTEGER PRIMARY KEY AUTOINCREMENT,
        role TEXT NOT NULL,
        content TEXT NOT NULL,
        timestamp INTEGER NOT NULL
    )";

/// What a table definition of the first shape holds.
pub open spec fn legacy_mark() -> Seq<u8> {
    "id INTEGER PRIMARY KEY".spec_bytes()
}

/// What a table definition of the current shape holds.
pub open spec fn current_mark() -> Seq<u8> {
    "mirror_id TEXT PRIMARY KEY".spec_bytes()
}

/// The shape of the shot table.
#[derive(Clone, Copy, Debug, PartialEq, Eq, Structural)]
pub enum TableShape {
    /// There is no shot table.
    Absent,
    /// Rows are keyed by a numeric identity.
    Legacy,
    /// Rows are keyed by the shot identifier.
    Current,
}

/// The shape that the text of a table definition shows: the first shape
/// where it declares a numeric key and does not declare the shot identifier
/// as key, the current shape otherwise.
pub open spec fn shape_of(definition: Option<Seq<u8>>) -> TableShape {
    match definition {
        None => TableShape::Absent,
        Some(text) => if contains_bytes(text, legacy_mark()) && !contains_bytes(
            text,
            current_mark(),
        ) {
            TableShape::Legacy
        } else {
            TableShape::Current
        },
    }
}

/// The bytes of an optional text.
pub open spec fn opt_bytes(o: Option<&str>) -> Option<Seq<u8>> {
    match o {
        Some(s) => Some(s.spec_bytes()),
        None => None,
    }
}

/// Reads the shape of the shot table off the text of its definition, as the
/// database keeps it; `None` stands for a database without a shot table.
pub fn table_shape(definition: Option<&str>) -> (shape: TableShape)
    ensures
        shape == shape_of(opt_bytes(definition)),
{
    match definition {
        None => TableShape::Absent,
        Some(text) => {
            let numeric_key = contains(text, "id INTEGER PRIMARY KEY");
            let identifier_key = contains(text, "mirror_id TEXT PRIMARY KEY");
            if numeric_key && !identifier_key {
                TableShape::Legacy
            } else {
                TableShape::Current
            }
        },
    }
}

/// A row of the shot table in its first shape.  `id` is the numeric
/// identity of the row.  `mirror_id` is `None` where the table has no such
/// column or the row has no value in it.
#[derive(Debug, Clone, PartialEq, Eq)]
pub struct LegacyShot {
    pub id: Option<i64>,
    pub mirror_id: Option<String>,
    pub sequence_number: Option<i64>,
    pub shot_type: Option<String>,
    pub shot_size: Option<String>,
    pub duration: Option<String>,
    pub dialogue: Option<String>,
    pub description: Option<String>,
    pub notes: Option<String>,
    pub image_prompt_zh: Option<String>,
    pub image_prompt_en: Option<String>,
    pub image_prompt_tail_zh: Option<String>,
    pub image_prompt_tail_en: Option<String>,
    pub video_prompt_zh: Option<String>,
    pub video_prompt_en: Option<String>,
}

/// The view of a row of the first shape.
pub struct LegacyShotView {
    pub id: Option<int>,
    pub mirror_id: Option<Seq<char>>,
    pub sequence_number: Option<int>,
    pub shot_type: Option<Seq<char>>,
    pub shot_size: Option<Seq<char>>,
    pub duration: Option<Seq<char>>,
    pub dialogue: Option<Seq<char>>,
    pub description: Option<Seq<char>>,
    pub notes: Option<Seq<char>>,
    pub image_prompt_zh: Option<Seq<char>>,
    pub image_prompt_en: Option<Seq<char>>,
    pub image_prompt_tail_zh: Option<Seq<char>>,
    pub image_prompt_tail_en: Option<Seq<char>>,
    pub video_prompt_zh: Option<Seq<char>>,
    pub video_prompt_en: Option<Seq<char>>,
}

impl View for LegacyShot {
    type V = LegacyShotView;

    open spec fn view(&self) -> LegacyShotView {
        LegacyShotView {
            id: opt_int(self.id),
            mirror_id: opt_text(self.mirror_id),
            sequence_number: opt_int(self.sequence_number),
            shot_type: opt_text(self.shot_type),
            shot_size: opt_text(self.shot_size),
            duration: opt_text(self.duration),
            dialogue: opt_text(self.dialogue),
            description: opt_text(self.description),
            notes: opt_text(self.notes),
            image_prompt_zh: opt_text(self.image_prompt_zh),
            image_prompt_en: opt_text(self.image_prompt_en),
            image_prompt_tail_zh: opt_text(self.image_prompt_tail_zh),
            image_prompt_tail_en: opt_text(self.image_prompt_tail_en),
            video_prompt_zh: opt_text(self.video_prompt_zh),
            video_prompt_en: opt_text(self.video_prompt_en),
        }
    }
}

/// The views of a list of rows of the first shape.
pub open spec fn legacy_views(rows: Seq<LegacyShot>) -> Seq<LegacyShotView> {
    Seq::new(rows.len(), |i: int| rows[i]@)
}

/// The identifier that a row of the first shape gets: its own where it has
/// one, else its numeric identity as decimal text, else the empty text.
pub open spec fn migrated_id(row: LegacyShotView) -> Seq<char> {
    match row.mirror_id {
        Some(id) => id,
        None => match row.id {
            Some(n) => decimal_text(n),
            None => Seq::empty(),
        },
    }
}

/// The row of the current shape that a row of the first shape becomes.  The
/// place in the list is kept as it was, 0 standing for a missing one; the
/// descriptive columns are copied; the row starts without images.
pub open spec fn migrated_row(row: LegacyShotView) -> ShotView {
    ShotView {
        sequence_number: match row.sequence_number {
            Some(n) => n,
            None => 0,
        },
        mirror_id: migrated_id(row),
        shot_type: row.shot_type,
        shot_size: row.shot_size,
        duration: row.duration,
        dialogue: row.dialogue,
        description: row.description,
        notes: row.notes,
        image_prompt_zh: row.image_prompt_zh,
        image_prompt_en: row.image_prompt_en,
        image_prompt_tail_zh: row.image_prompt_tail_zh,
        image_prompt_tail_en: row.image_prompt_tail_en,
        video_prompt_zh: row.video_prompt_zh,
        video_prompt_en: row.video_prompt_en,
        image_first_path: None,
        image_last_path: None,
        image_status: Some(status_empty()),
    }
}

/// The rows that the rows of the first shape become, in the same order.
pub open spec fn migrated_rows(rows: Seq<LegacyShotView>) -> Seq<ShotView> {
    Seq::new(rows.len(), |i: int| migrated_row(rows[i]))
}

/// A row after the image columns have been added to its table: both paths
/// are missing and the status is the column's default.
pub open spec fn with_image_columns(row: ShotView) -> ShotView {
    ShotView {
        image_first_path: None,
        image_last_path: None,
        image_status: Some(status_empty()),
        ..row
    }
}

/// The rows of a table after the image columns have been added to it.
pub open spec fn rows_with_image_columns(rows: Seq<ShotView>) -> Seq<ShotView> {
    Seq::new(rows.len(), |i: int| with_image_columns(rows[i]))
}

/// The shot table as it is found on disk.
#[derive(Debug, Clone, PartialEq, Eq)]
#[allow(inconsistent_fields)]
pub enum ShotTable {
    /// There is no shot table.
    Absent,
    /// The table has the first shape.
    Legacy { rows: Vec<LegacyShot> },
    /// The table has the current shape, with or without the image columns.
    Current { has_image_columns: bool, rows: Vec<Storyboard> },
}

/// The view of the shot table.
#[allow(inconsistent_fields)]
pub enum ShotTableView {
    Absent,
    Legacy { rows: Seq<LegacyShotView> },
    Current { has_image_columns: bool, rows: Seq<ShotView> },
}

impl View for ShotTable {
    type V = ShotTableView;

    open spec fn view(&self) -> ShotTableView {
        match self {
            ShotTable::Absent => ShotTableView::Absent,
            ShotTable::Legacy { rows } => ShotTableView::Legacy { rows: legacy_views(rows@) },
            ShotTable::Current { has_image_columns, rows } => ShotTableView::Current {
                has_image_columns: *has_image_columns,
                rows: shot_views(rows@),
            },
        }
    }
}

/// The tables of a project as they are found on disk; `None` stands for a
/// table that does not exist.
#[derive(Debug, Clone, PartialEq, Eq)]
pub struct StoredProject {
    pub shots: ShotTable,
    pub characters: Option<Vec<Character>>,
    pub scenes: Option<Vec<Scene>>,
    pub props: Option<Vec<Prop>>,
    pub meta: Option<Vec<MetaEntry>>,
    pub chat: Option<Vec<ChatMessage>>,
}

/// The view of the tables of a project.
pub struct StoredView {
    pub shots: ShotTableView,
    pub characters: Option<Seq<AssetView>>,
    pub scenes: Option<Seq<AssetView>>,
    pub props: Option<Seq<AssetView>>,
    pub meta: Option<Seq<(Seq<char>, Seq<char>)>>,
    pub chat: Option<Seq<MessageView>>,
}

/// The view of an asset table that may be missing.
pub open spec fn opt_assets<A: Asset>(table: Option<Vec<A>>) -> Option<Seq<AssetView>> {
    match table {
        Some(rows) => Some(asset_views(rows@)),
        None => None,
    }
}

/// The view of a metadata table that may be missing.
pub open spec fn opt_entries(table: Option<Vec<MetaEntry>>) -> Option<
    Seq<(Seq<char>, Seq<char>)>,
> {
    match table {
        Some(rows) => Some(entry_views(rows@)),
        None => None,
    }
}

/// The view of a conversation log that may be missing.
pub open spec fn opt_messages(table: Option<Vec<ChatMessage>>) -> Option<Seq<MessageView>> {
    match table {
        Some(rows) => Some(message_views(rows@)),
        None => None,
    }
}

impl View for StoredProject {
    type V = StoredView;

    open spec fn view(&self) -> StoredView {
        StoredView {
            shots: self.shots@,
            characters: opt_assets(self.characters),
            scenes: opt_assets(self.scenes),
            props: opt_assets(self.props),
            meta: opt_entries(self.meta),
            chat: opt_messages(self.chat),
        }
    }
}

/// The tables of a project of which nothing exists yet.
pub open spec fn nothing_stored() -> StoredView {
    StoredView {
        shots: ShotTableView::Absent,
        characters: None,
        scenes: None,
        props: None,
        meta: None,
        chat: None,
    }
}

impl StoredProject {
    /// The tables of a project of which nothing exists yet.
    pub fn empty() -> (stored: StoredProject)
        ensures
            stored@ == nothing_stored(),
    {
        StoredProject {
            shots: ShotTable::Absent,
            characters: None,
            scenes: None,
            props: None,
            meta: None,
            chat: None,
        }
    }
}

/// A table that exists: the table itself, or an empty one where it was
/// missing.
pub open spec fn created<R>(table: Option<Seq<R>>) -> Option<Seq<R>> {
    match table {
        Some(rows) => Some(rows),
        None => Some(Seq::empty()),
    }
}

/// The shot table after migration.  A missing table is created empty.  A
/// table of the first shape is rebuilt if its rows get identifiers that are
/// all different; if two rows would get the same identifier the rebuild
/// fails and the table stays exactly as it was.  A table of the current
/// shape gets the image columns if it lacks them.
pub open spec fn migrated_shots(table: ShotTableView) -> ShotTableView {
    match table {
        ShotTableView::Absent => ShotTableView::Current {
            has_image_columns: true,
            rows: Seq::empty(),
        },
        ShotTableView::Legacy { rows } => if distinct(shot_ids(migrated_rows(rows))) {
            ShotTableView::Current { has_image_columns: true, rows: migrated_rows(rows) }
        } else {
            table
        },
        ShotTableView::Current { has_image_columns, rows } => if has_image_columns {
            table
        } else {
            ShotTableView::Current {
                has_image_columns: true,
                rows: rows_with_image_columns(rows),
            }
        },
    }
}

/// The tables of a project after migration: the shot table migrated, every
/// other table created if it was missing.  Where the shot table could not be
/// rebuilt the migration stops there, and every table is as it was.
pub open spec fn migrated(stored: StoredView) -> StoredView {
    if migrated_shots(stored.shots) is Legacy {
        stored
    } else {
        StoredView {
            shots: migrated_shots(stored.shots),
            characters: created(stored.characters),
            scenes: created(stored.scenes),
            props: created(stored.props),
            meta: created(stored.meta),
            chat: created(stored.chat),
        }
    }
}

/// Migrating what has been migrated changes nothing: tables and rows are
/// what one migration left.
pub proof fn lemma_migration_idempotent(stored: StoredView)
    ensures
        migrated(migrated(stored)) == migrated(stored),
{
}

/// A table of the first shape whose rows have only their numeric identity,
/// each a different one, is rebuilt, and every row of the new table has as
/// identifier the decimal text of its numeric identity, which is not empty,
/// and the place in the list that it had.
pub proof fn lemma_legacy_migration(rows: Seq<LegacyShotView>)
    requires
        forall|i: int| 0 <= i < rows.len() ==> rows[i].mirror_id is None && rows[i].id is Some,
        forall|i: int, j: int| 0 <= i < j < rows.len() ==> rows[i].id != rows[j].id,
    ensures
        migrated_shots(ShotTableView::Legacy { rows }) == (ShotTableView::Current {
            has_image_columns: true,
            rows: migrated_rows(rows),
        }),
        migrated_rows(rows).len() == rows.len(),
        forall|i: int|
            0 <= i < rows.len() ==> {
                &&& (#[trigger] migrated_rows(rows)[i]).mirror_id == decimal_text(rows[i].id->0)
                &&& migrated_rows(rows)[i].mirror_id.len() > 0
                &&& rows[i].sequence_number is Some ==> migrated_rows(rows)[i].sequence_number
                    == rows[i].sequence_number->0
                &&& rows[i].sequence_number is None ==> migrated_rows(rows)[i].sequence_number == 0
            },
{
    let ids = shot_ids(migrated_rows(rows));
    assert forall|i: int, j: int| 0 <= i < j < ids.len() implies ids[i] != ids[j] by {
        lemma_decimal_text_injective(rows[i].id->0, rows[j].id->0);
    }
    assert forall|i: int| 0 <= i < rows.len() implies (#[trigger] migrated_rows(
        rows,
    )[i]).mirror_id.len() > 0 by {
        lemma_decimal_text_injective(rows[i].id->0, rows[i].id->0);
    }
}

impl LegacyShot {
    /// The identifier that this row gets in the current shape.
    pub fn new_id(&self) -> (id: String)
        ensures
            id@ == migrated_id(self@),
    {
        match &self.mirror_id {
            Some(id) => id.clone(),
            None => match self.id {
                Some(n) => decimal(n),
                None => String::new(),
            },
        }
    }

    /// The row of the current shape that this row becomes.
    pub fn into_current(self) -> (row: Storyboard)
        ensures
            row@ == migrated_row(self@),
    {
        proof {
            reveal_strlit("empty");
        }
        let id = self.new_id();
        let position = match self.sequence_number {
            Some(n) => n,
            None => 0,
        };
        Storyboard {
            sequence_number: position,
            mirror_id: id,
            shot_type: self.shot_type,
            shot_size: self.shot_size,
            duration: self.duration,
            dialogue: self.dialogue,
            description: self.description,
            notes: self.notes,
            image_prompt_zh: self.image_prompt_zh,
            image_prompt_en: self.image_prompt_en,
            image_prompt_tail_zh: self.image_prompt_tail_zh,
            image_prompt_tail_en: self.image_prompt_tail_en,
            video_prompt_zh: self.video_prompt_zh,
            video_prompt_en: self.video_prompt_en,
            image_first_path: None,
            image_last_path: None,
            image_status: Some(String::from_str("empty")),
        }
    }
}

/// Tells whether the rows of a table of the first shape get identifiers
/// that are all different.
pub fn can_rebuild(rows: &Vec<LegacyShot>) -> (unique: bool)
    ensures
        unique == distinct(shot_ids(migrated_rows(legacy_views(rows@)))),
{
    let mut ids: Vec<String> = Vec::new();
    let mut i: usize = 0;
    while i < rows.len()
        invariant
            i <= rows.len(),
            ids.len() == i,
            forall|j: int| 0 <= j < i ==> ids[j]@ == migrated_id(rows[j]@),
        decreases rows.len() - i,
    {
        ids.push(rows[i].new_id());
        i += 1;
    }
    let mut borrowed: Vec<&String> = Vec::new();
    let mut k: usize = 0;
    while k < ids.len()
        invariant
            k <= ids.len(),
            borrowed.len() == k,
            forall|j: int| 0 <= j < k ==> borrowed[j]@ == ids[j]@,
        decreases ids.len() - k,
    {
        borrowed.push(&ids[k]);
        k += 1;
    }
    proof {
        assert(text_views(borrowed@) =~= shot_ids(migrated_rows(legacy_views(rows@))));
    }
    all_distinct(&borrowed)
}

/// Rebuilds the rows of a table of the first shape in the current shape.
pub fn rebuild_rows(rows: Vec<LegacyShot>) -> (rebuilt: Vec<Storyboard>)
    ensures
        shot_views(rebuilt@) == migrated_rows(legacy_views(rows@)),
{
    let ghost all = rows@;
    let mut rebuilt: Vec<Storyboard> = Vec::new();
    for row in it: rows
        invariant
            it.seq() == all,
            rebuilt.len() == it.index(),
            forall|j: int| 0 <= j < it.index() ==> rebuilt[j]@ == migrated_row(all[j]@),
    {
        rebuilt.push(row.into_current());
    }
    proof {
        assert(shot_views(rebuilt@) =~= migrated_rows(legacy_views(all)));
    }
    rebuilt
}

/// Adds the image columns to the rows of a table that lacks them.
pub fn add_image_columns(rows: Vec<Storyboard>) -> (widened: Vec<Storyboard>)
    ensures
        shot_views(widened@) == rows_with_image_columns(shot_views(rows@)),
{
    let ghost all = rows@;
    let mut widened: Vec<Storyboard> = Vec::new();
    for row in it: rows
        invariant
            it.seq() == all,
            widened.len() == it.index(),
            forall|j: int| 0 <= j < it.index() ==> widened[j]@ == with_image_columns(all[j]@),
    {
        proof {
            reveal_strlit("empty");
        }
        let mut row = row;
        row.image_first_path = None;
        row.image_last_path = None;
        row.image_status = Some(String::from_str("empty"));
        widened.push(row);
    }
    proof {
        assert(shot_views(widened@) =~= rows_with_image_columns(shot_views(all)));
    }
    widened
}

/// Brings the shot table to the current shape.
pub fn migrate_shots(table: ShotTable) -> (after: ShotTable)
    ensures
        after@ == migrated_shots(table@),
{
    match table {
        ShotTable::Absent => {
            let rows: Vec<Storyboard> = Vec::new();
            proof {
                assert(shot_views(rows@) =~= Seq::<ShotView>::empty());
            }
            ShotTable::Current { has_image_columns: true, rows }
        },
        ShotTable::Legacy { rows } => {
            if can_rebuild(&rows) {
                ShotTable::Current { has_image_columns: true, rows: rebuild_rows(rows) }
            } else {
                ShotTable::Legacy { rows }
            }
        },
        ShotTable::Current { has_image_columns, rows } => {
            if has_image_columns {
                ShotTable::Current { has_image_columns, rows }
            } else {
                ShotTable::Current { has_image_columns: true, rows: add_image_columns(rows) }
            }
        },
    }
}

/// Creates an asset table if it is missing.
pub fn create_assets<A: Asset>(table: Option<Vec<A>>) -> (after: Option<Vec<A>>)
    ensures
        opt_assets(after) == created(opt_assets(table)),
{
    match table {
        Some(rows) => Some(rows),
        None => {
            let rows: Vec<A> = Vec::new();
            proof {
                assert(asset_views(rows@) =~= Seq::<AssetView>::empty());
            }
            Some(rows)
        },
    }
}

/// Brings the tables of a project to the current shape: the schema
/// migrator.  It runs on every opening of a project.
pub fn migrate(stored: StoredProject) -> (after: StoredProject)
    ensures
        after@ == migrated(stored@),
{
    let shots = migrate_shots(stored.shots);
    match shots {
        ShotTable::Legacy { rows } => {
            return StoredProject {
                shots: ShotTable::Legacy { rows },
                characters: stored.characters,
                scenes: stored.scenes,
                props: stored.props,
                meta: stored.meta,
                chat: stored.chat,
            };
        },
        _ => {},
    }
    let characters = create_assets(stored.characters);
    let scenes = create_assets(stored.scenes);
    let props = create_assets(stored.props);
    let meta = match stored.meta {
        Some(rows) => Some(rows),
        None => {
            let rows: Vec<MetaEntry> = Vec::new();
            proof {
                assert(entry_views(rows@) =~= Seq::<(Seq<char>, Seq<char>)>::empty());
            }
            Some(rows)
        },
    };
    let chat = match stored.chat {
        Some(rows) => Some(rows),
        None => {
            let rows: Vec<ChatMessage> = Vec::new();
            proof {
                assert(message_views(rows@) =~= Seq::<MessageView>::empty());
            }
            Some(rows)
        },
    };
    StoredProject { shots, characters, scenes, props, meta, chat }
}

} // verus!
