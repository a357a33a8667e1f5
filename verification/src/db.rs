//! The opened store of one project and the operations on its tables.

use vstd::prelude::*;
use vstd::string::*;
use crate::assets::{UpsertPolicy, merge_assets, merged, unique_names, upsert_asset, upserted};
use crate::error::StoreError;
use crate::meta::{
    MetaEntry, entry_views, get_entry, meta_get, meta_set, meta_set_opt, modified_key,
    quality_key, set_entry, style_key, unique_keys,
};
use crate::models::{
    Asset, AssetView, Character, ChatMessage, MessageView, Prop, Scene, ShotView, Storyboard,
    asset_views, message_views, opt_text, shot_ids, shot_views, status_generated, stored_asset,
    stored_shot,
};
use crate::order::{lemma_ordered_fixed, ordered};
use crate::schema::{ShotTable, ShotTableView, StoredProject, StoredView, migrate, migrated};
use crate::text::{all_distinct, decimal, decimal_text, distinct, text_views};

verus! {

/// The tables of an opened project.
pub struct StoreView {
    /// The shot list.
    pub shots: Seq<ShotView>,
    pub characters: Seq<AssetView>,
    pub scenes: Seq<AssetView>,
    pub props: Seq<AssetView>,
    /// The metadata: pairs of key and value.
    pub meta: Seq<(Seq<char>, Seq<char>)>,
    /// The conversation log, oldest message first.
    pub log: Seq<MessageView>,
}

/// Whether every message has an identity and a time, and identities rise
/// along the log.
pub open spec fn log_ordered(log: Seq<MessageView>) -> bool {
    &&& forall|i: int|
        0 <= i < log.len() ==> (#[trigger] log[i]).id is Some && log[i].timestamp is Some
    &&& forall|i: int, j: int|
        0 <= i < j < log.len() ==> (#[trigger] log[i]).id->0 < (#[trigger] log[j]).id->0
}

impl StoreView {
    /// What holds of every opened store: a shot identifier, an asset name
    /// within its kind and a metadata key occur once each, and the log is
    /// in the order of its identities.
    pub open spec fn wf(self) -> bool {
        &&& distinct(shot_ids(self.shots))
        &&& unique_names(self.characters)
        &&& unique_names(self.scenes)
        &&& unique_names(self.props)
        &&& unique_keys(self.meta)
        &&& log_ordered(self.log)
    }
}

/// Whether migrated tables can be opened: the shot table has the current
/// shape with its image columns, every other table exists, and the rows keep
/// the rules of an opened store.
pub open spec fn usable(stored: StoredView) -> bool {
    &&& stored.shots matches ShotTableView::Current { has_image_columns, rows }
    &&& has_image_columns
    &&& stored.characters is Some
    &&& stored.scenes is Some
    &&& stored.props is Some
    &&& stored.meta is Some
    &&& stored.chat is Some
    &&& store_of(stored).wf()
}

/// The opened store that usable tables make.
pub open spec fn store_of(stored: StoredView) -> StoreView {
    StoreView {
        shots: stored.shots->Current_rows,
        characters: stored.characters->0,
        scenes: stored.scenes->0,
        props: stored.props->0,
        meta: stored.meta->0,
        log: stored.chat->0,
    }
}

/// The tables that are written to disk for an opened store.
pub open spec fn stored_of(store: StoreView) -> StoredView {
    StoredView {
        shots: ShotTableView::Current { has_image_columns: true, rows: store.shots },
        characters: Some(store.characters),
        scenes: Some(store.scenes),
        props: Some(store.props),
        meta: Some(store.meta),
        chat: Some(store.log),
    }
}

/// The shot list that is stored for a submitted one: each shot at its place
/// in the submitted order, counted from 1.
pub open spec fn renumbered(shots: Seq<ShotView>) -> Seq<ShotView> {
    Seq::new(shots.len(), |i: int| stored_shot(shots[i], i + 1))
}

/// Whether a submitted shot list can be stored: no identifier occurs twice
/// and every place fits the column that holds it.
pub open spec fn replaceable(shots: Seq<ShotView>) -> bool {
    &&& distinct(shot_ids(shots))
    &&& shots.len() <= i64::MAX
}

/// The store after its shot list has been replaced.
pub open spec fn with_shots(store: StoreView, shots: Seq<ShotView>) -> StoreView {
    StoreView { shots: renumbered(shots), ..store }
}

/// The store without any asset.
pub open spec fn without_assets(store: StoreView) -> StoreView {
    StoreView { characters: Seq::empty(), scenes: Seq::empty(), props: Seq::empty(), ..store }
}

/// The store with other characters.
pub open spec fn with_characters(store: StoreView, rows: Seq<AssetView>) -> StoreView {
    StoreView { characters: rows, ..store }
}

/// The store with other scenes.
pub open spec fn with_scenes(store: StoreView, rows: Seq<AssetView>) -> StoreView {
    StoreView { scenes: rows, ..store }
}

/// The store with other props.
pub open spec fn with_props(store: StoreView, rows: Seq<AssetView>) -> StoreView {
    StoreView { props: rows, ..store }
}

/// The store with other metadata.
pub open spec fn with_meta(store: StoreView, meta: Seq<(Seq<char>, Seq<char>)>) -> StoreView {
    StoreView { meta, ..store }
}

/// The store after the time of the last change has been set.
pub open spec fn touched(store: StoreView, now: int) -> StoreView {
    with_meta(store, meta_set(store.meta, modified_key(), decimal_text(now)))
}

/// The identity that the next message gets: one more than the last.
pub open spec fn next_id(log: Seq<MessageView>) -> int {
    if log.len() == 0 {
        1
    } else {
        log.last().id->0 + 1
    }
}

/// The store with one more message at the end of its log.
pub open spec fn with_message(
    store: StoreView,
    role: Seq<char>,
    content: Seq<char>,
    now: int,
) -> StoreView {
    StoreView {
        log: store.log.push(
            MessageView {
                id: Some(next_id(store.log)),
                role,
                content,
                timestamp: Some(now),
            },
        ),
        ..store
    }
}

/// The last `limit` messages of the log, oldest first; the whole log where
/// it is shorter, or where the limit is negative.
pub open spec fn recent(log: Seq<MessageView>, limit: int) -> Seq<MessageView> {
    if limit < 0 || limit >= log.len() {
        log
    } else {
        log.subrange(log.len() - limit, log.len() as int)
    }
}

/// The image of a shot that a path is stored for.
#[derive(Clone, Copy, Debug, PartialEq, Eq, Structural)]
pub enum ImageSlot {
    /// The lead frame.
    First,
    /// The tail frame.
    Last,
}

/// Whether the shot list has a shot of the given identifier.
pub open spec fn has_shot(shots: Seq<ShotView>, id: Seq<char>) -> bool {
    exists|i: int| 0 <= i < shots.len() && (#[trigger] shots[i]).mirror_id == id
}

/// A shot after an image has been generated for it.
pub open spec fn with_image(shot: ShotView, slot: ImageSlot, path: Seq<char>) -> ShotView {
    ShotView {
        image_first_path: match slot {
            ImageSlot::First => Some(path),
            ImageSlot::Last => shot.image_first_path,
        },
        image_last_path: match slot {
            ImageSlot::First => shot.image_last_path,
            ImageSlot::Last => Some(path),
        },
        image_status: Some(status_generated()),
        ..shot
    }
}

/// The shot list after an image has been stored for the shot of the given
/// identifier.
pub open spec fn image_set(
    shots: Seq<ShotView>,
    id: Seq<char>,
    slot: ImageSlot,
    path: Seq<char>,
) -> Seq<ShotView> {
    Seq::new(
        shots.len(),
        |i: int|
            if shots[i].mirror_id == id {
                with_image(shots[i], slot, path)
            } else {
                shots[i]
            },
    )
}

/// The store with another shot list.
pub open spec fn with_shot_rows(store: StoreView, rows: Seq<ShotView>) -> StoreView {
    StoreView { shots: rows, ..store }
}

/// In a stored shot list the place of each shot is its place in the
/// submitted order, counted from 1, whatever number the shot carried; the
/// identifiers are the submitted ones; and listing the shots by place gives
/// the submitted order.
pub proof fn lemma_renumbered(shots: Seq<ShotView>)
    ensures
        renumbered(shots).len() == shots.len(),
        forall|i: int|
            0 <= i < shots.len() ==> (#[trigger] renumbered(shots)[i]).sequence_number == i + 1
                && renumbered(shots)[i].mirror_id == shots[i].mirror_id,
        ordered::<Storyboard>(renumbered(shots)) == renumbered(shots),
{
    lemma_ordered_fixed::<Storyboard>(renumbered(shots));
}

/// Reading back `limit` messages gives the end of the log, in the order of
/// the log: as many messages as the limit allows and the log has.
pub proof fn lemma_recent(log: Seq<MessageView>, limit: int)
    requires
        limit >= 0,
    ensures
        recent(log, limit).len() == if limit < log.len() {
            limit
        } else {
            log.len() as int
        },
        forall|k: int|
            0 <= k < recent(log, limit).len() ==> recent(log, limit)[k] == log[log.len()
                - recent(log, limit).len() + k],
{
}

/// The identity that the next message gets is higher than every identity
/// in the log.
pub proof fn lemma_next_id_is_new(log: Seq<MessageView>)
    requires
        log_ordered(log),
    ensures
        forall|i: int| 0 <= i < log.len() ==> (#[trigger] log[i]).id->0 < next_id(log),
{
    assert forall|i: int| 0 <= i < log.len() implies (#[trigger] log[i]).id->0 < next_id(log) by {
        if i < log.len() - 1 {
            assert(log[i].id->0 < log[log.len() - 1].id->0);
        }
    }
}

/// What is written to disk for a store opens again as that store.
pub proof fn lemma_reopen(store: StoreView)
    requires
        store.wf(),
    ensures
        usable(migrated(stored_of(store))),
        store_of(migrated(stored_of(store))) == store,
{
}

/// Tells whether no identifier occurs twice in a list of shots.
pub fn shot_ids_distinct(shots: &Vec<Storyboard>) -> (unique: bool)
    ensures
        unique == distinct(shot_ids(shot_views(shots@))),
{
    let mut ids: Vec<&String> = Vec::new();
    let mut i: usize = 0;
    while i < shots.len()
        invariant
            i <= shots.len(),
            ids.len() == i,
            forall|j: int| 0 <= j < i ==> ids[j]@ == shots[j].mirror_id@,
        decreases shots.len() - i,
    {
        ids.push(&shots[i].mirror_id);
        i += 1;
    }
    proof {
        assert(text_views(ids@) =~= shot_ids(shot_views(shots@)));
    }
    all_distinct(&ids)
}

/// Tells whether no name occurs twice in a list of assets.
pub fn names_distinct<A: Asset>(table: &Vec<A>) -> (unique: bool)
    ensures
        unique == unique_names(asset_views(table@)),
{
    let mut names: Vec<&String> = Vec::new();
    let mut i: usize = 0;
    while i < table.len()
        invariant
            i <= table.len(),
            names.len() == i,
            forall|j: int| 0 <= j < i ==> names[j]@ == table[j].asset_view().name,
        decreases table.len() - i,
    {
        names.push(table[i].name());
        i += 1;
    }
    let unique = all_distinct(&names);
    proof {
        let texts = text_views(names@);
        let rows = asset_views(table@);
        assert forall|j: int| 0 <= j < rows.len() implies texts[j] == (
        #[trigger] rows[j]).name by {}
        if unique {
            assert forall|a: int, b: int| 0 <= a < b < rows.len() implies (#[trigger] rows[a]).name
                != (#[trigger] rows[b]).name by {
                assert(texts[a] != texts[b]);
            }
        } else {
            let (a, b) = choose|a: int, b: int| 0 <= a < b < texts.len() && texts[a] == texts[b];
            assert(rows[a].name == rows[b].name);
        }
    }
    unique
}

/// Tells whether no key occurs twice in a list of entries.
pub fn keys_distinct(entries: &Vec<MetaEntry>) -> (unique: bool)
    ensures
        unique == unique_keys(entry_views(entries@)),
{
    let mut keys: Vec<&String> = Vec::new();
    let mut i: usize = 0;
    while i < entries.len()
        invariant
            i <= entries.len(),
            keys.len() == i,
            forall|j: int| 0 <= j < i ==> keys[j]@ == entries[j].key@,
        decreases entries.len() - i,
    {
        keys.push(&entries[i].key);
        i += 1;
    }
    let unique = all_distinct(&keys);
    proof {
        let texts = text_views(keys@);
        let rows = entry_views(entries@);
        assert forall|j: int| 0 <= j < rows.len() implies texts[j] == (#[trigger] rows[j]).0 by {}
        if unique {
            assert forall|a: int, b: int| 0 <= a < b < rows.len() implies (#[trigger] rows[a]).0
                != (#[trigger] rows[b]).0 by {
                assert(texts[a] != texts[b]);
            }
        } else {
            let (a, b) = choose|a: int, b: int| 0 <= a < b < texts.len() && texts[a] == texts[b];
            assert(rows[a].0 == rows[b].0);
        }
    }
    unique
}

/// Tells whether a log has an identity and a time for every message and
/// rising identities.
pub fn log_in_order(log: &Vec<ChatMessage>) -> (ordered: bool)
    ensures
        ordered == log_ordered(message_views(log@)),
{
    let ghost views = message_views(log@);
    let mut i: usize = 0;
    while i < log.len()
        invariant
            i <= log.len(),
            views == message_views(log@),
            forall|j: int|
                0 <= j < i ==> (#[trigger] views[j]).id is Some && views[j].timestamp is Some,
            forall|a: int, b: int|
                0 <= a < b < i ==> (#[trigger] views[a]).id->0 < (#[trigger] views[b]).id->0,
        decreases log.len() - i,
    {
        assert(views[i as int] == log[i as int]@);
        match (log[i].id, log[i].timestamp) {
            (Some(id), Some(_)) => {
                if i > 0 {
                    assert(views[i - 1] == log[i - 1]@);
                    match log[i - 1].id {
                        Some(previous) => {
                            if previous >= id {
                                assert(!(views[i - 1].id->0 < views[i as int].id->0));
                                return false;
                            }
                        },
                        None => {
                            return false;
                        },
                    }
                }
            },
            _ => {
                assert(!(views[i as int].id is Some && views[i as int].timestamp is Some));
                return false;
            },
        }
        assert forall|a: int, b: int| 0 <= a < b < i + 1 implies (#[trigger] views[a]).id->0 < (
        #[trigger] views[b]).id->0 by {
            if b == i && a < i - 1 {
                assert(views[a].id->0 < views[i - 1].id->0);
            }
        }
        i += 1;
    }
    true
}

/// The opened store of one project.
///
/// A store is made by [`ProjectDatabase::open`] from the tables found on
/// disk and handed back as tables by [`ProjectDatabase::to_stored`]; in
/// between, every operation keeps the rules of [`StoreView::wf`].
#[derive(Debug)]
pub struct ProjectDatabase {
    shots: Vec<Storyboard>,
    characters: Vec<Character>,
    scenes: Vec<Scene>,
    props: Vec<Prop>,
    meta: Vec<MetaEntry>,
    chat: Vec<ChatMessage>,
}

impl View for ProjectDatabase {
    type V = StoreView;

    closed spec fn view(&self) -> StoreView {
        StoreView {
            shots: shot_views(self.shots@),
            characters: asset_views(self.characters@),
            scenes: asset_views(self.scenes@),
            props: asset_views(self.props@),
            meta: entry_views(self.meta@),
            log: message_views(self.chat@),
        }
    }
}

impl ProjectDatabase {
    /// Whether the store keeps its rules.
    pub open spec fn wf(&self) -> bool {
        self@.wf()
    }

    /// Opens a project from the tables found on disk.  The migrator runs
    /// first, so a missing table is created and an old shot table is
    /// rebuilt; opening fails where the migrated tables are not usable, as
    /// when the shot table could not be rebuilt.
    pub fn open(stored: StoredProject) -> (opened: Result<ProjectDatabase, StoreError>)
        ensures
            match opened {
                Ok(db) => usable(migrated(stored@)) && db@ == store_of(migrated(stored@))
                    && db.wf(),
                Err(e) => e == StoreError::SchemaFailure && !usable(migrated(stored@)),
            },
    {
        let after = migrate(stored);
        let StoredProject { shots, characters, scenes, props, meta, chat } = after;
        match (shots, characters, scenes, props, meta, chat) {
            (
                ShotTable::Current { has_image_columns: true, rows },
                Some(characters),
                Some(scenes),
                Some(props),
                Some(meta),
                Some(chat),
            ) => {
                if shot_ids_distinct(&rows) && names_distinct(&characters) && names_distinct(
                    &scenes,
                ) && names_distinct(&props) && keys_distinct(&meta) && log_in_order(&chat) {
                    Ok(ProjectDatabase { shots: rows, characters, scenes, props, meta, chat })
                } else {
                    Err(StoreError::SchemaFailure)
                }
            },
            _ => Err(StoreError::SchemaFailure),
        }
    }

    /// The shots, in the order in which they are stored.
    pub fn storyboards(&self) -> (shots: &Vec<Storyboard>)
        ensures
            shot_views(shots@) == self@.shots,
    {
        &self.shots
    }

    /// The characters.
    pub fn characters(&self) -> (rows: &Vec<Character>)
        ensures
            asset_views(rows@) == self@.characters,
    {
        &self.characters
    }

    /// The scenes.
    pub fn scenes(&self) -> (rows: &Vec<Scene>)
        ensures
            asset_views(rows@) == self@.scenes,
    {
        &self.scenes
    }

    /// The props.
    pub fn props(&self) -> (rows: &Vec<Prop>)
        ensures
            asset_views(rows@) == self@.props,
    {
        &self.props
    }

    /// The metadata.
    pub fn meta(&self) -> (entries: &Vec<MetaEntry>)
        ensures
            entry_views(entries@) == self@.meta,
    {
        &self.meta
    }

    /// The conversation log, oldest message first.
    pub fn messages(&self) -> (log: &Vec<ChatMessage>)
        ensures
            message_views(log@) == self@.log,
    {
        &self.chat
    }

    /// Replaces the shot list by the submitted one, all or nothing.  Every
    /// shot is stored at its place in the submitted order, counted from 1,
    /// whatever number it carried.  A list in which an identifier occurs
    /// twice is refused and the store stays as it was.
    pub(crate) fn replace_shots(&mut self, shots: Vec<Storyboard>) -> (done: Result<(), StoreError>)
        requires
            old(self).wf(),
        ensures
            final(self).wf(),
            match done {
                Ok(()) => replaceable(shot_views(shots@)) && final(self)@ == with_shots(
                    old(self)@,
                    shot_views(shots@),
                ),
                Err(e) => e == StoreError::ConstraintViolation && !replaceable(
                    shot_views(shots@),
                ) && final(self)@ == old(self)@,
            },
    {
        if !shot_ids_distinct(&shots) {
            return Err(StoreError::ConstraintViolation);
        }
        if shots.len() as u64 > i64::MAX as u64 {
            return Err(StoreError::ConstraintViolation);
        }
        let ghost all = shots@;
        let mut rows: Vec<Storyboard> = Vec::new();
        let mut position: i64 = 0;
        for shot in it: shots
            invariant
                it.seq() == all,
                all.len() <= i64::MAX,
                position == it.index(),
                rows.len() == it.index(),
                forall|j: int| 0 <= j < it.index() ==> rows[j]@ == stored_shot(all[j]@, j + 1),
        {
            position = position + 1;
            rows.push(shot.into_stored(position));
        }
        proof {
            let want = renumbered(shot_views(all));
            assert(shot_views(rows@) =~= want);
            assert(shot_ids(want) =~= shot_ids(shot_views(all)));
        }
        self.shots = rows;
        Ok(())
    }

    /// Removes every character, scene and prop.
    pub(crate) fn clear_assets(&mut self)
        requires
            old(self).wf(),
        ensures
            final(self).wf(),
            final(self)@ == without_assets(old(self)@),
    {
        self.characters = Vec::new();
        self.scenes = Vec::new();
        self.props = Vec::new();
        proof {
            assert(asset_views(self.characters@) =~= Seq::<AssetView>::empty());
            assert(asset_views(self.scenes@) =~= Seq::<AssetView>::empty());
            assert(asset_views(self.props@) =~= Seq::<AssetView>::empty());
        }
    }

    /// Stores one character under a policy.
    pub(crate) fn upsert_character(&mut self, asset: Character, policy: UpsertPolicy)
        requires
            old(self).wf(),
        ensures
            final(self).wf(),
            final(self)@ == with_characters(
                old(self)@,
                upserted(old(self)@.characters, stored_asset(asset@), policy),
            ),
    {
        upsert_asset(&mut self.characters, asset, policy);
    }

    /// Stores one scene under a policy.
    pub(crate) fn upsert_scene(&mut self, asset: Scene, policy: UpsertPolicy)
        requires
            old(self).wf(),
        ensures
            final(self).wf(),
            final(self)@ == with_scenes(
                old(self)@,
                upserted(old(self)@.scenes, stored_asset(asset@), policy),
            ),
    {
        upsert_asset(&mut self.scenes, asset, policy);
    }

    /// Stores one prop under a policy.
    pub(crate) fn upsert_prop(&mut self, asset: Prop, policy: UpsertPolicy)
        requires
            old(self).wf(),
        ensures
            final(self).wf(),
            final(self)@ == with_props(
                old(self)@,
                upserted(old(self)@.props, stored_asset(asset@), policy),
            ),
    {
        upsert_asset(&mut self.props, asset, policy);
    }

    /// Stores a batch of characters, in order, under a policy.
    pub(crate) fn store_characters(&mut self, batch: Vec<Character>, policy: UpsertPolicy)
        requires
            old(self).wf(),
        ensures
            final(self).wf(),
            final(self)@ == with_characters(
                old(self)@,
                merged(old(self)@.characters, asset_views(batch@), policy),
            ),
    {
        merge_assets(&mut self.characters, batch, policy);
    }

    /// Stores a batch of scenes, in order, under a policy.
    pub(crate) fn store_scenes(&mut self, batch: Vec<Scene>, policy: UpsertPolicy)
        requires
            old(self).wf(),
        ensures
            final(self).wf(),
            final(self)@ == with_scenes(
                old(self)@,
                merged(old(self)@.scenes, asset_views(batch@), policy),
            ),
    {
        merge_assets(&mut self.scenes, batch, policy);
    }

    /// Stores a batch of props, in order, under a policy.
    pub(crate) fn store_props(&mut self, batch: Vec<Prop>, policy: UpsertPolicy)
        requires
            old(self).wf(),
        ensures
            final(self).wf(),
            final(self)@ == with_props(
                old(self)@,
                merged(old(self)@.props, asset_views(batch@), policy),
            ),
    {
        merge_assets(&mut self.props, batch, policy);
    }

    /// Sets the time of the last change, in milliseconds.
    pub(crate) fn touch(&mut self, now: i64)
        requires
            old(self).wf(),
        ensures
            final(self).wf(),
            final(self)@ == touched(old(self)@, now as int),
    {
        proof {
            reveal_strlit("modified_at");
        }
        set_entry(&mut self.meta, "modified_at", decimal(now));
    }

    /// The style prompt and the quality prompt of the project; each is
    /// `None` where none has been saved.
    pub fn get_project_style(&self) -> (style: (Option<String>, Option<String>))
        requires
            self.wf(),
        ensures
            opt_text(style.0) == meta_get(self@.meta, style_key()),
            opt_text(style.1) == meta_get(self@.meta, quality_key()),
    {
        let style_prompt = get_entry(&self.meta, "style_prompt");
        let quality_prompt = get_entry(&self.meta, "quality_prompt");
        (style_prompt, quality_prompt)
    }

    /// Saves the style prompt and the quality prompt and sets the time of
    /// the last change; a prompt that is not given stays as it was.
    pub fn save_project_style(
        &mut self,
        style_prompt: Option<String>,
        quality_prompt: Option<String>,
        now: i64,
    )
        requires
            old(self).wf(),
        ensures
            final(self).wf(),
            final(self)@ == touched(
                with_meta(
                    old(self)@,
                    meta_set_opt(
                        meta_set_opt(old(self)@.meta, style_key(), opt_text(style_prompt)),
                        quality_key(),
                        opt_text(quality_prompt),
                    ),
                ),
                now as int,
            ),
    {
        match style_prompt {
            Some(style) => {
                set_entry(&mut self.meta, "style_prompt", style);
            },
            None => {},
        }
        match quality_prompt {
            Some(quality) => {
                set_entry(&mut self.meta, "quality_prompt", quality);
            },
            None => {},
        }
        self.touch(now);
    }

    /// Adds a message to the end of the log.  Its identity is one more than
    /// that of the last message and its time is `now`, which is returned.
    /// Where no identity is left the message is refused and the store stays
    /// as it was.
    pub(crate) fn append_message(
        &mut self,
        role: String,
        content: String,
        now: i64,
    ) -> (added: Result<i64, StoreError>)
        requires
            old(self).wf(),
        ensures
            final(self).wf(),
            match added {
                Ok(timestamp) => timestamp == now && next_id(old(self)@.log) <= i64::MAX
                    && final(self)@ == with_message(old(self)@, role@, content@, now as int),
                Err(e) => e == StoreError::ConstraintViolation && next_id(old(self)@.log)
                    > i64::MAX && final(self)@ == old(self)@,
            },
    {
        let ghost log = message_views(self.chat@);
        let n = self.chat.len();
        let id: i64 = if n == 0 {
            1
        } else {
            assert(log[n - 1] == self.chat[n - 1]@);
            match self.chat[n - 1].id {
                Some(last) => {
                    if last == i64::MAX {
                        return Err(StoreError::ConstraintViolation);
                    }
                    last + 1
                },
                None => {
                    return Err(StoreError::ConstraintViolation);
                },
            }
        };
        let message = ChatMessage { id: Some(id), role, content, timestamp: Some(now) };
        self.chat.push(message);
        proof {
            let after = message_views(self.chat@);
            assert(after =~= log.push(message@));
            assert forall|i: int, j: int| 0 <= i < j < after.len() implies (#[trigger] after[i]).id->0
                < (#[trigger] after[j]).id->0 by {
                if j == n {
                    assert(after[i] == log[i]);
                    if i < n - 1 {
                        assert(log[i].id->0 < log[n - 1].id->0);
                    }
                } else {
                    assert(after[i] == log[i]);
                    assert(after[j] == log[j]);
                }
            }
            assert forall|i: int| 0 <= i < after.len() implies (#[trigger] after[i]).id is Some
                && after[i].timestamp is Some by {
                if i < n {
                    assert(after[i] == log[i]);
                }
            }
        }
        Ok(now)
    }

    /// The last `limit` messages of the log, oldest first; the whole log
    /// where the limit is negative.
    pub(crate) fn recent_messages(&self, limit: i64) -> (messages: Vec<ChatMessage>)
        ensures
            message_views(messages@) == recent(self@.log, limit as int),
    {
        let n = self.chat.len();
        let start: usize = if limit < 0 || limit as u64 >= n as u64 {
            0
        } else {
            n - (limit as usize)
        };
        let mut messages: Vec<ChatMessage> = Vec::new();
        let mut i: usize = start;
        while i < n
            invariant
                start <= i <= n,
                n == self.chat.len(),
                messages.len() == i - start,
                forall|j: int| 0 <= j < i - start ==> messages[j]@ == self.chat[start + j]@,
            decreases n - i,
        {
            messages.push(self.chat[i].duplicate());
            i += 1;
        }
        proof {
            assert(message_views(messages@) =~= recent(message_views(self.chat@), limit as int));
        }
        messages
    }

    /// Stores the path of a generated image for the shot of the given
    /// identifier and marks the shot as generated.  Where there is no such
    /// shot the store stays as it was.
    pub(crate) fn set_shot_image(
        &mut self,
        mirror_id: &str,
        slot: ImageSlot,
        path: String,
    ) -> (done: Result<(), StoreError>)
        requires
            old(self).wf(),
        ensures
            final(self).wf(),
            match done {
                Ok(()) => has_shot(old(self)@.shots, mirror_id@) && final(self)@
                    == with_shot_rows(
                    old(self)@,
                    image_set(old(self)@.shots, mirror_id@, slot, path@),
                ),
                Err(e) => e == StoreError::NotFound && !has_shot(old(self)@.shots, mirror_id@)
                    && final(self)@ == old(self)@,
            },
    {
        let ghost before = shot_views(self.shots@);
        let wanted = String::from_str(mirror_id);
        let mut i: usize = 0;
        while i < self.shots.len()
            invariant
                i <= self.shots.len(),
                wanted@ == mirror_id@,
                before == shot_views(self.shots@),
                *self == *old(self),
                old(self).wf(),
                forall|j: int| 0 <= j < i ==> (#[trigger] before[j]).mirror_id != mirror_id@,
            decreases self.shots.len() - i,
        {
            assert(before[i as int] == self.shots[i as int]@);
            if self.shots[i].mirror_id == wanted {
                proof {
                    reveal_strlit("generated");
                }
                let mut shot = self.shots[i].duplicate();
                match slot {
                    ImageSlot::First => {
                        shot.image_first_path = Some(path);
                    },
                    ImageSlot::Last => {
                        shot.image_last_path = Some(path);
                    },
                }
                shot.image_status = Some(String::from_str("generated"));
                self.shots.set(i, shot);
                proof {
                    let after = shot_views(self.shots@);
                    let want = image_set(before, mirror_id@, slot, path@);
                    let ids = shot_ids(before);
                    assert forall|j: int| 0 <= j < after.len() implies after[j] == want[j] by {
                        if j != i {
                            assert(before[j] == old(self).shots@[j]@);
                            assert(ids[j] == before[j].mirror_id);
                            assert(ids[i as int] == before[i as int].mirror_id);
                            if j < i {
                                assert(ids[j] != ids[i as int]);
                            } else {
                                assert(ids[i as int] != ids[j]);
                            }
                        }
                    }
                    assert(after =~= want);
                    assert(shot_ids(after) =~= ids);
                }
                return Ok(());
            }
            i += 1;
        }
        Err(StoreError::NotFound)
    }

    /// The tables to write to disk for this store.
    pub fn to_stored(&self) -> (stored: StoredProject)
        ensures
            stored@ == stored_of(self@),
    {
        let mut shots: Vec<Storyboard> = Vec::new();
        let mut i: usize = 0;
        while i < self.shots.len()
            invariant
                i <= self.shots.len(),
                shots.len() == i,
                forall|j: int| 0 <= j < i ==> shots[j]@ == self.shots[j]@,
            decreases self.shots.len() - i,
        {
            shots.push(self.shots[i].duplicate());
            i += 1;
        }
        let mut chat: Vec<ChatMessage> = Vec::new();
        let mut k: usize = 0;
        while k < self.chat.len()
            invariant
                k <= self.chat.len(),
                chat.len() == k,
                forall|j: int| 0 <= j < k ==> chat[j]@ == self.chat[j]@,
            decreases self.chat.len() - k,
        {
            chat.push(self.chat[k].duplicate());
            k += 1;
        }
        proof {
            assert(shot_views(shots@) =~= shot_views(self.shots@));
            assert(message_views(chat@) =~= message_views(self.chat@));
        }
        StoredProject {
            shots: ShotTable::Current { has_image_columns: true, rows: shots },
            characters: Some(crate::assets::copy_assets(&self.characters)),
            scenes: Some(crate::assets::copy_assets(&self.scenes)),
            props: Some(crate::assets::copy_assets(&self.props)),
            meta: Some(crate::meta::copy_entries(&self.meta)),
            chat: Some(chat),
        }
    }
}

} // verus!
