//! The operations that a front end calls on an opened project.

use vstd::prelude::*;
use vstd::string::*;
use crate::assets::{
    UpsertPolicy, copy_assets, has_name, lemma_keep_existing_preserves, lemma_merged_names, merged,
    upserted,
};
use crate::db::{
    ImageSlot, ProjectDatabase, StoreView, has_shot, image_set, next_id, recent, renumbered,
    replaceable, touched, with_characters, with_message, with_meta, with_props, with_scenes,
    with_shot_rows,
};
use crate::error::StoreError;
use crate::meta::{
    lemma_meta_set, meta_get, meta_set, meta_set_opt, modified_key, quality_key, style_key,
};
use crate::models::{
    AssetView, Character, ChatMessage, ProjectStyle, Prop, Scene, ShotView, Storyboard,
    asset_views, message_views, opt_text, shot_views, stored_asset,
};
use crate::order::{ordered, sort_ranked, views};
use crate::text::{decimal_text, same_text};

verus! {

/// How much of the project a submitted batch replaces.
#[derive(Clone, Copy, Debug, PartialEq, Eq, Structural)]
pub enum ReplaceMode {
    /// The batch is a new generation: the assets of the project are
    /// dropped before those of the batch are stored.
    Full,
    /// The batch is an edit of the shot list: the assets of the project
    /// stay, and an asset of the batch is stored only under a new name.
    Partial,
}

/// The number of messages that are read back where no limit is given.
pub const DEFAULT_HISTORY_LIMIT: i64 = 20;

/// The policy under which the assets of a batch are stored.
pub open spec fn policy_of(mode: ReplaceMode) -> UpsertPolicy {
    match mode {
        ReplaceMode::Full => UpsertPolicy::Overwrite,
        ReplaceMode::Partial => UpsertPolicy::KeepExisting,
    }
}

/// The assets of the project that a batch leaves in place.
pub open spec fn kept(rows: Seq<AssetView>, mode: ReplaceMode) -> Seq<AssetView> {
    match mode {
        ReplaceMode::Full => Seq::empty(),
        ReplaceMode::Partial => rows,
    }
}

/// The store after a batch has been saved: the shot list is the submitted
/// one, renumbered; each asset table is what the mode leaves of it with the
/// assets of the batch stored under the policy of the mode; the time of the
/// last change is `now`; the log is untouched.
pub open spec fn saved(
    store: StoreView,
    shots: Seq<ShotView>,
    characters: Seq<AssetView>,
    scenes: Seq<AssetView>,
    props: Seq<AssetView>,
    mode: ReplaceMode,
    now: int,
) -> StoreView {
    StoreView {
        shots: renumbered(shots),
        characters: merged(kept(store.characters, mode), characters, policy_of(mode)),
        scenes: merged(kept(store.scenes, mode), scenes, policy_of(mode)),
        props: merged(kept(store.props, mode), props, policy_of(mode)),
        meta: meta_set(store.meta, modified_key(), decimal_text(now)),
        log: store.log,
    }
}

/// After a full replacement nothing is left of the shots and assets that
/// the project had: the shot list and the asset tables are the same
/// whatever the project held before, and every asset name is the name of an
/// asset of the batch.
pub proof fn lemma_full_replace_forgets(
    one: StoreView,
    other: StoreView,
    shots: Seq<ShotView>,
    characters: Seq<AssetView>,
    scenes: Seq<AssetView>,
    props: Seq<AssetView>,
    now: int,
)
    ensures
        ({
            let a = saved(one, shots, characters, scenes, props, ReplaceMode::Full, now);
            let b = saved(other, shots, characters, scenes, props, ReplaceMode::Full, now);
            &&& a.shots == renumbered(shots)
            &&& a.shots.len() == shots.len()
            &&& a.shots == b.shots
            &&& a.characters == b.characters
            &&& a.scenes == b.scenes
            &&& a.props == b.props
            &&& forall|name: Seq<char>| has_name(a.characters, name) ==> has_name(characters, name)
            &&& forall|name: Seq<char>| has_name(a.scenes, name) ==> has_name(scenes, name)
            &&& forall|name: Seq<char>| has_name(a.props, name) ==> has_name(props, name)
        }),
{
    let a = saved(one, shots, characters, scenes, props, ReplaceMode::Full, now);
    let none = Seq::<AssetView>::empty();
    assert forall|name: Seq<char>| has_name(a.characters, name) implies has_name(
        characters,
        name,
    ) by {
        lemma_merged_names(none, characters, UpsertPolicy::Overwrite, name);
    }
    assert forall|name: Seq<char>| has_name(a.scenes, name) implies has_name(scenes, name) by {
        lemma_merged_names(none, scenes, UpsertPolicy::Overwrite, name);
    }
    assert forall|name: Seq<char>| has_name(a.props, name) implies has_name(props, name) by {
        lemma_merged_names(none, props, UpsertPolicy::Overwrite, name);
    }
}

/// A partial replacement leaves every asset that the project had, where it
/// stood and as it was, also where the batch holds an asset of the same
/// name.
pub proof fn lemma_partial_replace_keeps_assets(
    store: StoreView,
    shots: Seq<ShotView>,
    characters: Seq<AssetView>,
    scenes: Seq<AssetView>,
    props: Seq<AssetView>,
    now: int,
)
    ensures
        ({
            let after = saved(store, shots, characters, scenes, props, ReplaceMode::Partial, now);
            &&& after.characters.len() >= store.characters.len()
            &&& after.scenes.len() >= store.scenes.len()
            &&& after.props.len() >= store.props.len()
            &&& forall|i: int|
                0 <= i < store.characters.len() ==> after.characters[i] == store.characters[i]
            &&& forall|i: int| 0 <= i < store.scenes.len() ==> after.scenes[i] == store.scenes[i]
            &&& forall|i: int| 0 <= i < store.props.len() ==> after.props[i] == store.props[i]
        }),
{
    lemma_keep_existing_preserves(store.characters, characters);
    lemma_keep_existing_preserves(store.scenes, scenes);
    lemma_keep_existing_preserves(store.props, props);
}

/// After a batch has been saved, the time of the last change that is read
/// back is the time of the saving.
pub proof fn lemma_saved_refreshes_time(
    store: StoreView,
    shots: Seq<ShotView>,
    characters: Seq<AssetView>,
    scenes: Seq<AssetView>,
    props: Seq<AssetView>,
    mode: ReplaceMode,
    now: int,
)
    requires
        store.wf(),
    ensures
        meta_get(
            saved(store, shots, characters, scenes, props, mode, now).meta,
            modified_key(),
        ) == Some(decimal_text(now)),
{
    lemma_meta_set(store.meta, modified_key(), decimal_text(now));
}

/// Saves a generated batch: replaces the shot list and stores the assets,
/// all or nothing.  The batch is refused, and the project stays as it was,
/// where an identifier occurs twice in the shot list.
pub fn save_generated_data(
    db: &mut ProjectDatabase,
    storyboards: Vec<Storyboard>,
    characters: Vec<Character>,
    scenes: Vec<Scene>,
    props: Vec<Prop>,
    mode: ReplaceMode,
    now: i64,
) -> (done: Result<(), StoreError>)
    requires
        old(db).wf(),
    ensures
        final(db).wf(),
        match done {
            Ok(()) => replaceable(shot_views(storyboards@)) && final(db)@ == saved(
                old(db)@,
                shot_views(storyboards@),
                asset_views(characters@),
                asset_views(scenes@),
                asset_views(props@),
                mode,
                now as int,
            ),
            Err(e) => e == StoreError::ConstraintViolation && !replaceable(
                shot_views(storyboards@),
            ) && final(db)@ == old(db)@,
        },
{
    match db.replace_shots(storyboards) {
        Ok(()) => {},
        Err(e) => {
            return Err(e);
        },
    }
    let policy = match mode {
        ReplaceMode::Full => {
            db.clear_assets();
            UpsertPolicy::Overwrite
        },
        ReplaceMode::Partial => UpsertPolicy::KeepExisting,
    };
    db.store_characters(characters, policy);
    db.store_scenes(scenes, policy);
    db.store_props(props, policy);
    db.touch(now);
    Ok(())
}

/// The shot list in the order of its places.
pub fn get_storyboards(db: &ProjectDatabase) -> (shots: Vec<Storyboard>)
    ensures
        shot_views(shots@) == ordered::<Storyboard>(db@.shots),
{
    let stored = db.storyboards();
    let mut copy: Vec<Storyboard> = Vec::new();
    let mut i: usize = 0;
    while i < stored.len()
        invariant
            i <= stored.len(),
            copy.len() == i,
            forall|j: int| 0 <= j < i ==> copy[j]@ == stored[j]@,
        decreases stored.len() - i,
    {
        copy.push(stored[i].duplicate());
        i += 1;
    }
    proof {
        assert(views(copy@) =~= shot_views(stored@));
    }
    let shots = sort_ranked(copy);
    proof {
        assert(shot_views(shots@) =~= views(shots@));
    }
    shots
}

/// The characters of the project.
pub fn get_characters(db: &ProjectDatabase) -> (rows: Vec<Character>)
    ensures
        asset_views(rows@) == db@.characters,
{
    copy_assets(db.characters())
}

/// The scenes of the project.
pub fn get_scenes(db: &ProjectDatabase) -> (rows: Vec<Scene>)
    ensures
        asset_views(rows@) == db@.scenes,
{
    copy_assets(db.scenes())
}

/// The props of the project.
pub fn get_props(db: &ProjectDatabase) -> (rows: Vec<Prop>)
    ensures
        asset_views(rows@) == db@.props,
{
    copy_assets(db.props())
}

/// Adds a message to the conversation log and returns the time stored
/// with it.
pub fn save_chat_message(
    db: &mut ProjectDatabase,
    role: String,
    content: String,
    now: i64,
) -> (added: Result<i64, StoreError>)
    requires
        old(db).wf(),
    ensures
        final(db).wf(),
        match added {
            Ok(timestamp) => timestamp == now && next_id(old(db)@.log) <= i64::MAX && final(db)@
                == with_message(old(db)@, role@, content@, now as int),
            Err(e) => e == StoreError::ConstraintViolation && next_id(old(db)@.log) > i64::MAX
                && final(db)@ == old(db)@,
        },
{
    db.append_message(role, content, now)
}

/// The limit that is used for an optional one.
pub open spec fn limit_or_default(limit: Option<i64>) -> int {
    match limit {
        Some(n) => n as int,
        None => DEFAULT_HISTORY_LIMIT as int,
    }
}

/// The most recent messages of the conversation, oldest first: at most
/// `limit` of them, or [`DEFAULT_HISTORY_LIMIT`] where no limit is given.
pub fn get_chat_history(db: &ProjectDatabase, limit: Option<i64>) -> (messages: Vec<ChatMessage>)
    ensures
        message_views(messages@) == recent(db@.log, limit_or_default(limit)),
{
    let limit = match limit {
        Some(n) => n,
        None => DEFAULT_HISTORY_LIMIT,
    };
    db.recent_messages(limit)
}

/// The image that a type name stands for.
pub open spec fn slot_of(image_type: Seq<char>) -> Option<ImageSlot> {
    if image_type == "first"@ {
        Some(ImageSlot::First)
    } else if image_type == "last"@ {
        Some(ImageSlot::Last)
    } else {
        None
    }
}

/// Reads the name of an image type: `first` for the lead frame, `last` for
/// the tail frame.
pub fn image_slot(image_type: &str) -> (slot: Option<ImageSlot>)
    ensures
        slot == slot_of(image_type@),
{
    if same_text(image_type, "first") {
        Some(ImageSlot::First)
    } else if same_text(image_type, "last") {
        Some(ImageSlot::Last)
    } else {
        None
    }
}

/// Stores the path of a generated image for a shot, marks the shot as
/// generated and sets the time of the last change.  An unknown image type
/// and an unknown shot are refused, in this order, and the project stays as
/// it was.
pub fn update_storyboard_image(
    db: &mut ProjectDatabase,
    mirror_id: &str,
    image_type: &str,
    image_path: String,
    now: i64,
) -> (done: Result<(), StoreError>)
    requires
        old(db).wf(),
    ensures
        final(db).wf(),
        match slot_of(image_type@) {
            None => done == Err::<(), StoreError>(StoreError::ValidationFailure)
                && final(db)@ == old(db)@,
            Some(slot) => if has_shot(old(db)@.shots, mirror_id@) {
                done is Ok && final(db)@ == touched(
                    with_shot_rows(
                        old(db)@,
                        image_set(old(db)@.shots, mirror_id@, slot, image_path@),
                    ),
                    now as int,
                )
            } else {
                done == Err::<(), StoreError>(StoreError::NotFound) && final(db)@ == old(db)@
            },
        },
{
    let slot = match image_slot(image_type) {
        Some(slot) => slot,
        None => {
            return Err(StoreError::ValidationFailure);
        },
    };
    match db.set_shot_image(mirror_id, slot, image_path) {
        Ok(()) => {},
        Err(e) => {
            return Err(e);
        },
    }
    db.touch(now);
    Ok(())
}

/// The view of the style of a project.
pub open spec fn style_view(style: ProjectStyle) -> (Option<Seq<char>>, Option<Seq<char>>) {
    (opt_text(style.style_prompt), opt_text(style.quality_prompt))
}

/// The style prompt and the quality prompt of the project.
pub fn get_project_style(db: &ProjectDatabase) -> (style: ProjectStyle)
    requires
        db.wf(),
    ensures
        style_view(style) == (
            meta_get(db@.meta, style_key()),
            meta_get(db@.meta, quality_key()),
        ),
{
    let (style_prompt, quality_prompt) = db.get_project_style();
    ProjectStyle { style_prompt, quality_prompt }
}

/// Saves the style prompt and the quality prompt of the project and sets
/// the time of the last change; a prompt that is not given stays as it was.
pub fn save_project_style(
    db: &mut ProjectDatabase,
    style_prompt: Option<String>,
    quality_prompt: Option<String>,
    now: i64,
)
    requires
        old(db).wf(),
    ensures
        final(db).wf(),
        final(db)@ == touched(
            with_meta(
                old(db)@,
                meta_set_opt(
                    meta_set_opt(old(db)@.meta, style_key(), opt_text(style_prompt)),
                    quality_key(),
                    opt_text(quality_prompt),
                ),
            ),
            now as int,
        ),
{
    db.save_project_style(style_prompt, quality_prompt, now);
}

/// The three kinds of asset.
#[derive(Clone, Copy, Debug, PartialEq, Eq, Structural)]
pub enum AssetKind {
    Character,
    Scene,
    Prop,
}

/// An asset of any kind.
#[derive(Debug, Clone, PartialEq, Eq)]
pub enum AnyAsset {
    Character(Character),
    Scene(Scene),
    Prop(Prop),
}

impl AnyAsset {
    /// The kind of the asset.
    pub open spec fn kind(self) -> AssetKind {
        match self {
            AnyAsset::Character(_) => AssetKind::Character,
            AnyAsset::Scene(_) => AssetKind::Scene,
            AnyAsset::Prop(_) => AssetKind::Prop,
        }
    }

    /// The asset as plain values.
    pub open spec fn row(self) -> AssetView {
        match self {
            AnyAsset::Character(a) => a@,
            AnyAsset::Scene(a) => a@,
            AnyAsset::Prop(a) => a@,
        }
    }
}

/// The store after a row has been written to the table of its kind.
pub open spec fn with_upsert(
    store: StoreView,
    kind: AssetKind,
    row: AssetView,
    policy: UpsertPolicy,
) -> StoreView {
    match kind {
        AssetKind::Character => with_characters(store, upserted(store.characters, row, policy)),
        AssetKind::Scene => with_scenes(store, upserted(store.scenes, row, policy)),
        AssetKind::Prop => with_props(store, upserted(store.props, row, policy)),
    }
}

/// Stores one asset in the table of its kind and sets the time of the last
/// change.  Under `Overwrite` the asset replaces the one of its name; under
/// `KeepExisting` it is dropped where its name is taken.  Names are
/// compared as they are written.
pub fn upsert(db: &mut ProjectDatabase, asset: AnyAsset, policy: UpsertPolicy, now: i64)
    requires
        old(db).wf(),
    ensures
        final(db).wf(),
        final(db)@ == touched(
            with_upsert(old(db)@, asset.kind(), stored_asset(asset.row()), policy),
            now as int,
        ),
{
    match asset {
        AnyAsset::Character(a) => {
            db.upsert_character(a, policy);
        },
        AnyAsset::Scene(a) => {
            db.upsert_scene(a, policy);
        },
        AnyAsset::Prop(a) => {
            db.upsert_prop(a, policy);
        },
    }
    db.touch(now);
}

} // verus!
