//! The records a project holds, and the mathematical view of each.

use vstd::prelude::*;
use vstd::string::*;
use crate::order::Ranked;

verus! {

/// The view of an optional text.
pub open spec fn opt_text(o: Option<String>) -> Option<Seq<char>> {
    match o {
        Some(s) => Some(s@),
        None => None,
    }
}

/// An optional text as it is stored: a missing one becomes the empty text.
pub open spec fn or_empty(o: Option<Seq<char>>) -> Option<Seq<char>> {
    match o {
        Some(s) => Some(s),
        None => Some(Seq::empty()),
    }
}

/// A copy of an optional text.
pub fn clone_text(o: &Option<String>) -> (copy: Option<String>)
    ensures
        copy == *o,
{
    match o {
        Some(s) => Some(s.clone()),
        None => None,
    }
}

/// An optional text with a missing one replaced by the empty text.
pub fn text_or_empty(o: Option<String>) -> (stored: Option<String>)
    ensures
        opt_text(stored) == or_empty(opt_text(o)),
{
    match o {
        Some(s) => Some(s),
        None => Some(String::new()),
    }
}

/// One shot of the shot list.
///
/// `mirror_id` is the identity of the shot and never changes; the caller
/// chooses it.  `sequence_number` is only the place of the shot in the list
/// and is rewritten whenever the list is replaced.  `duration` is the length
/// of the shot in seconds, kept as decimal text: the store does no arithmetic
/// on it.
#[derive(Debug, Clone, PartialEq, Eq)]
pub struct Storyboard {
    pub sequence_number: i64,
    pub mirror_id: String,
    pub shot_type: Option<String>,
    pub shot_size: Option<String>,
    pub duration: Option<String>,
    pub dialogue: Option<String>,
    pub description: Option<String>,
    pub notes: Option<String>,
    pub image_prompt_zh: Option<String>,
    pub image_prompt_en: Option<String>,
    pub image_prompt_tail_zh: Option<String>,
    pub image_prompt_tail_en: Option<String>,
    pub video_prompt_zh: Option<String>,
    pub video_prompt_en: Option<String>,
    pub image_first_path: Option<String>,
    pub image_last_path: Option<String>,
    pub image_status: Option<String>,
}

/// The view of a shot.
pub struct ShotView {
    pub sequence_number: int,
    pub mirror_id: Seq<char>,
    pub shot_type: Option<Seq<char>>,
    pub shot_size: Option<Seq<char>>,
    pub duration: Option<Seq<char>>,
    pub dialogue: Option<Seq<char>>,
    pub description: Option<Seq<char>>,
    pub notes: Option<Seq<char>>,
    pub image_prompt_zh: Option<Seq<char>>,
    pub image_prompt_en: Option<Seq<char>>,
    pub image_prompt_tail_zh: Option<Seq<char>>,
    pub image_prompt_tail_en: Option<Seq<char>>,
    pub video_prompt_zh: Option<Seq<char>>,
    pub video_prompt_en: Option<Seq<char>>,
    pub image_first_path: Option<Seq<char>>,
    pub image_last_path: Option<Seq<char>>,
    pub image_status: Option<Seq<char>>,
}

impl View for Storyboard {
    type V = ShotView;

    open spec fn view(&self) -> ShotView {
        ShotView {
            sequence_number: self.sequence_number as int,
            mirror_id: self.mirror_id@,
            shot_type: opt_text(self.shot_type),
            shot_size: opt_text(self.shot_size),
            duration: opt_text(self.duration),
            dialogue: opt_text(self.dialogue),
            description: opt_text(self.description),
            notes: opt_text(self.notes),
            image_prompt_zh: opt_text(self.image_prompt_zh),
            image_prompt_en: opt_text(self.image_prompt_en),
            image_prompt_tail_zh: opt_text(self.image_prompt_tail_zh),
            image_prompt_tail_en: opt_text(self.image_prompt_tail_en),
            video_prompt_zh: opt_text(self.video_prompt_zh),
            video_prompt_en: opt_text(self.video_prompt_en),
            image_first_path: opt_text(self.image_first_path),
            image_last_path: opt_text(self.image_last_path),
            image_status: opt_text(self.image_status),
        }
    }
}

/// The status text of a shot without a generated image.
pub open spec fn status_empty() -> Seq<char> {
    "empty"@
}

/// The status text of a shot with a generated image.
pub open spec fn status_generated() -> Seq<char> {
    "generated"@
}

/// The row that is stored for a submitted shot at the given place of the
/// list: the place replaces whatever number the shot carried, missing texts
/// become empty, and the shot starts without images.
pub open spec fn stored_shot(s: ShotView, position: int) -> ShotView {
    ShotView {
        sequence_number: position,
        mirror_id: s.mirror_id,
        shot_type: or_empty(s.shot_type),
        shot_size: or_empty(s.shot_size),
        duration: or_empty(s.duration),
        dialogue: or_empty(s.dialogue),
        description: or_empty(s.description),
        notes: or_empty(s.notes),
        image_prompt_zh: or_empty(s.image_prompt_zh),
        image_prompt_en: or_empty(s.image_prompt_en),
        image_prompt_tail_zh: or_empty(s.image_prompt_tail_zh),
        image_prompt_tail_en: or_empty(s.image_prompt_tail_en),
        video_prompt_zh: or_empty(s.video_prompt_zh),
        video_prompt_en: or_empty(s.video_prompt_en),
        image_first_path: None,
        image_last_path: None,
        image_status: Some(status_empty()),
    }
}

/// The views of a list of shots.
pub open spec fn shot_views(shots: Seq<Storyboard>) -> Seq<ShotView> {
    Seq::new(shots.len(), |i: int| shots[i]@)
}

/// The identifiers of a list of shots, in order.
pub open spec fn shot_ids(shots: Seq<ShotView>) -> Seq<Seq<char>> {
    Seq::new(shots.len(), |i: int| shots[i].mirror_id)
}

impl Storyboard {
    /// A copy of this shot.
    pub fn duplicate(&self) -> (copy: Storyboard)
        ensures
            copy == *self,
    {
        Storyboard {
            sequence_number: self.sequence_number,
            mirror_id: self.mirror_id.clone(),
            shot_type: clone_text(&self.shot_type),
            shot_size: clone_text(&self.shot_size),
            duration: clone_text(&self.duration),
            dialogue: clone_text(&self.dialogue),
            description: clone_text(&self.description),
            notes: clone_text(&self.notes),
            image_prompt_zh: clone_text(&self.image_prompt_zh),
            image_prompt_en: clone_text(&self.image_prompt_en),
            image_prompt_tail_zh: clone_text(&self.image_prompt_tail_zh),
            image_prompt_tail_en: clone_text(&self.image_prompt_tail_en),
            video_prompt_zh: clone_text(&self.video_prompt_zh),
            video_prompt_en: clone_text(&self.video_prompt_en),
            image_first_path: clone_text(&self.image_first_path),
            image_last_path: clone_text(&self.image_last_path),
            image_status: clone_text(&self.image_status),
        }
    }

    /// The row stored for this shot at the given place of the list.
    pub fn into_stored(self, position: i64) -> (row: Storyboard)
        ensures
            row@ == stored_shot(self@, position as int),
    {
        proof {
            reveal_strlit("empty");
        }
        Storyboard {
            sequence_number: position,
            mirror_id: self.mirror_id,
            shot_type: text_or_empty(self.shot_type),
            shot_size: text_or_empty(self.shot_size),
            duration: text_or_empty(self.duration),
            dialogue: text_or_empty(self.dialogue),
            description: text_or_empty(self.description),
            notes: text_or_empty(self.notes),
            image_prompt_zh: text_or_empty(self.image_prompt_zh),
            image_prompt_en: text_or_empty(self.image_prompt_en),
            image_prompt_tail_zh: text_or_empty(self.image_prompt_tail_zh),
            image_prompt_tail_en: text_or_empty(self.image_prompt_tail_en),
            video_prompt_zh: text_or_empty(self.video_prompt_zh),
            video_prompt_en: text_or_empty(self.video_prompt_en),
            image_first_path: None,
            image_last_path: None,
            image_status: Some(String::from_str("empty")),
        }
    }
}

/// Shots are listed by their place in the list.
impl Ranked for Storyboard {
    open spec fn rank_of(v: ShotView) -> int {
        v.sequence_number
    }

    fn ranks_before(&self, other: &Storyboard) -> (before: bool) {
        self.sequence_number < other.sequence_number
    }
}

/// The view shared by the three kinds of asset.
pub struct AssetView {
    pub name: Seq<char>,
    pub description: Option<Seq<char>>,
    pub image_prompt_zh: Option<Seq<char>>,
    pub image_prompt_en: Option<Seq<char>>,
    pub notes: Option<Seq<char>>,
}

/// The row that is stored for a submitted asset: missing texts become empty.
pub open spec fn stored_asset(a: AssetView) -> AssetView {
    AssetView {
        name: a.name,
        description: or_empty(a.description),
        image_prompt_zh: or_empty(a.image_prompt_zh),
        image_prompt_en: or_empty(a.image_prompt_en),
        notes: or_empty(a.notes),
    }
}

/// What the store needs of an asset, whatever its kind.  The name is the
/// identity of the asset within its kind; it is compared as it is written.
pub trait Asset: Sized {
    /// The asset as plain values.
    spec fn asset_view(&self) -> AssetView;

    /// The name of the asset.
    fn name(&self) -> (name: &String)
        ensures
            name@ == self.asset_view().name,
    ;

    /// A copy of the asset.
    fn duplicate(&self) -> (copy: Self)
        ensures
            copy.asset_view() == self.asset_view(),
    ;

    /// The row stored for the asset.
    fn into_stored(self) -> (row: Self)
        ensures
            row.asset_view() == stored_asset(self.asset_view()),
    ;
}

/// The views of a list of assets.
pub open spec fn asset_views<A: Asset>(assets: Seq<A>) -> Seq<AssetView> {
    Seq::new(assets.len(), |i: int| assets[i].asset_view())
}

/// A character of the story.
#[derive(Debug, Clone, PartialEq, Eq)]
pub struct Character {
    pub name: String,
    pub description: Option<String>,
    pub image_prompt_zh: Option<String>,
    pub image_prompt_en: Option<String>,
    pub notes: Option<String>,
}

/// A place where shots are set.
#[derive(Debug, Clone, PartialEq, Eq)]
pub struct Scene {
    pub name: String,
    pub description: Option<String>,
    pub image_prompt_zh: Option<String>,
    pub image_prompt_en: Option<String>,
    pub notes: Option<String>,
}

/// An object that shots show.
#[derive(Debug, Clone, PartialEq, Eq)]
pub struct Prop {
    pub name: String,
    pub description: Option<String>,
    pub image_prompt_zh: Option<String>,
    pub image_prompt_en: Option<String>,
    pub notes: Option<String>,
}

impl View for Character {
    type V = AssetView;

    open spec fn view(&self) -> AssetView {
        AssetView {
            name: self.name@,
            description: opt_text(self.description),
            image_prompt_zh: opt_text(self.image_prompt_zh),
            image_prompt_en: opt_text(self.image_prompt_en),
            notes: opt_text(self.notes),
        }
    }
}

impl Asset for Character {
    open spec fn asset_view(&self) -> AssetView {
        self@
    }

    fn name(&self) -> (name: &String) {
        &self.name
    }

    fn duplicate(&self) -> (copy: Character) {
        Character {
            name: self.name.clone(),
            description: clone_text(&self.description),
            image_prompt_zh: clone_text(&self.image_prompt_zh),
            image_prompt_en: clone_text(&self.image_prompt_en),
            notes: clone_text(&self.notes),
        }
    }

    fn into_stored(self) -> (row: Character) {
        Character {
            name: self.name,
            description: text_or_empty(self.description),
            image_prompt_zh: text_or_empty(self.image_prompt_zh),
            image_prompt_en: text_or_empty(self.image_prompt_en),
            notes: text_or_empty(self.notes),
        }
    }
}

impl View for Scene {
    type V = AssetView;

    open spec fn view(&self) -> AssetView {
        AssetView {
            name: self.name@,
            description: opt_text(self.description),
            image_prompt_zh: opt_text(self.image_prompt_zh),
            image_prompt_en: opt_text(self.image_prompt_en),
            notes: opt_text(self.notes),
        }
    }
}

impl Asset for Scene {
    open spec fn asset_view(&self) -> AssetView {
        self@
    }

    fn name(&self) -> (name: &String) {
        &self.name
    }

    fn duplicate(&self) -> (copy: Scene) {
        Scene {
            name: self.name.clone(),
            description: clone_text(&self.description),
            image_prompt_zh: clone_text(&self.image_prompt_zh),
            image_prompt_en: clone_text(&self.image_prompt_en),
            notes: clone_text(&self.notes),
        }
    }

    fn into_stored(self) -> (row: Scene) {
        Scene {
            name: self.name,
            description: text_or_empty(self.description),
            image_prompt_zh: text_or_empty(self.image_prompt_zh),
            image_prompt_en: text_or_empty(self.image_prompt_en),
            notes: text_or_empty(self.notes),
        }
    }
}

impl View for Prop {
    type V = AssetView;

    open spec fn view(&self) -> AssetView {
        AssetView {
            name: self.name@,
            description: opt_text(self.description),
            image_prompt_zh: opt_text(self.image_prompt_zh),
            image_prompt_en: opt_text(self.image_prompt_en),
            notes: opt_text(self.notes),
        }
    }
}

impl Asset for Prop {
    open spec fn asset_view(&self) -> AssetView {
        self@
    }

    fn name(&self) -> (name: &String) {
        &self.name
    }

    fn duplicate(&self) -> (copy: Prop) {
        Prop {
            name: self.name.clone(),
            description: clone_text(&self.description),
            image_prompt_zh: clone_text(&self.image_prompt_zh),
            image_prompt_en: clone_text(&self.image_prompt_en),
            notes: clone_text(&self.notes),
        }
    }

    fn into_stored(self) -> (row: Prop) {
        Prop {
            name: self.name,
            description: text_or_empty(self.description),
            image_prompt_zh: text_or_empty(self.image_prompt_zh),
            image_prompt_en: text_or_empty(self.image_prompt_en),
            notes: text_or_empty(self.notes),
        }
    }
}

/// One message of the conversation log.  A message that has been stored
/// carries its identity and the time, in milliseconds, at which it was added.
#[derive(Debug, Clone, PartialEq, Eq)]
pub struct ChatMessage {
    pub id: Option<i64>,
    pub role: String,
    pub content: String,
    pub timestamp: Option<i64>,
}

/// The view of a message.
pub struct MessageView {
    pub id: Option<int>,
    pub role: Seq<char>,
    pub content: Seq<char>,
    pub timestamp: Option<int>,
}

/// The view of an optional number.
pub open spec fn opt_int(o: Option<i64>) -> Option<int> {
    match o {
        Some(n) => Some(n as int),
        None => None,
    }
}

impl View for ChatMessage {
    type V = MessageView;

    open spec fn view(&self) -> MessageView {
        MessageView {
            id: opt_int(self.id),
            role: self.role@,
            content: self.content@,
            timestamp: opt_int(self.timestamp),
        }
    }
}

/// The views of a list of messages.
pub open spec fn message_views(messages: Seq<ChatMessage>) -> Seq<MessageView> {
    Seq::new(messages.len(), |i: int| messages[i]@)
}

impl ChatMessage {
    /// A copy of this message.
    pub fn duplicate(&self) -> (copy: ChatMessage)
        ensures
            copy == *self,
    {
        ChatMessage {
            id: self.id,
            role: self.role.clone(),
            content: self.content.clone(),
            timestamp: self.timestamp,
        }
    }
}

/// One endpoint of a generation service.
#[derive(Debug, Clone, PartialEq, Eq)]
pub struct ApiConfig {
    pub id: String,
    pub name: String,
    /// What the endpoint generates: `text`, `image` or `video`.
    pub api_type: String,
    pub base_url: String,
    pub api_key: String,
    pub model: Option<String>,
    pub is_default: bool,
}

/// What the list of projects shows of one project.
#[derive(Debug, Clone, PartialEq, Eq)]
pub struct ProjectMeta {
    pub name: String,
    pub path: String,
    pub created_at: i64,
    pub modified_at: i64,
    pub storyboard_count: i64,
    pub chat_count: i64,
}

/// The view of a project summary.
pub struct ProjectMetaView {
    pub name: Seq<char>,
    pub path: Seq<char>,
    pub created_at: int,
    pub modified_at: int,
    pub storyboard_count: int,
    pub chat_count: int,
}

impl View for ProjectMeta {
    type V = ProjectMetaView;

    open spec fn view(&self) -> ProjectMetaView {
        ProjectMetaView {
            name: self.name@,
            path: self.path@,
            created_at: self.created_at as int,
            modified_at: self.modified_at as int,
            storyboard_count: self.storyboard_count as int,
            chat_count: self.chat_count as int,
        }
    }
}

/// Projects are listed with the one changed last first.
impl Ranked for ProjectMeta {
    open spec fn rank_of(v: ProjectMetaView) -> int {
        -v.modified_at
    }

    fn ranks_before(&self, other: &ProjectMeta) -> (before: bool) {
        other.modified_at < self.modified_at
    }
}

/// A batch as the generation service returns it: the whole shot list and
/// the assets it mentions.
#[derive(Debug, Clone, PartialEq, Eq)]
pub struct AiGenerateResponse {
    pub storyboards: Vec<Storyboard>,
    pub characters: Vec<Character>,
    pub scenes: Vec<Scene>,
    pub props: Vec<Prop>,
}

/// A visual style in both prompt languages.
#[derive(Debug, Clone, PartialEq, Eq)]
pub struct StylePrompts {
    pub style_zh: String,
    pub style_en: String,
}

/// The style and quality prompts of a project.
#[derive(Debug, Clone, PartialEq, Eq)]
pub struct ProjectStyle {
    pub style_prompt: Option<String>,
    pub quality_prompt: Option<String>,
}

/// The configuration shared by all projects of a user.
#[derive(Debug, Clone, PartialEq, Eq)]
pub struct GlobalConfig {
    pub apis: Vec<ApiConfig>,
    pub base_folder: Option<String>,
    pub last_project: Option<String>,
}

impl Default for GlobalConfig {
    /// The configuration of a user who has configured nothing yet.
    fn default() -> (config: GlobalConfig)
        ensures
            config.apis@.len() == 0,
            config.base_folder is None,
            config.last_project is None,
    {
        GlobalConfig { apis: Vec::new(), base_folder: None, last_project: None }
    }
}

} // verus!
