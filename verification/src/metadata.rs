//! Suno song metadata: how it is read from JSON, how two sources are
//! merged, and which audio and cover sources are chosen from it.
use crate::json::{
    first_string, first_string_for_keys, get, json_array, json_get, json_str, keys_view,
    str_member, str_member_or, first_present, JsonValue,
};
use crate::text::{clone_opt, is_blank, is_blank_str, opt_view, str_eq, to_string};
use vstd::prelude::*;

verus! {

#[derive(Debug, Clone, PartialEq, Eq)]
pub struct SunoMetadata {
    pub id: Option<String>,
    pub title: Option<String>,
    pub display_name: Option<String>,
    pub created_at: Option<String>,
    pub audio_url: Option<String>,
    pub video_url: Option<String>,
    pub image_url: Option<String>,
    pub image_large_url: Option<String>,
    pub prompt: Option<String>,
    pub lyrics: Option<String>,
    pub style: Option<String>,
}

/// The texts of a `SunoMetadata`.
pub struct MetadataView {
    pub id: Option<Seq<char>>,
    pub title: Option<Seq<char>>,
    pub display_name: Option<Seq<char>>,
    pub created_at: Option<Seq<char>>,
    pub audio_url: Option<Seq<char>>,
    pub video_url: Option<Seq<char>>,
    pub image_url: Option<Seq<char>>,
    pub image_large_url: Option<Seq<char>>,
    pub prompt: Option<Seq<char>>,
    pub lyrics: Option<Seq<char>>,
    pub style: Option<Seq<char>>,
}

impl View for SunoMetadata {
    type V = MetadataView;

    open spec fn view(&self) -> MetadataView {
        MetadataView {
            id: opt_view(self.id),
            title: opt_view(self.title),
            display_name: opt_view(self.display_name),
            created_at: opt_view(self.created_at),
            audio_url: opt_view(self.audio_url),
            video_url: opt_view(self.video_url),
            image_url: opt_view(self.image_url),
            image_large_url: opt_view(self.image_large_url),
            prompt: opt_view(self.prompt),
            lyrics: opt_view(self.lyrics),
            style: opt_view(self.style),
        }
    }
}

pub open spec fn empty_view() -> MetadataView {
    MetadataView {
        id: None,
        title: None,
        display_name: None,
        created_at: None,
        audio_url: None,
        video_url: None,
        image_url: None,
        image_large_url: None,
        prompt: None,
        lyrics: None,
        style: None,
    }
}

impl Default for SunoMetadata {
    fn default() -> (res: Self)
        ensures
            res@ == empty_view(),
    {
        SunoMetadata {
            id: None,
            title: None,
            display_name: None,
            created_at: None,
            audio_url: None,
            video_url: None,
            image_url: None,
            image_large_url: None,
            prompt: None,
            lyrics: None,
            style: None,
        }
    }
}

impl SunoMetadata {
    /// A copy with the same texts.
    pub fn duplicate(&self) -> (res: SunoMetadata)
        ensures
            res@ == self@,
    {
        SunoMetadata {
            id: clone_opt(&self.id),
            title: clone_opt(&self.title),
            display_name: clone_opt(&self.display_name),
            created_at: clone_opt(&self.created_at),
            audio_url: clone_opt(&self.audio_url),
            video_url: clone_opt(&self.video_url),
            image_url: clone_opt(&self.image_url),
            image_large_url: clone_opt(&self.image_large_url),
            prompt: clone_opt(&self.prompt),
            lyrics: clone_opt(&self.lyrics),
            style: clone_opt(&self.style),
        }
    }
}

/// `Option::or`.
pub open spec fn or_else<A>(a: Option<A>, b: Option<A>) -> Option<A> {
    match a {
        Some(x) => Some(x),
        None => b,
    }
}

/// Every field of `p`, or of `s` where `p` has none.
pub open spec fn merge_views(p: MetadataView, s: MetadataView) -> MetadataView {
    MetadataView {
        id: or_else(p.id, s.id),
        title: or_else(p.title, s.title),
        display_name: or_else(p.display_name, s.display_name),
        created_at: or_else(p.created_at, s.created_at),
        audio_url: or_else(p.audio_url, s.audio_url),
        video_url: or_else(p.video_url, s.video_url),
        image_url: or_else(p.image_url, s.image_url),
        image_large_url: or_else(p.image_large_url, s.image_large_url),
        prompt: or_else(p.prompt, s.prompt),
        lyrics: or_else(p.lyrics, s.lyrics),
        style: or_else(p.style, s.style),
    }
}

/// Some field other than the id is present.
pub open spec fn view_has_any(m: MetadataView) -> bool {
    ||| m.title is Some
    ||| m.display_name is Some
    ||| m.created_at is Some
    ||| m.audio_url is Some
    ||| m.video_url is Some
    ||| m.image_url is Some
    ||| m.image_large_url is Some
    ||| m.prompt is Some
    ||| m.lyrics is Some
    ||| m.style is Some
}

/// Page metadata has priority when it is merged with feed metadata: a
/// field the page has is kept as it is, and only a field the page lacks
/// is taken from the feed.
pub proof fn law_page_metadata_has_priority(page: MetadataView, feed: MetadataView)
    ensures
        ({
            let m = merge_views(page, feed);
            &&& page.id is Some ==> m.id == page.id
            &&& page.title is Some ==> m.title == page.title
            &&& page.display_name is Some ==> m.display_name == page.display_name
            &&& page.created_at is Some ==> m.created_at == page.created_at
            &&& page.audio_url is Some ==> m.audio_url == page.audio_url
            &&& page.video_url is Some ==> m.video_url == page.video_url
            &&& page.image_url is Some ==> m.image_url == page.image_url
            &&& page.image_large_url is Some ==> m.image_large_url == page.image_large_url
            &&& page.prompt is Some ==> m.prompt == page.prompt
            &&& page.lyrics is Some ==> m.lyrics == page.lyrics
            &&& page.style is Some ==> m.style == page.style
            &&& page.id is None ==> m.id == feed.id
            &&& page.title is None ==> m.title == feed.title
            &&& page.display_name is None ==> m.display_name == feed.display_name
            &&& page.created_at is None ==> m.created_at == feed.created_at
            &&& page.audio_url is None ==> m.audio_url == feed.audio_url
            &&& page.video_url is None ==> m.video_url == feed.video_url
            &&& page.image_url is None ==> m.image_url == feed.image_url
            &&& page.image_large_url is None ==> m.image_large_url == feed.image_large_url
            &&& page.prompt is None ==> m.prompt == feed.prompt
            &&& page.lyrics is None ==> m.lyrics == feed.lyrics
            &&& page.style is None ==> m.style == feed.style
        }),
{
}

/// Merging with empty metadata, on either side, changes nothing.
pub proof fn law_merge_with_empty(m: MetadataView)
    ensures
        merge_views(m, empty_view()) == m,
        merge_views(empty_view(), m) == m,
{
    assert(merge_views(m, empty_view()) =~= m);
    assert(merge_views(empty_view(), m) =~= m);
}

/// Merging metadata with itself changes nothing.
pub proof fn law_merge_idempotent(m: MetadataView)
    ensures
        merge_views(m, m) == m,
{
}

/// Merging sources one after another does not depend on how the merges
/// are grouped.
pub proof fn law_merge_associative(a: MetadataView, b: MetadataView, c: MetadataView)
    ensures
        merge_views(merge_views(a, b), c) == merge_views(a, merge_views(b, c)),
{
}

/// A merge holds some field exactly when one of its sources does.
pub proof fn law_merge_has_any(p: MetadataView, s: MetadataView)
    ensures
        view_has_any(merge_views(p, s)) == (view_has_any(p) || view_has_any(s)),
{
}

fn or_opt(a: Option<String>, b: Option<String>) -> (res: Option<String>)
    ensures
        opt_view(res) == or_else(opt_view(a), opt_view(b)),
{
    match a {
        Some(x) => Some(x),
        None => b,
    }
}

/// Merges two sources: each field comes from `primary` where it has one,
/// and from `secondary` otherwise.
pub fn merge_metadata(primary: SunoMetadata, secondary: Option<SunoMetadata>) -> (res: SunoMetadata)
    ensures
        match secondary {
            None => res@ == primary@,
            Some(s) => res@ == merge_views(primary@, s@),
        },
{
    let secondary = match secondary {
        Some(s) => s,
        None => {
            return primary;
        },
    };
    SunoMetadata {
        id: or_opt(primary.id, secondary.id),
        title: or_opt(primary.title, secondary.title),
        display_name: or_opt(primary.display_name, secondary.display_name),
        created_at: or_opt(primary.created_at, secondary.created_at),
        audio_url: or_opt(primary.audio_url, secondary.audio_url),
        video_url: or_opt(primary.video_url, secondary.video_url),
        image_url: or_opt(primary.image_url, secondary.image_url),
        image_large_url: or_opt(primary.image_large_url, secondary.image_large_url),
        prompt: or_opt(primary.prompt, secondary.prompt),
        lyrics: or_opt(primary.lyrics, secondary.lyrics),
        style: or_opt(primary.style, secondary.style),
    }
}

/// Whether any field other than the id is present.
pub fn has_any_metadata(metadata: &SunoMetadata) -> (res: bool)
    ensures
        res == view_has_any(metadata@),
{
    metadata.title.is_some() || metadata.display_name.is_some() || metadata.created_at.is_some()
        || metadata.audio_url.is_some() || metadata.video_url.is_some()
        || metadata.image_url.is_some() || metadata.image_large_url.is_some()
        || metadata.prompt.is_some() || metadata.lyrics.is_some() || metadata.style.is_some()
}

/// A string member, or the member under an alternative name when the
/// first is absent.
pub open spec fn member_or(v: JsonValue, key: Seq<char>, alt: Seq<char>) -> Option<Seq<char>> {
    json_str(first_present(json_get(v, key), json_get(v, alt)))
}

/// The metadata of one clip object of the feed API.
pub open spec fn feed_clip_view(v: JsonValue) -> MetadataView {
    MetadataView {
        id: json_str(json_get(v, "id"@)),
        title: json_str(json_get(v, "title"@)),
        display_name: member_or(v, "display_name"@, "displayName"@),
        created_at: member_or(v, "created_at"@, "createdAt"@),
        audio_url: member_or(v, "audio_url"@, "audioUrl"@),
        video_url: member_or(v, "video_url"@, "videoUrl"@),
        image_url: member_or(v, "image_url"@, "imageUrl"@),
        image_large_url: member_or(v, "image_large_url"@, "imageLargeUrl"@),
        prompt: json_str(json_get(v, "prompt"@)),
        lyrics: json_str(json_get(v, "lyrics"@)),
        style: json_str(
            first_present(
                first_present(json_get(v, "style"@), json_get(v, "style_prompt"@)),
                json_get(v, "stylePrompt"@),
            ),
        ),
    }
}

/// Reads the metadata of one clip object of the feed API.
pub fn metadata_from_value(value: &JsonValue) -> (res: SunoMetadata)
    ensures
        res@ == feed_clip_view(*value),
{
    let style = match get(value, "style") {
        Some(x) => crate::json::as_str(Some(x)),
        None => str_member_or(value, "style_prompt", "stylePrompt"),
    };
    SunoMetadata {
        id: str_member(value, "id"),
        title: str_member(value, "title"),
        display_name: str_member_or(value, "display_name", "displayName"),
        created_at: str_member_or(value, "created_at", "createdAt"),
        audio_url: str_member_or(value, "audio_url", "audioUrl"),
        video_url: str_member_or(value, "video_url", "videoUrl"),
        image_url: str_member_or(value, "image_url", "imageUrl"),
        image_large_url: str_member_or(value, "image_large_url", "imageLargeUrl"),
        prompt: str_member(value, "prompt"),
        lyrics: str_member(value, "lyrics"),
        style,
    }
}

/// The names under which embedded page data may hold each field.
pub open spec fn title_keys() -> Seq<Seq<char>> {
    seq!["title"@, "name"@]
}

pub open spec fn display_name_keys() -> Seq<Seq<char>> {
    seq!["display_name"@, "displayName"@, "artist_name"@]
}

pub open spec fn created_at_keys() -> Seq<Seq<char>> {
    seq!["created_at"@, "createdAt"@, "dateCreated"@]
}

pub open spec fn audio_url_keys() -> Seq<Seq<char>> {
    seq!["audio_url"@, "audioUrl"@, "audio"@, "contentUrl"@]
}

pub open spec fn video_url_keys() -> Seq<Seq<char>> {
    seq!["video_url"@, "videoUrl"@, "video"@]
}

pub open spec fn image_url_keys() -> Seq<Seq<char>> {
    seq!["image_url"@, "imageUrl"@, "thumbnailUrl"@, "image"@]
}

pub open spec fn image_large_url_keys() -> Seq<Seq<char>> {
    seq!["image_large_url"@, "imageLargeUrl"@]
}

pub open spec fn prompt_keys() -> Seq<Seq<char>> {
    seq!["prompt"@, "gpt_description_prompt"@, "description"@, "style_prompt"@]
}

pub open spec fn lyrics_keys() -> Seq<Seq<char>> {
    seq!["lyrics"@, "lyric"@]
}

pub open spec fn style_keys() -> Seq<Seq<char>> {
    seq!["style"@, "style_prompt"@, "stylePrompt"@]
}

/// The metadata found anywhere in a JSON document embedded in the song's
/// page, attributed to `song_id`.
pub open spec fn embedded_view(v: JsonValue, song_id: Seq<char>) -> MetadataView {
    MetadataView {
        id: Some(song_id),
        title: first_string(v, title_keys()),
        display_name: first_string(v, display_name_keys()),
        created_at: first_string(v, created_at_keys()),
        audio_url: first_string(v, audio_url_keys()),
        video_url: first_string(v, video_url_keys()),
        image_url: first_string(v, image_url_keys()),
        image_large_url: first_string(v, image_large_url_keys()),
        prompt: first_string(v, prompt_keys()),
        lyrics: first_string(v, lyrics_keys()),
        style: first_string(v, style_keys()),
    }
}

/// Reads the metadata from a JSON document embedded in the song's page.
pub fn metadata_from_embedded_json(value: &JsonValue, song_id: &str) -> (res: SunoMetadata)
    ensures
        res@ == embedded_view(*value, song_id@),
{
    let k1: [&str; 2] = ["title", "name"];
    let k2: [&str; 3] = ["display_name", "displayName", "artist_name"];
    let k3: [&str; 3] = ["created_at", "createdAt", "dateCreated"];
    let k4: [&str; 4] = ["audio_url", "audioUrl", "audio", "contentUrl"];
    let k5: [&str; 3] = ["video_url", "videoUrl", "video"];
    let k6: [&str; 4] = ["image_url", "imageUrl", "thumbnailUrl", "image"];
    let k7: [&str; 2] = ["image_large_url", "imageLargeUrl"];
    let k8: [&str; 4] = ["prompt", "gpt_description_prompt", "description", "style_prompt"];
    let k9: [&str; 2] = ["lyrics", "lyric"];
    let k10: [&str; 3] = ["style", "style_prompt", "stylePrompt"];
    assert(keys_view(k1@) =~= title_keys());
    assert(keys_view(k2@) =~= display_name_keys());
    assert(keys_view(k3@) =~= created_at_keys());
    assert(keys_view(k4@) =~= audio_url_keys());
    assert(keys_view(k5@) =~= video_url_keys());
    assert(keys_view(k6@) =~= image_url_keys());
    assert(keys_view(k7@) =~= image_large_url_keys());
    assert(keys_view(k8@) =~= prompt_keys());
    assert(keys_view(k9@) =~= lyrics_keys());
    assert(keys_view(k10@) =~= style_keys());
    SunoMetadata {
        id: Some(to_string(song_id)),
        title: first_string_for_keys(value, k1.as_slice()),
        display_name: first_string_for_keys(value, k2.as_slice()),
        created_at: first_string_for_keys(value, k3.as_slice()),
        audio_url: first_string_for_keys(value, k4.as_slice()),
        video_url: first_string_for_keys(value, k5.as_slice()),
        image_url: first_string_for_keys(value, k6.as_slice()),
        image_large_url: first_string_for_keys(value, k7.as_slice()),
        prompt: first_string_for_keys(value, k8.as_slice()),
        lyrics: first_string_for_keys(value, k9.as_slice()),
        style: first_string_for_keys(value, k10.as_slice()),
    }
}

/// The clip objects of a feed response: the response itself when it is an
/// array, else the first of its `clips`, `data`, `items` members that is an
/// array, else none.
pub open spec fn feed_items(v: JsonValue) -> Seq<JsonValue> {
    match v {
        JsonValue::Array(items) => items@,
        _ => match json_array(json_get(v, "clips"@)) {
            Some(items) => items,
            None => match json_array(json_get(v, "data"@)) {
                Some(items) => items,
                None => match json_array(json_get(v, "items"@)) {
                    Some(items) => items,
                    None => Seq::empty(),
                },
            },
        },
    }
}

/// The metadata of every clip of a feed response.
pub open spec fn feed_clip_views(v: JsonValue) -> Seq<MetadataView> {
    feed_items(v).map_values(|c: JsonValue| feed_clip_view(c))
}

pub open spec fn metadata_views(ms: Seq<SunoMetadata>) -> Seq<MetadataView> {
    ms.map_values(|m: SunoMetadata| m@)
}

fn metadata_of_items(items: &Vec<JsonValue>) -> (res: Vec<SunoMetadata>)
    ensures
        metadata_views(res@) == items@.map_values(|c: JsonValue| feed_clip_view(c)),
{
    let mut out: Vec<SunoMetadata> = Vec::new();
    let mut i: usize = 0;
    while i < items.len()
        invariant
            i <= items.len(),
            metadata_views(out@) == items@.take(i as int).map_values(
                |c: JsonValue| feed_clip_view(c),
            ),
        decreases items.len() - i,
    {
        let m = metadata_from_value(&items[i]);
        let ghost before = out@;
        out.push(m);
        assert(out@ == before.push(m));
        assert(metadata_views(out@) =~= metadata_views(before).push(feed_clip_view(items@[i as int])));
        assert(items@.take(i + 1) =~= items@.take(i as int).push(items@[i as int]));
        i = i + 1;
        assert(metadata_views(out@) =~= items@.take(i as int).map_values(
            |c: JsonValue| feed_clip_view(c),
        ));
    }
    assert(items@.take(items.len() as int) =~= items@);
    out
}

fn array_member<'a>(v: &'a JsonValue, key: &str) -> (res: Option<&'a Vec<JsonValue>>)
    ensures
        match res {
            Some(items) => json_array(json_get(*v, key@)) == Some(items@),
            None => json_array(json_get(*v, key@)) is None,
        },
{
    match get(v, key) {
        Some(JsonValue::Array(items)) => Some(items),
        _ => None,
    }
}

/// The clips of one page of the feed API.
pub fn clips_from_feed_value(value: &JsonValue) -> (res: Vec<SunoMetadata>)
    ensures
        metadata_views(res@) == feed_clip_views(*value),
{
    match value {
        JsonValue::Array(items) => {
            return metadata_of_items(items);
        },
        _ => {},
    }
    match array_member(value, "clips") {
        Some(items) => {
            return metadata_of_items(items);
        },
        None => {},
    }
    match array_member(value, "data") {
        Some(items) => {
            return metadata_of_items(items);
        },
        None => {},
    }
    match array_member(value, "items") {
        Some(items) => {
            return metadata_of_items(items);
        },
        None => {},
    }
    let out: Vec<SunoMetadata> = Vec::new();
    assert(metadata_views(out@) =~= feed_clip_views(*value));
    out
}

/// The position of the first clip whose id is `id`.
pub open spec fn first_with_id(clips: Seq<MetadataView>, id: Seq<char>, from: nat) -> Option<nat>
    decreases clips.len() - from,
{
    if from >= clips.len() {
        None
    } else if clips[from as int].id == Some(id) {
        Some(from)
    } else {
        first_with_id(clips, id, from + 1)
    }
}

/// The index that `first_with_id` gives lies in range and names a clip
/// with that id.
pub proof fn lemma_first_with_id(clips: Seq<MetadataView>, id: Seq<char>, from: nat)
    ensures
        first_with_id(clips, id, from) matches Some(i) ==> from <= i < clips.len()
            && clips[i as int].id == Some(id),
    decreases clips.len() - from,
{
    if from < clips.len() && clips[from as int].id != Some(id) {
        lemma_first_with_id(clips, id, from + 1);
    }
}

/// A copy of the first clip whose id is `id`.
pub fn find_matching_clip(clips: &[SunoMetadata], id: &str) -> (res: Option<SunoMetadata>)
    ensures
        match first_with_id(metadata_views(clips@), id@, 0) {
            Some(i) => res matches Some(m) && m@ == clips@[i as int]@,
            None => res is None,
        },
{
    let mut i: usize = 0;
    while i < clips.len()
        invariant
            i <= clips.len(),
            first_with_id(metadata_views(clips@), id@, 0) == first_with_id(
                metadata_views(clips@),
                id@,
                i as nat,
            ),
        decreases clips.len() - i,
    {
        assert(metadata_views(clips@)[i as int] == clips@[i as int]@);
        let matched = match &clips[i].id {
            Some(x) => str_eq(x.as_str(), id),
            None => false,
        };
        if matched {
            return Some(clips[i].duplicate());
        }
        i = i + 1;
    }
    None
}

/// The audio to download: the metadata's audio URL when it is present and
/// not blank, else `fallback`.
pub open spec fn audio_source(metadata: Option<MetadataView>, fallback: Seq<char>) -> Seq<char> {
    match metadata {
        Some(m) => match m.audio_url {
            Some(u) => if !is_blank(u) {
                u
            } else {
                fallback
            },
            None => fallback,
        },
        None => fallback,
    }
}

pub open spec fn opt_meta_view(m: Option<&SunoMetadata>) -> Option<MetadataView> {
    match m {
        Some(x) => Some(x@),
        None => None,
    }
}

pub fn select_audio_source(metadata: Option<&SunoMetadata>, fallback: &str) -> (res: String)
    ensures
        res@ == audio_source(opt_meta_view(metadata), fallback@),
{
    match metadata {
        Some(m) => match &m.audio_url {
            Some(u) => if !is_blank_str(u.as_str()) {
                return u.clone();
            },
            None => {},
        },
        None => {},
    }
    to_string(fallback)
}

/// The cover to use: the frontend's image when it is given and not blank,
/// else the metadata's large image (or, without one, its image) when that is
/// not blank, else `fallback`.
pub open spec fn cover_source(
    frontend: Option<Seq<char>>,
    metadata: Option<MetadataView>,
    fallback: Seq<char>,
) -> Seq<char> {
    if frontend is Some && !is_blank(frontend->0) {
        frontend->0
    } else {
        match metadata {
            Some(m) => match or_else(m.image_large_url, m.image_url) {
                Some(u) => if !is_blank(u) {
                    u
                } else {
                    fallback
                },
                None => fallback,
            },
            None => fallback,
        }
    }
}

/// A cover the frontend hands over, when it is not blank, always wins; after
/// it, the large image of the metadata comes before its ordinary image.
pub proof fn law_frontend_cover_first(
    frontend: Option<Seq<char>>,
    metadata: Option<MetadataView>,
    fallback: Seq<char>,
)
    ensures
        frontend is Some && !is_blank(frontend->0) ==> cover_source(frontend, metadata, fallback)
            == frontend->0,
        (frontend is None || is_blank(frontend->0)) && metadata is Some
            && metadata->0.image_large_url is Some && !is_blank(
            metadata->0.image_large_url->0,
        ) ==> cover_source(frontend, metadata, fallback) == metadata->0.image_large_url->0,
        (frontend is None || is_blank(frontend->0)) && metadata is None ==> cover_source(
            frontend,
            metadata,
            fallback,
        ) == fallback,
        (frontend is None || is_blank(frontend->0)) && metadata is Some
            && metadata->0.image_large_url is None && metadata->0.image_url is Some && !is_blank(
            metadata->0.image_url->0,
        ) ==> cover_source(frontend, metadata, fallback) == metadata->0.image_url->0,
        (frontend is None || is_blank(frontend->0)) && metadata is Some
            && metadata->0.image_large_url is Some && is_blank(metadata->0.image_large_url->0)
            ==> cover_source(frontend, metadata, fallback) == fallback,
        (frontend is None || is_blank(frontend->0)) && metadata is Some
            && metadata->0.image_large_url is None && metadata->0.image_url is None
            ==> cover_source(frontend, metadata, fallback) == fallback,
{
}

pub open spec fn opt_str_view(s: Option<&str>) -> Option<Seq<char>> {
    match s {
        Some(x) => Some(x@),
        None => None,
    }
}

pub fn select_cover_source(
    frontend_data: Option<&str>,
    metadata: Option<&SunoMetadata>,
    fallback: &str,
) -> (res: String)
    ensures
        res@ == cover_source(opt_str_view(frontend_data), opt_meta_view(metadata), fallback@),
{
    match frontend_data {
        Some(f) => if !is_blank_str(f) {
            return to_string(f);
        },
        None => {},
    }
    match metadata {
        Some(m) => {
            let chosen = match &m.image_large_url {
                Some(u) => Some(u),
                None => m.image_url.as_ref(),
            };
            match chosen {
                Some(u) => if !is_blank_str(u.as_str()) {
                    return u.clone();
                },
                None => {},
            }
        },
        None => {},
    }
    to_string(fallback)
}

} // verus!
