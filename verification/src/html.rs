//! Metadata read from the HTML of a Suno song page: the JSON embedded in
//! its scripts, and as a fallback its `<meta>` tags and `<title>`.
use crate::json::{json_parse, parse_json};
use crate::metadata::{
    embedded_view, has_any_metadata, merge_metadata, merge_views, metadata_from_embedded_json,
    or_else, view_has_any, MetadataView, SunoMetadata,
};
use crate::text::{
    append_str, chars_of, copy_range, find, find_chars, is_blank, is_blank_chars,
    lemma_find_from, occurs_at, replace, replace_chars, rfind_char, rfind_char_before, string_from_chars,
    to_string, trim, trim_chars,
};
use vstd::prelude::*;

verus! {

// ---------------------------------------------------------------------
// Entities
// ---------------------------------------------------------------------

/// The few entities the page data uses, decoded in a fixed order:
/// `&quot;`, `&#34;`, `&amp;`, `&lt;`, `&gt;`.
pub open spec fn html_unescape_spec(s: Seq<char>) -> Seq<char> {
    replace(
        replace(
            replace(replace(replace(s, "&quot;"@, "\""@), "&#34;"@, "\""@), "&amp;"@, "&"@),
            "&lt;"@,
            "<"@,
        ),
        "&gt;"@,
        ">"@,
    )
}

/// Text without an `&` holds no entity and is left as it is.
pub proof fn law_unescape_plain_text(s: Seq<char>)
    requires
        forall|i: int| 0 <= i < s.len() ==> s[i] != '&',
    ensures
        html_unescape_spec(s) == s,
{
    reveal_strlit("&quot;");
    reveal_strlit("&#34;");
    reveal_strlit("&amp;");
    reveal_strlit("&lt;");
    reveal_strlit("&gt;");
    crate::text::lemma_replace_absent(s, "&quot;"@, "\""@);
    crate::text::lemma_replace_absent(s, "&#34;"@, "\""@);
    crate::text::lemma_replace_absent(s, "&amp;"@, "&"@);
    crate::text::lemma_replace_absent(s, "&lt;"@, "<"@);
    crate::text::lemma_replace_absent(s, "&gt;"@, ">"@);
}

fn replace_lit(s: &[char], from: &str, to: &str) -> (res: Vec<char>)
    requires
        from@.len() > 0,
    ensures
        res@ == replace(s@, from@, to@),
{
    let f = chars_of(from);
    let t = chars_of(to);
    replace_chars(s, f.as_slice(), t.as_slice())
}

pub fn html_unescape(value: &[char]) -> (res: Vec<char>)
    ensures
        res@ == html_unescape_spec(value@),
{
    proof {
        reveal_strlit("&quot;");
        reveal_strlit("&#34;");
        reveal_strlit("&amp;");
        reveal_strlit("&lt;");
        reveal_strlit("&gt;");
    }
    let a = replace_lit(value, "&quot;", "\"");
    let b = replace_lit(a.as_slice(), "&#34;", "\"");
    let c = replace_lit(b.as_slice(), "&amp;", "&");
    let d = replace_lit(c.as_slice(), "&lt;", "<");
    replace_lit(d.as_slice(), "&gt;", ">")
}

// ---------------------------------------------------------------------
// Scripts
// ---------------------------------------------------------------------

/// The contents of the `<script ...>...</script>` elements in `rest`, in
/// order, each with its entities decoded.
pub open spec fn scripts(rest: Seq<char>) -> Seq<Seq<char>>
    decreases rest.len(),
{
    match find(rest, "<script"@) {
        None => seq![],
        Some(start) => if 0 <= start <= rest.len() {
            let r = rest.skip(start);
            match find(r, seq!['>']) {
                None => seq![],
                Some(open_end) => if 0 <= open_end < r.len() {
                    let after = r.skip(open_end + 1);
                    match find(after, "</script>"@) {
                        None => seq![],
                        Some(close) => if 0 <= close && close + "</script>"@.len() <= after.len() {
                            seq![html_unescape_spec(after.take(close))] + scripts(
                                after.skip(close + "</script>"@.len()),
                            )
                        } else {
                            seq![]
                        },
                    }
                } else {
                    seq![]
                },
            }
        } else {
            seq![]
        },
    }
}

/// The decoded contents of the page's scripts.
pub fn script_contents(html: &[char]) -> (res: Vec<Vec<char>>)
    ensures
        crate::text::views_of(res@) == scripts(html@),
{
    let open_tag = chars_of("<script");
    let close_tag = chars_of("</script>");
    let gt = vec!['>'];
    assert(gt@ =~= seq!['>']);
    let mut contents: Vec<Vec<char>> = Vec::new();
    let mut rest = copy_range(html, 0, html.len());
    assert(rest@ =~= html@);
    loop
        invariant
            open_tag@ == "<script"@,
            close_tag@ == "</script>"@,
            gt@ == seq!['>'],
            scripts(html@) == crate::text::views_of(contents@) + scripts(rest@),
        decreases rest@.len(),
    {
        let ghost before = rest@;
        let start = match find_chars(rest.as_slice(), open_tag.as_slice()) {
            Some(s) => s,
            None => {
                assert(crate::text::views_of(contents@) + seq![] =~= crate::text::views_of(contents@));
                return contents;
            },
        };
        proof {
            lemma_find_from(rest@, open_tag@, 0);
        }
        let r = copy_range(rest.as_slice(), start, rest.len());
        assert(r@ =~= rest@.skip(start as int));
        let open_end = match find_chars(r.as_slice(), gt.as_slice()) {
            Some(o) => o,
            None => {
                assert(crate::text::views_of(contents@) + seq![] =~= crate::text::views_of(contents@));
                return contents;
            },
        };
        proof {
            lemma_find_from(r@, gt@, 0);
        }
        let after = copy_range(r.as_slice(), open_end + 1, r.len());
        assert(after@ =~= r@.skip(open_end + 1));
        let close = match find_chars(after.as_slice(), close_tag.as_slice()) {
            Some(c) => c,
            None => {
                assert(crate::text::views_of(contents@) + seq![] =~= crate::text::views_of(contents@));
                return contents;
            },
        };
        proof {
            lemma_find_from(after@, close_tag@, 0);
        }
        let body = copy_range(after.as_slice(), 0, close);
        assert(body@ =~= after@.take(close as int));
        let decoded = html_unescape(body.as_slice());
        let ghost dv = decoded@;
        let next = copy_range(after.as_slice(), close + close_tag.len(), after.len());
        assert(next@ =~= after@.skip(close + close_tag@.len()));
        contents.push(decoded);
        assert(crate::text::views_of(contents@) =~= crate::text::views_of(contents@.drop_last()).push(dv));
        assert(scripts(html@) == crate::text::views_of(contents@) + scripts(next@));
        rest = next;
    }
}

// ---------------------------------------------------------------------
// Attributes, meta tags and the title
// ---------------------------------------------------------------------

/// The quoted value of `attr=` in a tag: the text between the quote that
/// follows the first `attr=` and the next same quote.
pub open spec fn attr_value(tag: Seq<char>, attr: Seq<char>) -> Option<Seq<char>> {
    let marker = attr.push('=');
    match find(tag, marker) {
        None => None,
        Some(p) => {
            let start = p + marker.len();
            if start >= tag.len() || start < 0 {
                None
            } else {
                let q = tag[start];
                if q != '"' && q != '\'' {
                    None
                } else {
                    let vs = start + 1;
                    match find(tag.skip(vs), seq![q]) {
                        None => None,
                        Some(e) => Some(tag.subrange(vs, vs + e)),
                    }
                }
            }
        },
    }
}

pub fn extract_attr(tag: &[char], attr: &str) -> (res: Option<Vec<char>>)
    ensures
        crate::text::opt_vec_view(res) == attr_value(tag@, attr@),
{
    let mut marker = chars_of(attr);
    marker.push('=');
    let p = match find_chars(tag, marker.as_slice()) {
        Some(p) => p,
        None => {
            return None;
        },
    };
    proof {
        lemma_find_from(tag@, marker@, 0);
        assert(occurs_at(tag@, marker@, p as int));
        assert(tag@.len() == tag.len());
    }
    let start = p + marker.len();
    if start >= tag.len() {
        return None;
    }
    let q = tag[start];
    if q != '"' && q != '\'' {
        return None;
    }
    let vs = start + 1;
    let tail = copy_range(tag, vs, tag.len());
    assert(tail@ =~= tag@.skip(vs as int));
    let qv = vec![q];
    assert(qv@ =~= seq![q]);
    match find_chars(tail.as_slice(), qv.as_slice()) {
        Some(e) => {
            proof {
                lemma_find_from(tail@, qv@, 0);
            }
            let v = copy_range(tag, vs, vs + e);
            Some(v)
        },
        None => None,
    }
}

/// The four spellings of a meta tag's name that are looked for, in order.
pub open spec fn meta_markers(name: Seq<char>) -> Seq<Seq<char>> {
    seq![
        "property=\""@ + name + "\""@,
        "name=\""@ + name + "\""@,
        "property='"@ + name + "'"@,
        "name='"@ + name + "'"@,
    ]
}

/// The tag around position `ms`: from the last `<` before it (or `ms`) to
/// the first `>` after it (or the end).
pub open spec fn tag_around(html: Seq<char>, ms: int) -> Seq<char> {
    let ts = match rfind_char(html.take(ms), '<') {
        Some(i) => i,
        None => ms,
    };
    let te = match find(html.skip(ms), seq!['>']) {
        Some(o) => ms + o,
        None => html.len() as int,
    };
    html.subrange(ts, te)
}

/// The first non-blank `content` of a tag found by one of `markers`,
/// trimmed and decoded.
pub open spec fn meta_from(html: Seq<char>, markers: Seq<Seq<char>>) -> Option<Seq<char>>
    decreases markers.len(),
{
    if markers.len() == 0 {
        None
    } else {
        match find(html, markers[0]) {
            None => meta_from(html, markers.drop_first()),
            Some(ms) => match attr_value(tag_around(html, ms), "content"@) {
                Some(c) => if !is_blank(c) {
                    Some(html_unescape_spec(trim(c)))
                } else {
                    meta_from(html, markers.drop_first())
                },
                None => meta_from(html, markers.drop_first()),
            },
        }
    }
}

pub open spec fn meta_content(html: Seq<char>, name: Seq<char>) -> Option<Seq<char>> {
    meta_from(html, meta_markers(name))
}

fn marker_for(prefix: &str, name: &str, suffix: &str) -> (res: Vec<char>)
    ensures
        res@ == prefix@ + name@ + suffix@,
{
    let mut m = chars_of(prefix);
    append_str(&mut m, name);
    append_str(&mut m, suffix);
    m
}

fn tag_at(html: &[char], ms: usize) -> (res: Vec<char>)
    requires
        ms <= html.len(),
    ensures
        res@ == tag_around(html@, ms as int),
{
    let ts = match rfind_char_before(html, '<', ms) {
        Some(i) => i,
        None => ms,
    };
    proof {
        lemma_rfind_char_bound(html@.take(ms as int), '<');
    }
    let tail = copy_range(html, ms, html.len());
    assert(tail@ =~= html@.skip(ms as int));
    let gt = vec!['>'];
    assert(gt@ =~= seq!['>']);
    let te = match find_chars(tail.as_slice(), gt.as_slice()) {
        Some(o) => {
            proof {
                lemma_find_from(tail@, gt@, 0);
            }
            ms + o
        },
        None => html.len(),
    };
    copy_range(html, ts, te)
}

proof fn lemma_rfind_char_bound(s: Seq<char>, c: char)
    ensures
        rfind_char(s, c) matches Some(i) ==> 0 <= i < s.len(),
    decreases s.len(),
{
    if s.len() > 0 && s.last() != c {
        lemma_rfind_char_bound(s.drop_last(), c);
    }
}

/// The content of the meta tag named `name`.
pub fn extract_meta_content(html: &[char], name: &str) -> (res: Option<Vec<char>>)
    ensures
        crate::text::opt_vec_view(res) == meta_content(html@, name@),
{
    let markers: [Vec<char>; 4] = [
        marker_for("property=\"", name, "\""),
        marker_for("name=\"", name, "\""),
        marker_for("property='", name, "'"),
        marker_for("name='", name, "'"),
    ];
    let ghost ms = Seq::new(4, |i: int| markers@[i]@);
    assert(ms =~= meta_markers(name@));
    let mut k: usize = 0;
    assert(ms.skip(0) =~= ms);
    while k < 4
        invariant
            k <= 4,
            ms == Seq::new(4, |i: int| markers@[i]@),
            meta_content(html@, name@) == meta_from(html@, ms.skip(k as int)),
        decreases 4 - k,
    {
        assert(ms.skip(k as int).drop_first() =~= ms.skip(k + 1));
        assert(ms.skip(k as int)[0] == markers@[k as int]@);
        match find_chars(html, markers[k].as_slice()) {
            Some(pos) => {
                proof {
                    lemma_find_from(html@, markers@[k as int]@, 0);
                }
                let tag = tag_at(html, pos);
                match extract_attr(tag.as_slice(), "content") {
                    Some(c) => {
                        if !is_blank_chars(c.as_slice()) {
                            let t = trim_chars(c.as_slice());
                            return Some(html_unescape(t.as_slice()));
                        }
                    },
                    None => {},
                }
            },
            None => {},
        }
        k = k + 1;
    }
    None
}

/// The text of the first `<title>` element, trimmed and decoded.
pub open spec fn title_of(html: Seq<char>) -> Option<Seq<char>> {
    match find(html, "<title>"@) {
        None => None,
        Some(p) => {
            let start = p + "<title>"@.len();
            match find(html.skip(start), "</title>"@) {
                None => None,
                Some(e) => Some(html_unescape_spec(trim(html.subrange(start, start + e)))),
            }
        },
    }
}

pub fn extract_title(html: &[char]) -> (res: Option<Vec<char>>)
    ensures
        crate::text::opt_vec_view(res) == title_of(html@),
{
    let open_tag = chars_of("<title>");
    let close_tag = chars_of("</title>");
    let p = match find_chars(html, open_tag.as_slice()) {
        Some(p) => p,
        None => {
            return None;
        },
    };
    proof {
        lemma_find_from(html@, open_tag@, 0);
        assert(occurs_at(html@, open_tag@, p as int));
        assert(html@.len() == html.len());
    }
    let start = p + open_tag.len();
    let tail = copy_range(html, start, html.len());
    assert(tail@ =~= html@.skip(start as int));
    match find_chars(tail.as_slice(), close_tag.as_slice()) {
        Some(e) => {
            proof {
                lemma_find_from(tail@, close_tag@, 0);
            }
            let inner = copy_range(html, start, start + e);
            let t = trim_chars(inner.as_slice());
            Some(html_unescape(t.as_slice()))
        },
        None => None,
    }
}

// ---------------------------------------------------------------------
// Page metadata
// ---------------------------------------------------------------------

/// Script text that may be a JSON document: it starts with `{` or `[`.
pub open spec fn json_looking(t: Seq<char>) -> bool {
    t.len() > 0 && (t[0] == '{' || t[0] == '[')
}

/// Merges, in page order, the metadata of every script that parses as JSON
/// into `acc`; what was found first wins.
pub open spec fn fold_scripts(ss: Seq<Seq<char>>, song_id: Seq<char>, acc: MetadataView) -> MetadataView
    decreases ss.len(),
{
    if ss.len() == 0 {
        acc
    } else {
        let t = trim(ss[0]);
        let next = if json_looking(t) {
            match json_parse(t) {
                Ok(v) => merge_views(acc, embedded_view(v, song_id)),
                Err(_) => acc,
            }
        } else {
            acc
        };
        fold_scripts(ss.drop_first(), song_id, next)
    }
}

pub open spec fn with_id(song_id: Seq<char>) -> MetadataView {
    MetadataView {
        id: Some(song_id),
        title: None,
        display_name: None,
        created_at: None,
        audio_url: None,
        video_url: None,
        image_url: None,
        image_large_url: None,
        prompt: None,
        lyrics: None,
        style: None,
    }
}

/// Fills the title, image, audio and prompt from the page's meta tags (and
/// its `<title>`), where they are present.
pub open spec fn fill_from_tags(m: MetadataView, html: Seq<char>) -> MetadataView {
    MetadataView {
        title: or_else(or_else(meta_content(html, "og:title"@), title_of(html)), m.title),
        image_url: or_else(meta_content(html, "og:image"@), m.image_url),
        audio_url: or_else(meta_content(html, "og:audio"@), m.audio_url),
        prompt: or_else(meta_content(html, "description"@), m.prompt),
        ..m
    }
}

/// The metadata a song page holds: from its embedded JSON, or, when that
/// yields nothing, from its meta tags; `None` when neither yields anything.
pub open spec fn page_metadata(html: Seq<char>, song_id: Seq<char>) -> Option<MetadataView> {
    let m0 = fold_scripts(scripts(html), song_id, with_id(song_id));
    let m1 = if !view_has_any(m0) {
        fill_from_tags(m0, html)
    } else {
        m0
    };
    if view_has_any(m1) {
        Some(m1)
    } else {
        None
    }
}

proof fn lemma_fold_keeps_id(ss: Seq<Seq<char>>, song_id: Seq<char>, acc: MetadataView)
    requires
        acc.id is Some,
    ensures
        fold_scripts(ss, song_id, acc).id == acc.id,
    decreases ss.len(),
{
    if ss.len() > 0 {
        let t = trim(ss[0]);
        let next = if json_looking(t) {
            match json_parse(t) {
                Ok(v) => merge_views(acc, embedded_view(v, song_id)),
                Err(_) => acc,
            }
        } else {
            acc
        };
        lemma_fold_keeps_id(ss.drop_first(), song_id, next);
    }
}

/// A page whose embedded JSON yields no field is described by its meta
/// tags: `og:title` (else the `<title>`) gives the title, `og:image` the
/// image, `og:audio` the audio and `description` the prompt. Whatever the
/// page yields carries the song's id.
pub proof fn law_meta_tags_describe_a_bare_page(html: Seq<char>, song_id: Seq<char>)
    ensures
        page_metadata(html, song_id) matches Some(m) ==> m.id == Some(song_id),
        !view_has_any(fold_scripts(scripts(html), song_id, with_id(song_id))) ==> {
            &&& meta_content(html, "og:audio"@) matches Some(c) ==> page_metadata(html, song_id)
                matches Some(m) && m.audio_url == Some(c)
            &&& meta_content(html, "og:image"@) matches Some(c) ==> page_metadata(html, song_id)
                matches Some(m) && m.image_url == Some(c)
            &&& meta_content(html, "description"@) matches Some(c) ==> page_metadata(
                html,
                song_id,
            ) matches Some(m) && m.prompt == Some(c)
            &&& meta_content(html, "og:title"@) matches Some(c) ==> page_metadata(html, song_id)
                matches Some(m) && m.title == Some(c)
            &&& meta_content(html, "og:title"@) is None && title_of(html) is Some
                ==> (page_metadata(html, song_id) matches Some(m) && m.title == title_of(html))
            &&& meta_content(html, "og:title"@) is None && title_of(html) is None
                && meta_content(html, "og:image"@) is None && meta_content(html, "og:audio"@)
                is None && meta_content(html, "description"@) is None ==> page_metadata(
                html,
                song_id,
            ) is None
        },
{
    lemma_fold_keeps_id(scripts(html), song_id, with_id(song_id));
}

pub fn extract_page_metadata_from_html(html: &str, song_id: &str) -> (res: Option<SunoMetadata>)
    ensures
        match page_metadata(html@, song_id@) {
            Some(m) => res matches Some(r) && r@ == m,
            None => res is None,
        },
{
    let page = chars_of(html);
    let mut merged = SunoMetadata {
        id: Some(to_string(song_id)),
        title: None,
        display_name: None,
        created_at: None,
        audio_url: None,
        video_url: None,
        image_url: None,
        image_large_url: None,
        prompt: None,
        lyrics: None,
        style: None,
    };
    let ss = script_contents(page.as_slice());
    let ghost all = crate::text::views_of(ss@);
    let mut i: usize = 0;
    assert(all.skip(0) =~= all);
    while i < ss.len()
        invariant
            i <= ss.len(),
            all == crate::text::views_of(ss@),
            fold_scripts(all, song_id@, with_id(song_id@)) == fold_scripts(
                all.skip(i as int),
                song_id@,
                merged@,
            ),
        decreases ss.len() - i,
    {
        assert(all.skip(i as int).drop_first() =~= all.skip(i + 1));
        assert(all.skip(i as int)[0] == ss@[i as int]@);
        let t = trim_chars(ss[i].as_slice());
        if t.len() > 0 && (t[0] == '{' || t[0] == '[') {
            let text = string_from_chars(t.as_slice());
            match parse_json(text.as_str()) {
                Ok(v) => {
                    let found = metadata_from_embedded_json(&v, song_id);
                    merged = merge_metadata(merged, Some(found));
                },
                Err(_) => {},
            }
        }
        i = i + 1;
    }
    assert(all.skip(i as int).len() == 0);
    if !has_any_metadata(&merged) {
        let og_title = extract_meta_content(page.as_slice(), "og:title");
        let title = match og_title {
            Some(t) => Some(t),
            None => extract_title(page.as_slice()),
        };
        match title {
            Some(t) => {
                merged.title = Some(string_from_chars(t.as_slice()));
            },
            None => {},
        }
        match extract_meta_content(page.as_slice(), "og:image") {
            Some(t) => {
                merged.image_url = Some(string_from_chars(t.as_slice()));
            },
            None => {},
        }
        match extract_meta_content(page.as_slice(), "og:audio") {
            Some(t) => {
                merged.audio_url = Some(string_from_chars(t.as_slice()));
            },
            None => {},
        }
        match extract_meta_content(page.as_slice(), "description") {
            Some(t) => {
                merged.prompt = Some(string_from_chars(t.as_slice()));
            },
            None => {},
        }
    }
    if has_any_metadata(&merged) {
        Some(merged)
    } else {
        None
    }
}

} // verus!
