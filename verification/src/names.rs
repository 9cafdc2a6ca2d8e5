//! Song ids, file names and masked secrets.
use crate::text::{
    chars_of, copy_range, find, find_chars, lemma_find_from, occurs_at, split_once,
    split_once_chars, string_from_chars, to_string, trim, trim_chars,
};
use vstd::prelude::*;

verus! {

// ---------------------------------------------------------------------
// Song ids
// ---------------------------------------------------------------------

pub open spec fn is_hex_or_dash(c: char) -> bool {
    ('0' <= c <= '9') || ('a' <= c <= 'f') || ('A' <= c <= 'F') || c == '-'
}

/// The longest prefix of `s` made of hex digits and dashes.
pub open spec fn hex_run(s: Seq<char>) -> Seq<char>
    decreases s.len(),
{
    if s.len() > 0 && is_hex_or_dash(s[0]) {
        seq![s[0]] + hex_run(s.drop_first())
    } else {
        seq![]
    }
}

/// The id in a Suno song URL: the run of hex digits and dashes right after
/// the first `/song/` (or, in a URL without `/song/`, the first `/s/`).
pub open spec fn suno_id(url: Seq<char>) -> Option<Seq<char>> {
    let marker = if find(url, "/song/"@) is Some {
        "/song/"@
    } else {
        "/s/"@
    };
    match find(url, marker) {
        None => None,
        Some(p) => {
            let id = hex_run(url.skip(p + marker.len()));
            if id.len() == 0 {
                None
            } else {
                Some(id)
            }
        },
    }
}

proof fn lemma_hex_run(s: Seq<char>)
    ensures
        hex_run(s).len() <= s.len(),
        forall|i: int| 0 <= i < hex_run(s).len() ==> #[trigger] is_hex_or_dash(hex_run(s)[i]),
        hex_run(s) == s.take(hex_run(s).len() as int),
    decreases s.len(),
{
    if s.len() > 0 && is_hex_or_dash(s[0]) {
        lemma_hex_run(s.drop_first());
        let r = hex_run(s.drop_first());
        assert forall|i: int| 0 <= i < hex_run(s).len() implies #[trigger] is_hex_or_dash(
            hex_run(s)[i],
        ) by {
            if i > 0 {
                assert(hex_run(s)[i] == r[i - 1]);
            }
        }
        assert(hex_run(s) =~= s.take(hex_run(s).len() as int));
    } else {
        assert(hex_run(s) =~= s.take(0));
    }
}

/// A song id is never empty and holds only hexadecimal digits and dashes.
pub proof fn law_song_id_shape(url: Seq<char>)
    ensures
        suno_id(url) matches Some(id) ==> id.len() > 0 && forall|i: int|
            0 <= i < id.len() ==> #[trigger] is_hex_or_dash(id[i]),
{
    let marker = if find(url, "/song/"@) is Some {
        "/song/"@
    } else {
        "/s/"@
    };
    if let Some(p) = find(url, marker) {
        lemma_hex_run(url.skip(p + marker.len()));
    }
}

fn hex_run_exec(s: &[char], from: usize) -> (res: Vec<char>)
    requires
        from <= s.len(),
    ensures
        res@ == hex_run(s@.skip(from as int)),
{
    let mut i = from;
    while i < s.len() && (('0' <= s[i] && s[i] <= '9') || ('a' <= s[i] && s[i] <= 'f') || ('A'
        <= s[i] && s[i] <= 'F') || s[i] == '-')
        invariant
            from <= i <= s.len(),
            hex_run(s@.skip(from as int)) == s@.subrange(from as int, i as int) + hex_run(
                s@.skip(i as int),
            ),
        decreases s.len() - i,
    {
        let ghost rest = s@.skip(i as int);
        assert(rest.drop_first() =~= s@.skip(i + 1));
        assert(s@.subrange(from as int, i + 1) =~= s@.subrange(from as int, i as int) + seq![
            rest[0],
        ]);
        i = i + 1;
    }
    assert(hex_run(s@.skip(i as int)) =~= seq![]);
    assert(s@.subrange(from as int, i as int) + seq![] =~= s@.subrange(from as int, i as int));
    copy_range(s, from, i)
}

/// The song id in a Suno URL.
pub fn extract_suno_id(url: &str) -> (res: Option<String>)
    ensures
        crate::text::opt_view(res) == suno_id(url@),
        res matches Some(id) ==> id@.len() > 0 && forall|i: int|
            0 <= i < id@.len() ==> #[trigger] is_hex_or_dash(id@[i]),
{
    let u = chars_of(url);
    let song = chars_of("/song/");
    let short = chars_of("/s/");
    let marker = if find_chars(u.as_slice(), song.as_slice()).is_some() {
        song
    } else {
        short
    };
    let p = match find_chars(u.as_slice(), marker.as_slice()) {
        Some(p) => p,
        None => {
            return None;
        },
    };
    proof {
        lemma_find_from(u@, marker@, 0);
        assert(occurs_at(u@, marker@, p as int));
        assert(u@.len() == u.len());
    }
    let id = hex_run_exec(u.as_slice(), p + marker.len());
    proof {
        lemma_hex_run(u@.skip(p + marker@.len()));
    }
    if id.len() == 0 {
        None
    } else {
        Some(string_from_chars(id.as_slice()))
    }
}

/// The characters an id keeps when it is used in a file name or a URL.
pub open spec fn is_safe_id_char(c: char) -> bool {
    ('0' <= c <= '9') || ('a' <= c <= 'z') || ('A' <= c <= 'Z') || c == '-' || c == '_'
}

/// The characters of `s` that `is_safe_id_char` keeps, in order.
pub open spec fn keep_safe(s: Seq<char>) -> Seq<char>
    decreases s.len(),
{
    if s.len() == 0 {
        s
    } else if is_safe_id_char(s.last()) {
        keep_safe(s.drop_last()).push(s.last())
    } else {
        keep_safe(s.drop_last())
    }
}

proof fn lemma_keep_safe(s: Seq<char>)
    ensures
        forall|i: int| 0 <= i < keep_safe(s).len() ==> #[trigger] is_safe_id_char(keep_safe(s)[i]),
    decreases s.len(),
{
    if s.len() > 0 {
        let r = keep_safe(s.drop_last());
        lemma_keep_safe(s.drop_last());
        if is_safe_id_char(s.last()) {
            assert forall|i: int| 0 <= i < keep_safe(s).len() implies #[trigger] is_safe_id_char(
                keep_safe(s)[i],
            ) by {
                if i < r.len() {
                    assert(keep_safe(s)[i] == r[i]);
                }
            }
        }
    }
}

/// Making an id safe keeps an id that is safe already as it is, so doing
/// it twice is doing it once.
pub proof fn law_safe_id_stable(s: Seq<char>)
    ensures
        (forall|i: int| 0 <= i < s.len() ==> #[trigger] is_safe_id_char(s[i])) ==> keep_safe(s) == s,
        keep_safe(keep_safe(s)) == keep_safe(s),
{
    if forall|i: int| 0 <= i < s.len() ==> #[trigger] is_safe_id_char(s[i]) {
        lemma_safe_stays(s);
    }
    lemma_keep_safe(s);
    lemma_safe_stays(keep_safe(s));
}

proof fn lemma_safe_stays(s: Seq<char>)
    requires
        forall|i: int| 0 <= i < s.len() ==> #[trigger] is_safe_id_char(s[i]),
    ensures
        keep_safe(s) == s,
    decreases s.len(),
{
    if s.len() > 0 {
        assert forall|i: int| 0 <= i < s.drop_last().len() implies #[trigger] is_safe_id_char(
            s.drop_last()[i],
        ) by {
            assert(s.drop_last()[i] == s[i]);
        }
        lemma_safe_stays(s.drop_last());
        assert(is_safe_id_char(s[s.len() - 1]));
        assert(s.drop_last().push(s.last()) =~= s);
    }
}

/// The id without anything but ASCII letters, digits, `-` and `_`.
pub fn safe_id(id: &str) -> (res: String)
    ensures
        res@ == keep_safe(id@),
        forall|i: int| 0 <= i < res@.len() ==> #[trigger] is_safe_id_char(res@[i]),
{
    let s = chars_of(id);
    let mut out: Vec<char> = Vec::new();
    let mut i: usize = 0;
    while i < s.len()
        invariant
            i <= s.len(),
            out@ == keep_safe(s@.take(i as int)),
        decreases s.len() - i,
    {
        let c = s[i];
        assert(s@.take(i + 1).drop_last() =~= s@.take(i as int));
        if ('0' <= c && c <= '9') || ('a' <= c && c <= 'z') || ('A' <= c && c <= 'Z') || c == '-'
            || c == '_' {
            out.push(c);
        }
        i = i + 1;
    }
    assert(s@.take(s.len() as int) =~= s@);
    proof {
        lemma_keep_safe(s@);
    }
    string_from_chars(out.as_slice())
}

// ---------------------------------------------------------------------
// File names
// ---------------------------------------------------------------------

/// Characters a Windows or Unix file name may not hold.
pub open spec fn is_forbidden_in_filename(c: char) -> bool {
    c == '<' || c == '>' || c == ':' || c == '"' || c == '/' || c == '\\' || c == '|' || c == '?'
        || c == '*'
}

/// `char::is_control`: the Unicode category Cc.
pub open spec fn is_control(c: char) -> bool {
    let u = c as u32;
    u <= 0x1F || (0x7F <= u <= 0x9F)
}

pub open spec fn filename_char(c: char) -> char {
    if is_forbidden_in_filename(c) || is_control(c) {
        '_'
    } else {
        c
    }
}

pub open spec fn strip_dots_start(s: Seq<char>) -> Seq<char>
    decreases s.len(),
{
    if s.len() > 0 && s[0] == '.' {
        strip_dots_start(s.drop_first())
    } else {
        s
    }
}

pub open spec fn strip_dots_end(s: Seq<char>) -> Seq<char>
    decreases s.len(),
{
    if s.len() > 0 && s.last() == '.' {
        strip_dots_end(s.drop_last())
    } else {
        s
    }
}

/// `str::trim_matches('.')`.
pub open spec fn trim_dots(s: Seq<char>) -> Seq<char> {
    strip_dots_end(strip_dots_start(s))
}

pub const MAX_FILENAME_CHARS: usize = 120;

/// A file name made from `value`: forbidden and control characters become
/// `_`, surrounding whitespace and dots go, at most 120 characters are
/// kept, and an empty result becomes `suno_mv`.
pub open spec fn safe_filename_spec(value: Seq<char>) -> Seq<char> {
    let t = trim_dots(trim(value.map_values(|c: char| filename_char(c))));
    if t.len() == 0 {
        "suno_mv"@
    } else if t.len() > MAX_FILENAME_CHARS {
        t.take(MAX_FILENAME_CHARS as int)
    } else {
        t
    }
}

proof fn lemma_strip_dots(s: Seq<char>)
    ensures
        strip_dots_start(s).len() <= s.len(),
        strip_dots_start(s) == s.skip(s.len() - strip_dots_start(s).len()),
        strip_dots_start(s).len() > 0 ==> strip_dots_start(s)[0] != '.',
        strip_dots_end(s).len() <= s.len(),
        strip_dots_end(s) == s.take(strip_dots_end(s).len() as int),
        strip_dots_end(s).len() > 0 ==> strip_dots_end(s).last() != '.',
    decreases s.len(),
{
    if s.len() > 0 && s[0] == '.' {
        lemma_strip_dots(s.drop_first());
        assert(s.drop_first().skip(s.drop_first().len() - strip_dots_start(s).len()) =~= s.skip(
            s.len() - strip_dots_start(s).len(),
        ));
    } else {
        assert(s.skip(0) =~= s);
    }
    if s.len() > 0 && s.last() == '.' {
        lemma_strip_dots(s.drop_last());
        assert(s.drop_last().take(strip_dots_end(s).len() as int) =~= s.take(
            strip_dots_end(s).len() as int,
        ));
    } else {
        assert(s.take(s.len() as int) =~= s);
    }
}

fn trim_dots_exec(s: &[char]) -> (res: Vec<char>)
    ensures
        res@ == trim_dots(s@),
{
    let mut i: usize = 0;
    assert(s@.skip(0) =~= s@);
    while i < s.len() && s[i] == '.'
        invariant
            i <= s.len(),
            strip_dots_start(s@) == strip_dots_start(s@.skip(i as int)),
        decreases s.len() - i,
    {
        assert(s@.skip(i as int).drop_first() =~= s@.skip(i + 1));
        i = i + 1;
    }
    let ghost t = s@.skip(i as int);
    assert(strip_dots_start(t) == t);
    let mut j: usize = s.len();
    assert(t.take(t.len() as int) =~= t);
    while j > i && s[j - 1] == '.'
        invariant
            i <= j <= s.len(),
            t == s@.skip(i as int),
            strip_dots_end(t) == strip_dots_end(s@.subrange(i as int, j as int)),
        decreases j,
    {
        assert(s@.subrange(i as int, j as int).drop_last() =~= s@.subrange(i as int, j - 1));
        j = j - 1;
    }
    copy_range(s, i, j)
}

/// A name made by `safe_filename_spec` is never empty, never longer than
/// 120 characters, never `.` or `..`, and holds no character that a file
/// name may not hold, so it names a file inside the directory it is
/// joined to.
pub proof fn law_safe_filename(value: Seq<char>)
    ensures
        safe_filename_spec(value).len() > 0,
        safe_filename_spec(value).len() <= MAX_FILENAME_CHARS,
        forall|i: int|
            0 <= i < safe_filename_spec(value).len() ==> !#[trigger] is_forbidden_in_filename(
                safe_filename_spec(value)[i],
            ),
        safe_filename_spec(value) != "."@ && safe_filename_spec(value) != ".."@,
{
    reveal_strlit("suno_mv");
    reveal_strlit(".");
    reveal_strlit("..");
    let m = value.map_values(|c: char| filename_char(c));
    assert forall|k: int| 0 <= k < m.len() implies !#[trigger] is_forbidden_in_filename(m[k]) by {
        assert(m[k] == filename_char(value[k]));
    }
    crate::text::lemma_trim_is_subrange(m);
    let off = crate::text::trim_offset(m);
    let tr = trim(m);
    assert forall|k: int| 0 <= k < tr.len() implies !#[trigger] is_forbidden_in_filename(tr[k]) by {
        assert(tr[k] == m[k + off]);
    }
    lemma_strip_dots(tr);
    lemma_strip_dots(strip_dots_start(tr));
    let a = strip_dots_start(tr);
    let t = trim_dots(tr);
    assert forall|k: int| 0 <= k < t.len() implies !#[trigger] is_forbidden_in_filename(t[k]) by {
        assert(t[k] == a[k]);
        assert(a[k] == tr[k + tr.len() - a.len()]);
    }
    if t.len() > 0 {
        assert(t[0] == a[0]);
    }
    if t.len() > MAX_FILENAME_CHARS {
        let h = t.take(MAX_FILENAME_CHARS as int);
        assert(h[0] == t[0]);
        assert forall|k: int| 0 <= k < h.len() implies !#[trigger] is_forbidden_in_filename(h[k]) by {
            assert(h[k] == t[k]);
        }
    }
}

/// A file name made from `value`.
pub fn safe_filename(value: &str) -> (res: String)
    ensures
        res@ == safe_filename_spec(value@),
        res@.len() > 0,
        res@.len() <= MAX_FILENAME_CHARS,
        forall|i: int| 0 <= i < res@.len() ==> !#[trigger] is_forbidden_in_filename(res@[i]),
        res@ != "."@ && res@ != ".."@,
{
    let s = chars_of(value);
    let mut mapped: Vec<char> = Vec::new();
    let mut i: usize = 0;
    while i < s.len()
        invariant
            i <= s.len(),
            mapped@ == s@.take(i as int).map_values(|c: char| filename_char(c)),
        decreases s.len() - i,
    {
        let c = s[i];
        #[verifier::truncate]
        let u = c as u32;
        let bad = c == '<' || c == '>' || c == ':' || c == '"' || c == '/' || c == '\\' || c == '|'
            || c == '?' || c == '*' || u <= 0x1F || (0x7F <= u && u <= 0x9F);
        mapped.push(if bad { '_' } else { c });
        i = i + 1;
        assert(mapped@ =~= s@.take(i as int).map_values(|c: char| filename_char(c)));
    }
    assert(s@.take(s.len() as int) =~= s@);
    let trimmed = trim_chars(mapped.as_slice());
    let t = trim_dots_exec(trimmed.as_slice());
    proof {
        law_safe_filename(value@);
    }
    if t.len() == 0 {
        to_string("suno_mv")
    } else if t.len() > MAX_FILENAME_CHARS {
        let head = copy_range(t.as_slice(), 0, MAX_FILENAME_CHARS);
        string_from_chars(head.as_slice())
    } else {
        string_from_chars(t.as_slice())
    }
}

// ---------------------------------------------------------------------
// Masked secrets
// ---------------------------------------------------------------------

/// `***` for a short token, else its first and last three characters around
/// `...`.
pub open spec fn masked_token(v: Seq<char>) -> Seq<char> {
    if v.len() <= 6 {
        "***"@
    } else {
        v.take(3) + "..."@ + v.skip(v.len() - 3)
    }
}

/// A masked token is at most nine characters long, so a token longer than
/// that never appears in full.
pub proof fn law_masked_token_is_short(t: Seq<char>)
    ensures
        masked_token(t).len() <= 9,
        t.len() > 9 ==> masked_token(t) != t,
{
    reveal_strlit("***");
    reveal_strlit("...");
}

/// A secret fit for a log: its scheme word kept (`Bearer abc...xyz`), its
/// token masked.
pub open spec fn masked_secret(value: Seq<char>) -> Seq<char> {
    let t = trim(value);
    if t.len() == 0 {
        Seq::empty()
    } else {
        match split_once(t, ' ') {
            Some(pair) => if pair.1.len() > 0 {
                pair.0 + " "@ + masked_token(pair.1)
            } else {
                masked_token(t)
            },
            None => masked_token(t),
        }
    }
}

/// Two secrets without a scheme word, longer than six characters, whose
/// first three and last three characters agree, are masked alike: neither
/// the middle of a secret nor its length reaches the masked text.
pub proof fn law_masking_hides_the_middle(a: Seq<char>, b: Seq<char>)
    requires
        forall|i: int| 0 <= i < trim(a).len() ==> trim(a)[i] != ' ',
        forall|i: int| 0 <= i < trim(b).len() ==> trim(b)[i] != ' ',
        trim(a).len() > 6,
        trim(b).len() > 6,
        trim(a).take(3) == trim(b).take(3),
        trim(a).skip(trim(a).len() - 3) == trim(b).skip(trim(b).len() - 3),
    ensures
        masked_secret(a) == masked_secret(b),
        masked_secret(a).len() == 9,
{
    reveal_strlit("...");
    lemma_no_space(trim(a));
    lemma_no_space(trim(b));
}

proof fn lemma_no_space(t: Seq<char>)
    requires
        forall|i: int| 0 <= i < t.len() ==> t[i] != ' ',
    ensures
        split_once(t, ' ') is None,
{
    lemma_find_from(t, seq![' '], 0);
    if let Some(i) = find(t, seq![' ']) {
        assert(occurs_at(t, seq![' '], i));
        assert(t.subrange(i, i + 1)[0] == t[i]);
    }
}

pub fn mask_token(value: &[char]) -> (res: Vec<char>)
    ensures
        res@ == masked_token(value@),
        res@.len() == 3 || res@.len() == 9,
{
    proof {
        reveal_strlit("***");
        reveal_strlit("...");
    }
    if value.len() <= 6 {
        return chars_of("***");
    }
    let mut out = copy_range(value, 0, 3);
    crate::text::append_str(&mut out, "...");
    let tail = copy_range(value, value.len() - 3, value.len());
    crate::text::append_chars(&mut out, tail.as_slice());
    assert(tail@ =~= value@.skip(value@.len() - 3));
    out
}

pub fn mask_secret(value: &str) -> (res: String)
    ensures
        res@ == masked_secret(value@),
{
    let v = chars_of(value);
    let t = trim_chars(v.as_slice());
    if t.len() == 0 {
        return string_from_chars(t.as_slice());
    }
    match split_once_chars(t.as_slice(), ' ') {
        Some((prefix, token)) => {
            if token.len() > 0 {
                let mut out = prefix;
                out.push(' ');
                let m = mask_token(token.as_slice());
                crate::text::append_chars(&mut out, m.as_slice());
                proof {
                    reveal_strlit(" ");
                }
                return string_from_chars(out.as_slice());
            }
        },
        None => {},
    }
    let m = mask_token(t.as_slice());
    string_from_chars(m.as_slice())
}

/// `yes` or `no`.
pub fn yes_no(value: bool) -> (res: &'static str)
    ensures
        res == (if value {
            "yes"
        } else {
            "no"
        }),
{
    if value {
        "yes"
    } else {
        "no"
    }
}

} // verus!
