//! Naming the cached cover image: its extension from the MIME type, and a
//! file name derived from the track's title and artist.

use std::hash::{Hash, Hasher};
use vstd::prelude::*;
use crate::metadata::{opt_text, AudioMetadata};
use crate::text::{decimal_text, decimal_numeral, lower_hex, lower_hex_spec, push_char, same_text};

verus! {

/// The file extension for a cover image of the given MIME type; `jpg` when
/// the type is unknown or absent.
pub open spec fn image_extension(format: Option<Seq<char>>) -> Seq<char> {
    match format {
        Some(f) => if f == "image/jpeg"@ || f == "image/jpg"@ {
            "jpg"@
        } else if f == "image/png"@ {
            "png"@
        } else if f == "image/gif"@ {
            "gif"@
        } else if f == "image/webp"@ {
            "webp"@
        } else {
            "jpg"@
        },
        None => "jpg"@,
    }
}

/// Determines the file extension from a cover image's MIME type.
pub fn determine_image_extension(format: &Option<String>) -> (r: &'static str)
    ensures
        r@ == image_extension(opt_text(*format)),
{
    match format {
        Some(f) => {
            let f = f.as_str();
            if same_text(f, "image/jpeg") || same_text(f, "image/jpg") {
                "jpg"
            } else if same_text(f, "image/png") {
                "png"
            } else if same_text(f, "image/gif") {
                "gif"
            } else if same_text(f, "image/webp") {
                "webp"
            } else {
                "jpg"
            }
        },
        None => "jpg",
    }
}

/// A character that may stand in a file name as it is.
pub open spec fn is_safe_char(c: char) -> bool {
    ('a' <= c && c <= 'z') || ('A' <= c && c <= 'Z') || ('0' <= c && c <= '9') || c == '-' || c
        == '_'
}

/// A character kept if safe, else replaced by `_`.
pub open spec fn safe_char(c: char) -> char {
    if is_safe_char(c) {
        c
    } else {
        '_'
    }
}

pub open spec fn trim_start_underscores(s: Seq<char>) -> Seq<char>
    decreases s.len(),
{
    if s.len() > 0 && s[0] == '_' {
        trim_start_underscores(s.drop_first())
    } else {
        s
    }
}

pub open spec fn trim_end_underscores(s: Seq<char>) -> Seq<char>
    decreases s.len(),
{
    if s.len() > 0 && s.last() == '_' {
        trim_end_underscores(s.drop_last())
    } else {
        s
    }
}

/// `name` with every unsafe character replaced by `_`, then with the
/// underscores at both ends removed.
pub open spec fn sanitized(name: Seq<char>) -> Seq<char> {
    trim_end_underscores(trim_start_underscores(name.map_values(|c: char| safe_char(c))))
}

pub open spec fn all_safe(s: Seq<char>) -> bool {
    forall|i: int| 0 <= i < s.len() ==> is_safe_char(#[trigger] s[i])
}

proof fn lemma_trim_start(s: Seq<char>)
    ensures
        exists|k: int| 0 <= k <= s.len() && trim_start_underscores(s) == #[trigger] s.subrange(k, s.len() as int),
        trim_start_underscores(s).len() > 0 ==> trim_start_underscores(s)[0] != '_',
    decreases s.len(),
{
    if s.len() > 0 && s[0] == '_' {
        lemma_trim_start(s.drop_first());
        let k = choose|k: int| 0 <= k <= s.len() - 1 && trim_start_underscores(s.drop_first())
            == #[trigger] s.drop_first().subrange(k, s.len() - 1);
        assert(s.drop_first().subrange(k, s.len() - 1) =~= s.subrange(k + 1, s.len() as int));
    } else {
        assert(s.subrange(0, s.len() as int) =~= s);
    }
}

proof fn lemma_trim_end(s: Seq<char>)
    ensures
        exists|m: int| 0 <= m <= s.len() && trim_end_underscores(s) == #[trigger] s.subrange(0, m),
        trim_end_underscores(s).len() > 0 ==> trim_end_underscores(s).last() != '_',
    decreases s.len(),
{
    if s.len() > 0 && s.last() == '_' {
        lemma_trim_end(s.drop_last());
        let m = choose|m: int| 0 <= m <= s.len() - 1 && trim_end_underscores(s.drop_last())
            == #[trigger] s.drop_last().subrange(0, m);
        assert(s.drop_last().subrange(0, m) =~= s.subrange(0, m));
    } else {
        assert(s.subrange(0, s.len() as int) =~= s);
    }
}

/// A sanitised name holds only safe characters and neither starts nor ends
/// with `_`.
pub proof fn lemma_sanitized_shape(name: Seq<char>)
    ensures
        all_safe(sanitized(name)),
        sanitized(name).len() > 0 ==> sanitized(name)[0] != '_' && sanitized(name).last() != '_',
{
    let m = name.map_values(|c: char| safe_char(c));
    assert(all_safe(m));
    let a = trim_start_underscores(m);
    lemma_trim_start(m);
    let k = choose|k: int| 0 <= k <= m.len() && a == #[trigger] m.subrange(k, m.len() as int);
    assert(all_safe(a));
    let b = trim_end_underscores(a);
    lemma_trim_end(a);
    let j = choose|j: int| 0 <= j <= a.len() && b == #[trigger] a.subrange(0, j);
    assert(all_safe(b));
    if b.len() > 0 {
        assert(b[0] == a[0]);
    }
}

/// Sanitising is idempotent: a sanitised name is left as it is.
pub proof fn lemma_sanitize_idempotent(name: Seq<char>)
    ensures
        sanitized(sanitized(name)) == sanitized(name),
{
    let y = sanitized(name);
    lemma_sanitized_shape(name);
    let m = y.map_values(|c: char| safe_char(c));
    assert(m =~= y);
    assert(trim_start_underscores(y) == y);
    assert(trim_end_underscores(y) == y);
}

/// Makes a string usable as a file name.
pub fn sanitize_filename(name: &str) -> (r: String)
    ensures
        r@ == sanitized(name@),
{
    let n = name.unicode_len();
    let ghost full = name@.map_values(|c: char| safe_char(c));
    let mut mapped: Vec<char> = Vec::new();
    let mut i: usize = 0;
    while i < n
        invariant
            n == name@.len(),
            i <= n,
            full == name@.map_values(|c: char| safe_char(c)),
            mapped@ == full.subrange(0, i as int),
        decreases n - i,
    {
        let c = name.get_char(i);
        let safe = ('a' <= c && c <= 'z') || ('A' <= c && c <= 'Z') || ('0' <= c && c <= '9')
            || c == '-' || c == '_';
        if safe {
            mapped.push(c);
        } else {
            mapped.push('_');
        }
        i = i + 1;
        assert(mapped@ =~= full.subrange(0, i as int));
    }
    assert(mapped@ =~= full);
    let mut a: usize = 0;
    while a < n && mapped[a] == '_'
        invariant
            n == mapped@.len(),
            a <= n,
            trim_start_underscores(full) == trim_start_underscores(full.subrange(a as int, n as int)),
            mapped@ == full,
        decreases n - a,
    {
        assert(full.subrange(a as int, n as int).drop_first() =~= full.subrange(a + 1, n as int));
        a = a + 1;
    }
    assert(trim_start_underscores(full.subrange(a as int, n as int)) == full.subrange(a as int, n as int));
    let mut b: usize = n;
    while b > a && mapped[b - 1] == '_'
        invariant
            n == mapped@.len(),
            a <= b <= n,
            mapped@ == full,
            sanitized(name@) == trim_end_underscores(full.subrange(a as int, b as int)),
        decreases b,
    {
        assert(full.subrange(a as int, b as int).drop_last() =~= full.subrange(a as int, b - 1));
        b = b - 1;
    }
    assert(trim_end_underscores(full.subrange(a as int, b as int)) == full.subrange(a as int, b as int));
    let mut out = String::new();
    let mut j: usize = a;
    while j < b
        invariant
            a <= j <= b <= n,
            n == mapped@.len(),
            mapped@ == full,
            out@ == full.subrange(a as int, j as int),
        decreases b - j,
    {
        push_char(&mut out, mapped[j]);
        j = j + 1;
        assert(out@ =~= full.subrange(a as int, j as int));
    }
    out
}


/// The identifier that names a cover: sanitised title and artist joined by
/// `_`, or whichever of them is present, or else `cover_` and the time.
pub open spec fn identifier_for(
    title: Option<Seq<char>>,
    artist: Option<Seq<char>>,
    secs: u64,
) -> Seq<char> {
    match (title, artist) {
        (Some(t), Some(a)) => sanitized(t) + "_"@ + sanitized(a),
        (Some(t), None) => sanitized(t),
        (None, Some(a)) => sanitized(a),
        (None, None) => "cover_"@ + decimal_numeral(secs as nat),
    }
}

/// A cover file name: at most the first 50 characters of the identifier,
/// `_`, the hash in lowercase hexadecimal, and `.jpg`.
pub open spec fn cover_name_for(identifier: Seq<char>, hash: u64) -> Seq<char> {
    let k = if identifier.len() < 50 { identifier.len() } else { 50 };
    identifier.subrange(0, k as int) + "_"@ + lower_hex_spec(hash as nat) + ".jpg"@
}

pub open spec fn pow16(k: nat) -> nat
    decreases k,
{
    if k == 0 {
        1
    } else {
        16 * pow16((k - 1) as nat)
    }
}

proof fn lemma_lower_hex_len(n: nat, k: nat)
    requires
        k >= 1,
        n < pow16(k),
    ensures
        lower_hex_spec(n).len() <= k,
    decreases k,
{
    if n >= 16 {
        let p = pow16((k - 1) as nat);
        assert(n < 16 * p);
        assert(k >= 2) by {
            if k == 1 {
                assert(pow16(0) == 1);
            }
        }
        assert(n / 16 < p) by (nonlinear_arith)
            requires
                n < 16 * p,
        ;
        lemma_lower_hex_len(n / 16, (k - 1) as nat);
    }
}

/// A cover file name is at most 71 characters long: 50 of the identifier,
/// `_`, at most 16 hexadecimal digits, and `.jpg`.
pub proof fn lemma_cover_name_length(identifier: Seq<char>, hash: u64)
    ensures
        cover_name_for(identifier, hash).len() <= 71,
{
    reveal_with_fuel(pow16, 17);
    assert(pow16(16) == 0x1_0000_0000_0000_0000);
    lemma_lower_hex_len(hash as nat, 16);
    reveal_strlit("_");
    reveal_strlit(".jpg");
}

/// The identifier of a cover, given the time in seconds since the Unix epoch
/// for a track with neither title nor artist.
pub fn cover_identifier(metadata: &AudioMetadata, now_secs: u64) -> (r: String)
    ensures
        r@ == identifier_for(opt_text(metadata.title), opt_text(metadata.artist), now_secs),
{
    match (&metadata.title, &metadata.artist) {
        (Some(t), Some(a)) => {
            let st = sanitize_filename(t.as_str());
            let sa = sanitize_filename(a.as_str());
            st.concat("_").concat(sa.as_str())
        },
        (Some(t), None) => sanitize_filename(t.as_str()),
        (None, Some(a)) => sanitize_filename(a.as_str()),
        (None, None) => {
            let secs = decimal_text(now_secs);
            String::from_str("cover_").concat(secs.as_str())
        },
    }
}

/// The cover file name for an identifier and its hash.
pub fn cover_filename(identifier: &str, hash: u64) -> (r: String)
    ensures
        r@ == cover_name_for(identifier@, hash),
{
    let n = identifier.unicode_len();
    let k: usize = if n < 50 { n } else { 50 };
    let head = String::from_str(identifier.substring_char(0, k));
    let hex = lower_hex(hash);
    head.concat("_").concat(hex.as_str()).concat(".jpg")
}

/// The hash that a `DefaultHasher` made with `new` (fixed keys) gives for a
/// string's characters.
pub uninterp spec fn default_hash_of(s: Seq<char>) -> u64;

/// Relies on `std::hash::Hash` for `String` with `DefaultHasher::new`: the
/// keys are fixed, so the hash depends on the text alone.
#[verifier::external_body]
fn text_hash(s: &String) -> (r: u64)
    ensures
        r == default_hash_of(s@),
{
    let mut hasher = std::collections::hash_map::DefaultHasher::new();
    s.hash(&mut hasher);
    hasher.finish()
}

/// Relies on `std::time::SystemTime::now`: the seconds since the Unix epoch,
/// or nothing when the clock is set before it.
#[verifier::external_body]
fn unix_time_secs() -> (r: Option<u64>) {
    std::time::SystemTime::now().duration_since(std::time::UNIX_EPOCH).ok().map(|d| d.as_secs())
}

/// Generates a file name for a track's cover image from its title and
/// artist, made unique by a hash of the identifier; a track with neither
/// is named after the current time.
pub fn generate_cover_filename(metadata: &AudioMetadata) -> (r: String)
    ensures
        exists|secs: u64|
            r@ == cover_name_for(
                identifier_for(opt_text(metadata.title), opt_text(metadata.artist), secs),
                default_hash_of(
                    identifier_for(opt_text(metadata.title), opt_text(metadata.artist), secs),
                ),
            ),
        metadata.title is Some || metadata.artist is Some ==> r@ == cover_name_for(
            identifier_for(opt_text(metadata.title), opt_text(metadata.artist), 0),
            default_hash_of(identifier_for(opt_text(metadata.title), opt_text(metadata.artist), 0)),
        ),
{
    let secs = if metadata.title.is_none() && metadata.artist.is_none() {
        match unix_time_secs() {
            Some(s) => s,
            None => 0,
        }
    } else {
        0
    };
    let identifier = cover_identifier(metadata, secs);
    let hash = text_hash(&identifier);
    cover_filename(identifier.as_str(), hash)
}

} // verus!
