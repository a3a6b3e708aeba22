//! When the update jobs fetch a remote file again, and when they keep their cached copy.
use vstd::prelude::*;
use crate::text::{chars_of, push_char, same_chars};

verus! {

/// `s` without its double quotes (`str::replace` of `"` with nothing).
pub open spec fn without_quotes(s: Seq<char>) -> Seq<char>
    decreases s.len(),
{
    if s.len() == 0 {
        s
    } else if s.last() == '"' {
        without_quotes(s.drop_last())
    } else {
        without_quotes(s.drop_last()).push(s.last())
    }
}

/// A string without its double quotes, as an ETag arrives quoted.
pub fn strip_quotes(s: &str) -> (r: String)
    ensures
        r@ == without_quotes(s@),
{
    let cs = chars_of(s);
    let mut r = String::new();
    let n = cs.len();
    for i in 0..n
        invariant
            n == cs@.len(),
            cs@ == s@,
            r@ == without_quotes(s@.take(i as int)),
    {
        assert(s@.take(i + 1).drop_last() =~= s@.take(i as int));
        if cs[i] != '"' {
            push_char(&mut r, cs[i]);
        }
    }
    assert(s@.take(n as int) =~= s@);
    r
}

/// `s` without the two-character sequences `"\`, removed from left to right as
/// `str::replace` removes them.
pub open spec fn without_escaped_quotes(s: Seq<char>) -> Seq<char>
    decreases s.len(),
{
    if s.len() == 0 {
        s
    } else if s.len() >= 2 && s[0] == '"' && s[1] == '\\' {
        without_escaped_quotes(s.skip(2))
    } else {
        seq![s[0]] + without_escaped_quotes(s.skip(1))
    }
}

/// A text without its quotes holds no quote, and removing quotes again changes nothing.
pub proof fn lemma_without_quotes(s: Seq<char>)
    ensures
        !without_quotes(s).contains('"'),
        without_quotes(without_quotes(s)) == without_quotes(s),
    decreases s.len(),
{
    if s.len() > 0 {
        lemma_without_quotes(s.drop_last());
        let r = without_quotes(s.drop_last());
        if s.last() != '"' {
            let t = r.push(s.last());
            assert(t.drop_last() =~= r);
            if t.contains('"') {
                let i = choose|i: int| 0 <= i < t.len() && t[i] == '"';
                if i < r.len() {
                    assert(r[i] == '"');
                }
            }
        }
    }
}

/// The ETag of a data feed response cleaned as the feed client cleans it: first every `"\`
/// removed, then every `"`.
pub open spec fn clean_etag_of(raw: Seq<char>) -> Seq<char> {
    without_quotes(without_escaped_quotes(raw))
}

/// A data feed ETag cleaned of its quoting.
pub fn clean_etag(raw: &str) -> (r: String)
    ensures
        r@ == clean_etag_of(raw@),
{
    let cs = chars_of(raw);
    let n = cs.len();
    let mut kept = String::new();
    let mut i: usize = 0;
    assert(raw@.skip(0) =~= raw@);
    assert(kept@ + without_escaped_quotes(raw@) =~= without_escaped_quotes(raw@));
    while i < n
        invariant
            n == cs@.len(),
            cs@ == raw@,
            0 <= i <= n,
            kept@ + without_escaped_quotes(raw@.skip(i as int)) == without_escaped_quotes(raw@),
        decreases n - i,
    {
        let ghost t = raw@.skip(i as int);
        if i + 1 < n && cs[i] == '"' && cs[i + 1] == '\\' {
            assert(t.skip(2) =~= raw@.skip(i + 2));
            i = i + 2;
        } else {
            assert(t.skip(1) =~= raw@.skip(i + 1));
            push_char(&mut kept, cs[i]);
            assert(kept@ + without_escaped_quotes(raw@.skip(i + 1)) =~= without_escaped_quotes(
                raw@,
            ));
            i = i + 1;
        }
    }
    assert(raw@.skip(n as int) =~= Seq::<char>::empty());
    assert(kept@ + Seq::<char>::empty() =~= kept@);
    strip_quotes(kept.as_str())
}

/// What an update job that is switched on by a setting does about its cached file.
#[derive(Debug, Clone, Copy, PartialEq, Eq, Structural)]
pub enum UpdatePlan {
    /// No cached copy: fetch the file.
    Download,
    /// The setting is not `true`: keep the cached copy.
    Keep,
    /// The setting is `true`: fetch the file unless its checksum matches the cached copy.
    CompareChecksum,
    /// The setting is absent (or not Unicode): the job fails.
    MissingSetting,
}

/// The plan of a job, from whether a cached copy exists and the value of its setting.
pub open spec fn update_plan_of(cached: bool, setting: Option<Seq<char>>) -> UpdatePlan {
    if !cached {
        UpdatePlan::Download
    } else {
        match setting {
            None => UpdatePlan::MissingSetting,
            Some(v) => if v == "true"@ {
                UpdatePlan::CompareChecksum
            } else {
                UpdatePlan::Keep
            },
        }
    }
}

/// Decides what a switched job does about its cached file.
pub fn update_plan(cached: bool, setting: &Option<String>) -> (g: UpdatePlan)
    ensures
        g == update_plan_of(
            cached,
            match setting {
                Some(v) => Some(v@),
                None => None,
            },
        ),
{
    if !cached {
        return UpdatePlan::Download;
    }
    match setting {
        None => UpdatePlan::MissingSetting,
        Some(v) => if same_chars(v.as_str(), "true") {
            UpdatePlan::CompareChecksum
        } else {
            UpdatePlan::Keep
        },
    }
}

/// Whether the checksum that the remote side reports is exactly the cached file's MD5.
pub fn checksum_is_current(remote: &str, local_md5: &str) -> (b: bool)
    ensures
        b == (remote@ == local_md5@),
{
    same_chars(remote, local_md5)
}

/// Whether an S3 ETag, once its quotes are removed, is the cached file's MD5.
pub fn etag_is_current(etag: &str, local_md5: &str) -> (b: bool)
    ensures
        b == (without_quotes(etag@) == local_md5@),
{
    let clean = strip_quotes(etag);
    same_chars(clean.as_str(), local_md5)
}

/// What the archive import knows of a cached archive file and of its remote copy.
pub struct ArchiveCheck {
    /// The ETag that S3 reports, quotes included.
    pub etag: String,
    /// The MD5 of the cached file, in lowercase hex.
    pub local_md5: String,
    /// The length that S3 reports, if any.
    pub remote_length: Option<u64>,
    /// The length of the cached file.
    pub local_length: u64,
}

/// Whether a cached archive file is current. An ETag with a `-` in it belongs to a
/// multipart upload and is no MD5, so the lengths are compared instead.
pub open spec fn archive_is_current(c: ArchiveCheck) -> bool {
    let etag = without_quotes(c.etag@);
    if etag.contains('-') {
        c.remote_length == Some(c.local_length)
    } else {
        etag == c.local_md5@
    }
}

fn contains_char(s: &str, x: char) -> (b: bool)
    ensures
        b == s@.contains(x),
{
    let cs = chars_of(s);
    let n = cs.len();
    for i in 0..n
        invariant
            n == cs@.len(),
            cs@ == s@,
            forall|k: int| 0 <= k < i ==> s@[k] != x,
    {
        if cs[i] == x {
            return true;
        }
    }
    false
}

/// Whether the archive import fetches a file: always where no copy is cached, and
/// otherwise where the cached copy is not current.
pub fn archive_needs_download(cached: &Option<ArchiveCheck>) -> (b: bool)
    ensures
        b == match cached {
            None => true,
            Some(c) => !archive_is_current(*c),
        },
{
    match cached {
        None => true,
        Some(c) => {
            let etag = strip_quotes(c.etag.as_str());
            if contains_char(etag.as_str(), '-') {
                let same_length = match c.remote_length {
                    Some(len) => len == c.local_length,
                    None => false,
                };
                !same_length
            } else {
                !same_chars(etag.as_str(), c.local_md5.as_str())
            }
        },
    }
}

/// Whether the API imports the allocation archive at start: where no allocation is stored
/// yet, or where the setting that forces it is `true`.
pub fn archive_import_wanted(allocation_count: i64, force_setting: &Option<String>) -> (b: bool)
    ensures
        b == (allocation_count == 0 || (force_setting matches Some(v) && v@ == "true"@)),
{
    if allocation_count == 0 {
        return true;
    }
    match force_setting {
        Some(v) => same_chars(v.as_str(), "true"),
        None => false,
    }
}

} // verus!
