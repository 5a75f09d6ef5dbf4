//! How current the installed extraction tool is, read from its version text
//! (which starts with the release date, "YYYY.MM.DD").
use vstd::prelude::*;
use crate::text::{chars_of, concat, string_of, trim_chars, trimmed};
use crate::download::opt_text;

verus! {

/// The date that the `time` crate reads from `text` with the format
/// description `description`, printed as "YYYY-MM-DD"; `None` if it reads none.
pub uninterp spec fn date_text_of(text: Seq<char>, description: Seq<char>) -> Option<Seq<char>>;

/// Relies on `time::format_description::parse`, `time::Date::parse` and the
/// `Display` of `time::Date`: the date read from `text`, printed.
#[verifier::external_body]
fn parse_date(text: &str, description: &str) -> (r: Option<String>)
    ensures
        opt_text(r) == date_text_of(text@, description@),
{
    let items = time::format_description::parse(description).ok()?;
    time::Date::parse(text, &items).ok().map(|d| d.to_string())
}

pub const DATE_FORMAT: &'static str = "[year].[month].[day]";

/// The length of the part of `v` before its `n`-th '.', or all of `v`.
pub open spec fn before_nth_dot(v: Seq<char>, n: nat) -> nat
    decreases v.len(),
{
    if v.len() == 0 {
        0
    } else if v[0] == '.' {
        if n <= 1 { 0 } else { 1 + before_nth_dot(v.drop_first(), (n - 1) as nat) }
    } else {
        1 + before_nth_dot(v.drop_first(), n)
    }
}

proof fn lemma_before_nth_dot(v: Seq<char>, n: nat)
    ensures
        before_nth_dot(v, n) <= v.len(),
    decreases v.len(),
{
    if v.len() > 0 {
        if v[0] == '.' {
            if n > 1 {
                lemma_before_nth_dot(v.drop_first(), (n - 1) as nat);
            }
        } else {
            lemma_before_nth_dot(v.drop_first(), n);
        }
    }
}

/// The first three '.'-separated pieces of a version, joined by '.'.
pub open spec fn date_part(v: Seq<char>) -> Seq<char> {
    v.subrange(0, before_nth_dot(v, 3) as int)
}

fn date_part_exec(v: &Vec<char>) -> (r: Vec<char>)
    ensures
        r@ == date_part(v@),
{
    let mut i: usize = 0;
    let mut n: u64 = 3;
    proof { lemma_before_nth_dot(v@, 3); }
    assert(v@.subrange(0, v@.len() as int) =~= v@);
    loop
        invariant
            i <= v@.len(),
            1 <= n <= 3,
            before_nth_dot(v@, 3) == i + before_nth_dot(v@.subrange(i as int, v@.len() as int), n as nat),
        ensures
            before_nth_dot(v@, 3) == i,
            i <= v@.len(),
        decreases v@.len() - i,
    {
        if i >= v.len() {
            assert(v@.subrange(i as int, v@.len() as int).len() == 0);
            break;
        }
        assert(v@.subrange(i as int, v@.len() as int)[0] == v@[i as int]);
        assert(v@.subrange(i as int, v@.len() as int).drop_first() =~= v@.subrange(i + 1, v@.len() as int));
        if v[i] == '.' {
            if n <= 1 {
                break;
            }
            n = n - 1;
        }
        i = i + 1;
    }
    crate::text::copy_prefix(v, i)
}

/// What was learnt by running the tool with `--version`.
#[derive(Debug, Clone)]
pub enum VersionProbe {
    /// The tool was not found.
    Missing,
    /// Running it failed.
    Failed(String),
    /// It ran; whether it succeeded and what it printed.
    Ran { success: bool, stdout: String },
}

/// The tool's version, a status ("ok", "unknown", "missing", "error") and a hint.
#[derive(Debug, Clone)]
pub struct YtDlpFreshness {
    pub version: Option<String>,
    pub status: String,
    pub hint: Option<String>,
}

pub open spec fn freshness_view(f: YtDlpFreshness) -> (Option<Seq<char>>, Seq<char>, Option<Seq<char>>) {
    (opt_text(f.version), f.status@, opt_text(f.hint))
}

/// The status of the tool: a version whose leading date reads is "ok", one
/// whose date does not read is "unknown".
pub open spec fn freshness_of(p: VersionProbe) -> (Option<Seq<char>>, Seq<char>, Option<Seq<char>>) {
    match p {
        VersionProbe::Missing => (None, "missing"@, Some("yt-dlp not found. Install: brew install yt-dlp"@)),
        VersionProbe::Failed(e) => (None, "unknown"@, Some("yt-dlp error: "@ + e@)),
        VersionProbe::Ran { success, stdout } => if success {
            let v = trimmed(stdout@);
            match date_text_of(date_part(v), DATE_FORMAT@) {
                Some(d) => (Some(v), "ok"@, Some("Version date: "@ + d)),
                None => (Some(v), "unknown"@, None),
            }
        } else {
            (None, "error"@, Some("yt-dlp found but --version failed"@))
        },
    }
}

/// Judges the installed tool from the outcome of running it with `--version`.
pub fn check_freshness(probe: VersionProbe) -> (r: YtDlpFreshness)
    ensures
        freshness_view(r) == freshness_of(probe),
{
    match probe {
        VersionProbe::Missing => YtDlpFreshness {
            version: None,
            status: "missing".to_string(),
            hint: Some("yt-dlp not found. Install: brew install yt-dlp".to_string()),
        },
        VersionProbe::Failed(e) => YtDlpFreshness {
            version: None,
            status: "unknown".to_string(),
            hint: Some(concat("yt-dlp error: ", e.as_str())),
        },
        VersionProbe::Ran { success, stdout } => {
            if success {
                let v = trim_chars(&chars_of(stdout.as_str()));
                let part = string_of(&date_part_exec(&v));
                let version = string_of(&v);
                match parse_date(part.as_str(), DATE_FORMAT) {
                    Some(d) => YtDlpFreshness {
                        version: Some(version),
                        status: "ok".to_string(),
                        hint: Some(concat("Version date: ", d.as_str())),
                    },
                    None => YtDlpFreshness { version: Some(version), status: "unknown".to_string(), hint: None },
                }
            } else {
                YtDlpFreshness {
                    version: None,
                    status: "error".to_string(),
                    hint: Some("yt-dlp found but --version failed".to_string()),
                }
            }
        },
    }
}

} // verus!
