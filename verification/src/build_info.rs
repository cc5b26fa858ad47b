use vstd::prelude::*;

use crate::text::chars_of;
use crate::text::string_from_chars;

verus! {

broadcast use vstd::string::group_string_axioms;

/// Where the image build writes its build metadata, unless `BUILD_INFO_PATH` says otherwise.
pub const DEFAULT_BUILD_INFO_PATH: &'static str = "/app/config/build-info.json";

/// The build metadata baked into the image at build time: falls back to placeholder values
/// when the file does not exist (local runs, outside a container).
#[derive(Clone)]
pub struct BuildInfo {
    pub number: String,
    pub job: String,
    pub sha: String,
    pub date: String,
    pub version: String,
}

/// Placeholder for a missing build number, job or date.
pub fn unset() -> (res: String)
    ensures
        res@ == "unset"@,
{
    "unset".to_owned()
}

/// 8 hex chars, so it needs no truncation guard where a real short commit SHA would - and
/// reads unmistakably as a placeholder rather than a real hash.
pub fn unset_sha() -> (res: String)
    ensures
        res@ == "deadbeef"@,
{
    "deadbeef".to_owned()
}

/// Placeholder version of a local build.
pub fn dev() -> (res: String)
    ensures
        res@ == "dev"@,
{
    "dev".to_owned()
}

/// `version` without one leading 'v', if it has one.
pub open spec fn strip_v_prefix_spec(version: Seq<char>) -> Seq<char> {
    if version.len() > 0 && version[0] == 'v' {
        version.drop_first()
    } else {
        version
    }
}

/// Tag versions such as "v1.2.3" lose their 'v': the footer already prefixes one.
pub fn strip_v_prefix(version: String) -> (res: String)
    ensures
        res@ == strip_v_prefix_spec(version@),
{
    let cs = chars_of(version.as_str());
    if cs.len() > 0 && cs[0] == 'v' {
        let rest = string_from_chars(&cs.as_slice()[1..cs.len()]);
        proof {
            assert(cs@.subrange(1, cs@.len() as int) =~= version@.drop_first());
        }
        rest
    } else {
        version
    }
}

impl BuildInfo {
    /// The metadata of a build whose build-info file is missing or unreadable.
    pub fn placeholder() -> (res: BuildInfo)
        ensures
            res.number@ == "unset"@,
            res.job@ == "unset"@,
            res.sha@ == "deadbeef"@,
            res.date@ == "unset"@,
            res.version@ == "dev"@,
    {
        BuildInfo { number: unset(), job: unset(), sha: unset_sha(), date: unset(), version: dev() }
    }

    /// The build metadata the service runs with, given what the build-info file parsed to
    /// (`None` when it is missing or malformed): the parsed record, or the placeholder, with
    /// one leading 'v' stripped from the version.
    pub fn finish(parsed: Option<BuildInfo>) -> (res: BuildInfo)
        ensures
            parsed matches Some(p) ==> {
                &&& res.number == p.number
                &&& res.job == p.job
                &&& res.sha == p.sha
                &&& res.date == p.date
                &&& res.version@ == strip_v_prefix_spec(p.version@)
            },
            parsed is None ==> {
                &&& res.number@ == "unset"@
                &&& res.job@ == "unset"@
                &&& res.sha@ == "deadbeef"@
                &&& res.date@ == "unset"@
                &&& res.version@ == "dev"@
            },
    {
        let info = match parsed {
            Some(p) => p,
            None => BuildInfo::placeholder(),
        };
        let version = strip_v_prefix(info.version);
        proof {
            reveal_strlit("dev");
        }
        BuildInfo { number: info.number, job: info.job, sha: info.sha, date: info.date, version }
    }
}

/// The build-info file to read: `BUILD_INFO_PATH` when set, else the image's default path.
pub fn build_info_path(env_value: Option<String>) -> (res: String)
    ensures
        env_value matches Some(v) ==> res == v,
        env_value is None ==> res@ == DEFAULT_BUILD_INFO_PATH@,
{
    match env_value {
        Some(v) => v,
        None => DEFAULT_BUILD_INFO_PATH.to_owned(),
    }
}

} // verus!
