use vstd::prelude::*;
use vstd::utf8::{decode_utf8, valid_utf8};

use crate::responses::UpdateResponse;
use crate::wrapper::SuccessWrapper;

verus! {

/// semver's own version type, carried along so that its precedence can be asked for.
#[verifier::external_type_specification]
#[verifier::external_body]
pub struct ExSemverVersion(semver::Version);

/// A semantic version, as `major.minor.patch[-pre][+build]`; only parsing
/// makes one, so its parts are those that semver read.
pub struct SemVer {
    major: u64,
    minor: u64,
    patch: u64,
    pre: String,
    build: String,
    parsed: semver::Version,
}

/// The parts of a version that semver reads from a text, or none when the text
/// is not a version.
pub uninterp spec fn semver_parse(text: Seq<char>) -> Option<(u64, u64, u64, Seq<char>, Seq<char>)>;

/// How two non-empty pre-release texts rank in semver: -1, 0 or 1.
pub uninterp spec fn prerelease_order(a: Seq<char>, b: Seq<char>) -> int;

/// SemVer precedence of two versions, as -1, 0 or 1: major, minor and patch in
/// turn, then a release above any of its pre-releases, then the pre-release
/// identifiers; build metadata never counts.
pub open spec fn version_order(
    a: (u64, u64, u64, Seq<char>, Seq<char>),
    b: (u64, u64, u64, Seq<char>, Seq<char>),
) -> int {
    if a.0 != b.0 {
        if a.0 > b.0 { 1 } else { -1 }
    } else if a.1 != b.1 {
        if a.1 > b.1 { 1 } else { -1 }
    } else if a.2 != b.2 {
        if a.2 > b.2 { 1 } else { -1 }
    } else if a.3 == b.3 {
        0
    } else if a.3.len() == 0 {
        1
    } else if b.3.len() == 0 {
        -1
    } else {
        prerelease_order(a.3, b.3)
    }
}

impl SemVer {
    /// The parts of the version.
    pub closed spec fn parts(&self) -> (u64, u64, u64, Seq<char>, Seq<char>) {
        (self.major, self.minor, self.patch, self.pre@, self.build@)
    }

    pub fn major(&self) -> (r: u64)
        ensures
            r == self.parts().0,
    {
        self.major
    }

    pub fn minor(&self) -> (r: u64)
        ensures
            r == self.parts().1,
    {
        self.minor
    }

    pub fn patch(&self) -> (r: u64)
        ensures
            r == self.parts().2,
    {
        self.patch
    }

    /// The pre-release identifiers, empty for a release.
    pub fn pre(&self) -> (r: &str)
        ensures
            r@ == self.parts().3,
    {
        self.pre.as_str()
    }

    /// The build metadata, empty when there is none.
    pub fn build(&self) -> (r: &str)
        ensures
            r@ == self.parts().4,
    {
        self.build.as_str()
    }
}

/// Relies on `semver::Version::parse`: the parts it reads, or its error; the
/// empty text is no version.
#[verifier::external_body]
fn semver_version(text: &str) -> (r: Result<SemVer, String>)
    ensures
        r is Ok ==> semver_parse(text@) == Some(r->Ok_0.parts()),
        r is Err ==> semver_parse(text@) is None,
        text@.len() == 0 ==> r is Err,
{
    match semver::Version::parse(text) {
        Ok(v) => Ok(SemVer {
            major: v.major,
            minor: v.minor,
            patch: v.patch,
            pre: v.pre.as_str().to_string(),
            build: v.build.as_str().to_string(),
            parsed: v,
        }),
        Err(e) => Err(e.to_string()),
    }
}

/// Relies on `semver::Version::cmp_precedence`: major, minor, patch, then the
/// pre-release, where equal texts are equal and a release ranks above a
/// pre-release; build metadata is ignored.
#[verifier::external_body]
fn semver_precedence(a: &SemVer, b: &SemVer) -> (r: i8)
    ensures
        r as int == version_order(a.parts(), b.parts()),
        a.parts().0 == b.parts().0 && a.parts().1 == b.parts().1 && a.parts().2 == b.parts().2
            && a.parts().3 != b.parts().3 && a.parts().3.len() > 0 && b.parts().3.len() > 0
            ==> r as int == prerelease_order(a.parts().3, b.parts().3),
        -1 <= r <= 1,
{
    match a.parsed.cmp_precedence(&b.parsed) {
        std::cmp::Ordering::Less => -1,
        std::cmp::Ordering::Equal => 0,
        std::cmp::Ordering::Greater => 1,
    }
}

/// Relies on `std::str::from_utf8`: the text when the bytes are UTF-8, else its error.
#[verifier::external_body]
fn utf8_text(bytes: &Vec<u8>) -> (r: Result<String, String>)
    ensures
        r is Ok <==> valid_utf8(bytes@),
        r is Ok ==> r->Ok_0@ == decode_utf8(bytes@),
{
    match std::str::from_utf8(bytes) {
        Ok(text) => Ok(text.to_string()),
        Err(e) => Err(e.to_string()),
    }
}

/// Parses a semantic version.
pub fn parse_version(text: &str) -> (r: Result<SemVer, String>)
    ensures
        r is Ok ==> semver_parse(text@) == Some(r->Ok_0.parts()),
        r is Err <==> semver_parse(text@) is None,
{
    semver_version(text)
}

/// Whether an update to `candidate` is due while `running` runs: it takes
/// precedence under SemVer.
pub fn is_newer(candidate: &SemVer, running: &SemVer) -> (r: bool)
    ensures
        r == (version_order(candidate.parts(), running.parts()) > 0),
{
    semver_precedence(candidate, running) > 0
}

/// What to do about an announced version.
pub struct UpdatePlan {
    /// The report to publish on the update topic, if any.
    pub reply: Option<SuccessWrapper<UpdateResponse>>,
    /// The announced version, when it is to be downloaded.
    pub download: Option<String>,
}

/// Whether a report is the failure of an update check, with the versions it names.
pub open spec fn is_failed_reply(
    reply: Option<SuccessWrapper<UpdateResponse>>,
    new_version: Option<Seq<char>>,
    version: Option<Seq<char>>,
) -> bool {
    &&& reply matches Some(w)
    &&& !w.success
    &&& w.value matches UpdateResponse::Failed { new_version: n, version: v, .. }
    &&& (n matches Some(t) ==> new_version == Some(t@))
    &&& (n is None ==> new_version is None)
    &&& (v matches Some(t) ==> version == Some(t@))
    &&& (v is None ==> version is None)
}

/// The announced version text, when the payload is UTF-8.
pub open spec fn payload_text(payload: Seq<u8>) -> Option<Seq<char>> {
    if valid_utf8(payload) { Some(decode_utf8(payload)) } else { None }
}

/// Decides what an announced version means for the running one.
///
/// An unreadable running version or payload is reported as failed. A
/// candidate that is not newer is reported as already installed, except at
/// the check made at startup, which stays silent. A newer one is announced
/// as downloading, and is to be downloaded.
pub fn check_update(payload: &Vec<u8>, running: &str, startup: bool) -> (r: UpdatePlan)
    ensures
        semver_parse(running@) is None ==> {
            &&& r.download is None
            &&& is_failed_reply(r.reply, None, None)
        },
        semver_parse(running@) is Some && (payload_text(payload@) is None
            || semver_parse(payload_text(payload@)->0) is None) ==> {
            &&& r.download is None
            &&& is_failed_reply(r.reply, None, Some(running@))
        },
        semver_parse(running@) is Some && payload_text(payload@) is Some
            && semver_parse(payload_text(payload@)->0) is Some ==> ({
            let text = payload_text(payload@)->0;
            let candidate = semver_parse(text)->0;
            let current = semver_parse(running@)->0;
            if version_order(candidate, current) > 0 {
                &&& r.download is Some
                &&& r.download->0@ == text
                &&& r.reply matches Some(w)
                &&& w.success
                &&& w.value matches UpdateResponse::DownloadingUpdate { new_version, version }
                &&& new_version@ == text && version@ == running@
            } else if startup {
                r.download is None && r.reply is None
            } else {
                &&& r.download is None
                &&& r.reply matches Some(w)
                &&& w.success
                &&& w.value matches UpdateResponse::AlreadyUpdated { new_version, version }
                &&& new_version@ == text && version@ == running@
            }
        }),
{
    let current = match parse_version(running) {
        Ok(v) => v,
        Err(message) => {
            let response = UpdateResponse::Failed { new_version: None, version: None, message };
            return UpdatePlan { reply: Some(SuccessWrapper::failure(response)), download: None };
        },
    };
    let text = match utf8_text(payload) {
        Ok(t) => t,
        Err(message) => {
            let response = UpdateResponse::Failed {
                new_version: None,
                version: Some(String::from_str(running)),
                message,
            };
            return UpdatePlan { reply: Some(SuccessWrapper::failure(response)), download: None };
        },
    };
    let candidate = match parse_version(text.as_str()) {
        Ok(v) => v,
        Err(message) => {
            let response = UpdateResponse::Failed {
                new_version: None,
                version: Some(String::from_str(running)),
                message,
            };
            return UpdatePlan { reply: Some(SuccessWrapper::failure(response)), download: None };
        },
    };
    if !is_newer(&candidate, &current) {
        if startup {
            return UpdatePlan { reply: None, download: None };
        }
        let response = UpdateResponse::AlreadyUpdated {
            new_version: text,
            version: String::from_str(running),
        };
        return UpdatePlan { reply: Some(SuccessWrapper::success(response)), download: None };
    }
    let response = UpdateResponse::DownloadingUpdate {
        new_version: text.clone(),
        version: String::from_str(running),
    };
    UpdatePlan { reply: Some(SuccessWrapper::success(response)), download: Some(text) }
}

/// Reports how a download and replacement went, and whether the process is
/// to restart: only after the executable was replaced.
pub fn finish_update(result: Result<(), String>, new_version: &str, running: &str) -> (r: (SuccessWrapper<UpdateResponse>, bool))
    ensures
        r.1 == result is Ok,
        r.0.success == result is Ok,
        result is Ok ==> (r.0.value matches UpdateResponse::UpdateDownloaded { new_version: n, version: v }
            && n@ == new_version@ && v@ == running@),
        result is Err ==> (r.0.value matches UpdateResponse::Failed { new_version: Some(n), version: Some(v), message }
            && n@ == new_version@ && v@ == running@ && message == result->Err_0),
{
    match result {
        Ok(()) => {
            let response = UpdateResponse::UpdateDownloaded {
                new_version: String::from_str(new_version),
                version: String::from_str(running),
            };
            (SuccessWrapper::success(response), true)
        },
        Err(message) => {
            let response = UpdateResponse::Failed {
                new_version: Some(String::from_str(new_version)),
                version: Some(String::from_str(running)),
                message,
            };
            (SuccessWrapper::failure(response), false)
        },
    }
}

/// Whether a message counts for the check made at startup: it must come on
/// the update topic itself.
pub fn is_startup_announcement(topic: &String, update_topic: &String) -> (r: bool)
    ensures
        r == (topic@ == update_topic@),
{
    *topic == *update_topic
}

/// What the check made at startup does next.
#[derive(PartialEq, Eq, Structural, Clone, Copy, Debug)]
pub enum StartupStep {
    /// Wait for another announcement on the update topic.
    KeepPolling,
    /// An update was installed: restart into it before anything else.
    Restart,
    /// The check is done: begin normal dispatch.
    Proceed,
}

/// The step after a message during the check made at startup. Only an
/// announcement on the update topic that was handled ends the check; a
/// failed handling waits for the next one, since an update may be what
/// repairs the device.
pub fn startup_check_step(
    topic: &String,
    update_topic: &String,
    handled: bool,
    restart_flag: bool,
) -> (r: StartupStep)
    ensures
        topic@ != update_topic@ || !handled ==> r == StartupStep::KeepPolling,
        topic@ == update_topic@ && handled && restart_flag ==> r == StartupStep::Restart,
        topic@ == update_topic@ && handled && !restart_flag ==> r == StartupStep::Proceed,
{
    if !is_startup_announcement(topic, update_topic) || !handled {
        StartupStep::KeepPolling
    } else if restart_flag {
        StartupStep::Restart
    } else {
        StartupStep::Proceed
    }
}

} // verus!
