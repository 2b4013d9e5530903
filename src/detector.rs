//! Flavor detection: which adapter serves an unknown server.
//!
//! Detection issues at most two probes. The first asks the instance-info
//! endpoint; a decodable answer settles the flavor by the presence of the
//! Pleroma block. Only when that probe fails outright is the meta endpoint
//! asked, and its answer decides between Misskey and a classification error.
use vstd::prelude::*;
use crate::SNS;
use crate::error::Error;
use crate::text;

verus! {

/// The path of the instance-info endpoint, asked first.
pub open spec fn instance_path() -> Seq<char> {
    "/api/v1/instance"@
}

/// The path of the meta endpoint, asked when the first probe fails.
pub open spec fn meta_path() -> Seq<char> {
    "/api/meta"@
}

/// Links that an instance publishes.
#[derive(Debug, Clone)]
pub struct URLs {
    pub streaming_api: String,
}

/// The block that only Pleroma servers add to their instance information.
#[derive(Debug, Clone)]
pub struct PleromaConfig {
    pub features: Vec<String>,
}

/// What the instance-info endpoint answers, as far as detection reads it.
#[derive(Debug, Clone)]
pub struct Instance {
    pub title: String,
    pub uri: String,
    pub urls: URLs,
    pub version: String,
    pub pleroma: Option<PleromaConfig>,
}

/// The outcome of the first probe.
#[derive(Debug, Clone)]
pub enum PrimaryProbe {
    /// The endpoint answered with a decodable instance.
    Decoded(Instance),
    /// The request failed or its body could not be decoded.
    Failed(String),
}

/// What detection does after the first probe.
#[derive(Debug, Clone, Copy, PartialEq, Eq, Structural)]
pub enum DetectStep {
    /// The flavor is known.
    Resolved(SNS),
    /// The meta endpoint has to be asked.
    ProbeSecondary,
}

/// The flavor that a decoded instance shows.
pub open spec fn instance_flavor(i: Instance) -> SNS {
    if i.pleroma is Some {
        SNS::Pleroma
    } else {
        SNS::Mastodon
    }
}

/// The step that follows a first probe.
pub open spec fn primary_step(p: PrimaryProbe) -> DetectStep {
    match p {
        PrimaryProbe::Decoded(i) => DetectStep::Resolved(instance_flavor(i)),
        PrimaryProbe::Failed(_) => DetectStep::ProbeSecondary,
    }
}

/// The result that a second probe gives.
pub open spec fn secondary_result(s: Result<(), String>) -> Result<SNS, Error> {
    match s {
        Ok(_) => Ok(SNS::Misskey),
        Err(m) => Err(Error::Classification { message: m }),
    }
}

/// The result of a whole detection, given the outcome of the first probe and
/// the outcome that the second would have.
pub open spec fn detection_result(p: PrimaryProbe, s: Result<(), String>) -> Result<SNS, Error> {
    match primary_step(p) {
        DetectStep::Resolved(k) => Ok(k),
        DetectStep::ProbeSecondary => secondary_result(s),
    }
}

/// The URL of the instance-info endpoint of a server.
pub fn instance_url(base_url: &str) -> (r: String)
    ensures
        r@ == text::trim_trailing_slashes(base_url@) + instance_path(),
{
    text::join_path(base_url, "/api/v1/instance")
}

/// The URL of the meta endpoint of a server.
pub fn meta_url(base_url: &str) -> (r: String)
    ensures
        r@ == text::trim_trailing_slashes(base_url@) + meta_path(),
{
    text::join_path(base_url, "/api/meta")
}

/// Classifies a decoded instance: the Pleroma block marks Pleroma, its absence
/// the default flavor.
pub fn classify_instance(instance: &Instance) -> (r: SNS)
    ensures
        r == instance_flavor(*instance),
{
    match &instance.pleroma {
        Some(_) => SNS::Pleroma,
        None => SNS::Mastodon,
    }
}

/// Decides what follows the first probe.
pub fn after_primary(probe: &PrimaryProbe) -> (r: DetectStep)
    ensures
        r == primary_step(*probe),
{
    match probe {
        PrimaryProbe::Decoded(i) => DetectStep::Resolved(classify_instance(i)),
        PrimaryProbe::Failed(_) => DetectStep::ProbeSecondary,
    }
}

/// Decides the flavor from the second probe; its failure is passed on as a
/// classification error, never turned into a default.
pub fn after_secondary(outcome: Result<(), String>) -> (r: Result<SNS, Error>)
    ensures
        r == secondary_result(outcome),
{
    match outcome {
        Ok(_) => Ok(SNS::Misskey),
        Err(m) => Err(Error::Classification { message: m }),
    }
}

/// Detection resolves a present Pleroma block to Pleroma and an absent one to
/// Mastodon, whatever the second probe would say; after a failed first probe a
/// successful second one gives Misskey, and a failed one a classification
/// error with its message.
pub proof fn detection_order(p: PrimaryProbe, s: Result<(), String>)
    ensures
        p matches PrimaryProbe::Decoded(i) ==> (i.pleroma is Some ==> detection_result(p, s)
            == Ok::<SNS, Error>(SNS::Pleroma)),
        p matches PrimaryProbe::Decoded(i) ==> (i.pleroma is None ==> detection_result(p, s)
            == Ok::<SNS, Error>(SNS::Mastodon)),
        p is Failed && s is Ok ==> detection_result(p, s) == Ok::<SNS, Error>(SNS::Misskey),
        p is Failed ==> (s matches Err(m) ==> detection_result(p, s) == Err::<SNS, Error>(
            Error::Classification { message: m },
        )),
{
}

} // verus!
