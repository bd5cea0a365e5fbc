use vstd::prelude::*;

use crate::error::{RunError, Stage};
use cairo_lang_sierra::program::{Program, VersionedProgram};

verus! {

#[verifier::external_type_specification]
#[verifier::external_body]
pub struct ExJsonValue(serde_json::Value);

#[verifier::external_type_specification]
#[verifier::external_body]
pub struct ExJsonError(serde_json::Error);

#[verifier::external_type_specification]
#[verifier::external_body]
pub struct ExVersionedProgram(cairo_lang_sierra::program::VersionedProgram);

#[verifier::external_type_specification]
#[verifier::external_body]
pub struct ExProgram(cairo_lang_sierra::program::Program);

#[verifier::external_type_specification]
#[verifier::external_body]
pub struct ExAnyhowError(anyhow::Error);

/// Whether serde_json accepts the text as a JSON document.
pub uninterp spec fn is_json_document(text: Seq<char>) -> bool;

/// Whether the text deserializes as a version-tagged Sierra program whose
/// version tag is the supported one.
pub uninterp spec fn is_sierra_envelope(text: Seq<char>) -> bool;

/// Relies on `serde_json::from_str::<serde_json::Value>`: whether it succeeds
/// depends on the text alone.
#[verifier::external_body]
fn parse_json(text: &str) -> (r: Result<serde_json::Value, serde_json::Error>)
    ensures
        r is Ok <==> is_json_document(text@),
{
    serde_json::from_str::<serde_json::Value>(text)
}

/// Relies on `serde_json::from_str::<VersionedProgram>` of cairo-lang-sierra:
/// whether it succeeds depends on the text alone; a version tag other than
/// the supported one is a deserialization error.
#[verifier::external_body]
fn parse_envelope(text: &str) -> (r: Result<VersionedProgram, serde_json::Error>)
    ensures
        r is Ok <==> is_sierra_envelope(text@),
{
    serde_json::from_str::<VersionedProgram>(text)
}

/// Relies on `VersionedProgram::into_v1`, which returns the artifact of its
/// only variant, and takes the artifact's `program` field.
#[verifier::external_body]
fn project_v1(p: VersionedProgram) -> (r: Result<Program, anyhow::Error>)
    ensures
        r is Ok,
{
    p.into_v1().map(|a| a.program)
}

/// Parses the contents of the oracle lock manifest read from `path`. Text
/// that is not a JSON document is a `Deserialize` error at the manifest stage
/// citing the path; nothing partial is returned.
pub fn load_service_configuration(path: &str, text: &str) -> (r: Result<
    serde_json::Value,
    RunError,
>)
    ensures
        r is Ok <==> is_json_document(text@),
        r matches Err(e) ==> (e matches RunError::Deserialize {
            stage: Stage::Manifest,
            path: p,
        } && p@ == path@),
{
    match parse_json(text) {
        Ok(v) => Ok(v),
        Err(_) => Err(RunError::Deserialize { stage: Stage::Manifest, path: path.to_owned() }),
    }
}

/// Parses the contents of the compiled program artifact read from `path` and
/// projects it onto the one executable representation this driver runs. A
/// malformed envelope, or one declaring an unsupported version, is a
/// `Deserialize` error at the envelope stage citing the path.
pub fn load_program(path: &str, text: &str) -> (r: Result<Program, RunError>)
    ensures
        r is Ok <==> is_sierra_envelope(text@),
        r matches Err(e) ==> (e matches RunError::Deserialize {
            stage: Stage::ProgramEnvelope,
            path: p,
        } && p@ == path@),
{
    match parse_envelope(text) {
        Err(_) => Err(RunError::Deserialize { stage: Stage::ProgramEnvelope, path: path.to_owned() }),
        Ok(versioned) => match project_v1(versioned) {
            Ok(program) => Ok(program),
            Err(_) => Err(
                RunError::Deserialize { stage: Stage::ProgramVersion, path: path.to_owned() },
            ),
        },
    }
}

} // verus!
