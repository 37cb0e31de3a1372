//! Validated invocation arguments: the artifact selection and the effective
//! target triple.

use vstd::prelude::*;
use crate::errors::DriverError;

verus! {

/// Which kind of compiled artifact the analysis is about.
#[derive(Clone, Copy, Debug, PartialEq, Eq, Structural)]
pub enum ArtifactKind {
    Bin,
    Example,
}

/// The artifact chosen for analysis: exactly one kind, with its name.
#[derive(Debug)]
pub struct Selection {
    pub kind: ArtifactKind,
    pub name: String,
}

/// Validates the artifact selectors: exactly one of the example / binary
/// names must be given; anything else is a configuration error, raised
/// before any subprocess is spawned.
pub fn select_artifact(example: Option<String>, bin: Option<String>) -> (r: Result<
    Selection,
    DriverError,
>)
    ensures
        r is Ok <==> ((example is Some) != (bin is Some)),
        r is Err ==> r->Err_0 == DriverError::BothOrNeitherArtifact,
        example is Some && bin is None ==> r->Ok_0.kind == ArtifactKind::Example
            && r->Ok_0.name@ == example->0@,
        bin is Some && example is None ==> r->Ok_0.kind == ArtifactKind::Bin && r->Ok_0.name@
            == bin->0@,
{
    match (example, bin) {
        (Some(name), None) => Ok(Selection { kind: ArtifactKind::Example, name }),
        (None, Some(name)) => Ok(Selection { kind: ArtifactKind::Bin, name }),
        _ => Err(DriverError::BothOrNeitherArtifact),
    }
}

/// The effective target triple: the explicit flag wins, else the project's
/// configured default, else the host triple.
pub open spec fn resolved_target_spec(
    target_flag: Option<Seq<char>>,
    project_target: Option<Seq<char>>,
    host: Seq<char>,
) -> Seq<char> {
    if target_flag is Some {
        target_flag->0
    } else if project_target is Some {
        project_target->0
    } else {
        host
    }
}

/// Resolves the effective target triple from the explicit flag, the
/// project's configured default and the host triple, in that order.
pub fn resolve_target(
    target_flag: &Option<String>,
    project_target: &Option<String>,
    host: &String,
) -> (r: String)
    ensures
        r@ == resolved_target_spec(
            match target_flag {
                Some(t) => Some(t@),
                None => None,
            },
            match project_target {
                Some(t) => Some(t@),
                None => None,
            },
            host@,
        ),
{
    match target_flag {
        Some(t) => t.clone(),
        None => match project_target {
            Some(t) => t.clone(),
            None => host.clone(),
        },
    }
}

} // verus!
