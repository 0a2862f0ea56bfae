//! What handling one user request produced, and the naming of persisted
//! artifacts.
//!
//! Writing artifact files to disk happens outside the crate; the names
//! they are written under are decided here.

use vstd::prelude::*;
use vstd::string::StringExecFns;
use vstd::string::StrSliceExecFns;

use crate::intent::Intent;

verus! {

/// What handling one request produced: an answer text, a persisted
/// artifact, or the help message.
#[derive(Debug)]
pub enum ExecutionOutcome {
    Conversation { response: String },
    Artifact { intent: Intent, path: String, description: String },
    Help { message: String },
}

/// The event name an outcome is published under.
pub open spec fn spec_outcome_event_name(o: ExecutionOutcome) -> Seq<char> {
    match o {
        ExecutionOutcome::Conversation { .. } => "agent.conversation"@,
        ExecutionOutcome::Artifact { .. } => "agent.artifact"@,
        ExecutionOutcome::Help { .. } => "agent.help"@,
    }
}

impl ExecutionOutcome {
    /// The event name this outcome is published under.
    pub fn event_name(&self) -> (r: &'static str)
        ensures
            r@ == spec_outcome_event_name(*self),
    {
        match self {
            ExecutionOutcome::Conversation { .. } => "agent.conversation",
            ExecutionOutcome::Artifact { .. } => "agent.artifact",
            ExecutionOutcome::Help { .. } => "agent.help",
        }
    }
}

/// Persists generated artifacts under one root directory; the file I/O
/// itself lives outside the crate.
#[derive(Debug, Clone)]
pub struct ArtifactWriter {
    pub root: String,
}

/// The base name an artifact is stored under: the intent's prefix, a
/// timestamp text and the first eight characters of a fresh identifier,
/// joined by underscores.
pub open spec fn spec_artifact_base_name(
    intent: Intent,
    timestamp: Seq<char>,
    id: Seq<char>,
) -> Seq<char> {
    crate::intent::spec_intent_prefix(intent) + "_"@ + timestamp + "_"@ + id.take(8)
}

impl ArtifactWriter {
    /// A writer rooted at the given directory path.
    pub fn new(root: String) -> (r: Self)
        ensures
            r.root@ == root@,
    {
        ArtifactWriter { root }
    }

    /// Builds the base name of one artifact from the intent, a
    /// timestamp text and a fresh identifier of at least 8 characters.
    pub fn base_name(&self, intent: Intent, timestamp: &str, id: &str) -> (r: String)
        requires
            id@.len() >= 8,
        ensures
            r@ == spec_artifact_base_name(intent, timestamp@, id@),
    {
        let mut out = String::new();
        out.append(intent.as_prefix());
        out.append("_");
        out.append(timestamp);
        out.append("_");
        let short = id.substring_char(0, 8);
        out.append(short);
        proof {
            assert(id@.subrange(0, 8) =~= id@.take(8));
            assert(out@ =~= spec_artifact_base_name(intent, timestamp@, id@));
        }
        out
    }

    /// The full file name of the artifact: base name, dot, extension.
    pub fn file_name(&self, intent: Intent, timestamp: &str, id: &str, extension: &str) -> (r:
        String)
        requires
            id@.len() >= 8,
        ensures
            r@ == spec_artifact_base_name(intent, timestamp@, id@) + "."@ + extension@,
    {
        let mut out = self.base_name(intent, timestamp, id);
        out.append(".");
        out.append(extension);
        out
    }

    /// The file name of the artifact's metadata document.
    pub fn meta_file_name(&self, intent: Intent, timestamp: &str, id: &str) -> (r: String)
        requires
            id@.len() >= 8,
        ensures
            r@ == spec_artifact_base_name(intent, timestamp@, id@) + ".meta.json"@,
    {
        let mut out = self.base_name(intent, timestamp, id);
        out.append(".meta.json");
        out
    }
}

} // verus!
