//! Records of the local memory pipeline: stage-1 routing metadata, job
//! counts and claim outcomes.
use vstd::prelude::*;

use crate::text::chars_of;
use crate::text::is_blank;
use crate::text::is_blank_chars;

verus! {

/// Routing metadata extracted with a stage-1 memory; evidence, not authority.
#[derive(Clone, Debug, PartialEq, Eq)]
pub struct Stage1MemoryMetadata {
    pub project_key: Option<String>,
    pub problem_families: Vec<String>,
    pub symptoms: Vec<String>,
    pub edit_surfaces: Vec<String>,
    pub verified_commands: Vec<String>,
    pub failure_modes: Vec<String>,
    pub routing_keywords: Vec<String>,
    pub staleness_notes: Vec<String>,
}

impl Default for Stage1MemoryMetadata {
    fn default() -> (r: Self)
        ensures
            r.project_key is None,
            r.problem_families@.len() == 0,
            r.symptoms@.len() == 0,
            r.edit_surfaces@.len() == 0,
            r.verified_commands@.len() == 0,
            r.failure_modes@.len() == 0,
            r.routing_keywords@.len() == 0,
            r.staleness_notes@.len() == 0,
    {
        Stage1MemoryMetadata {
            project_key: None,
            problem_families: Vec::new(),
            symptoms: Vec::new(),
            edit_surfaces: Vec::new(),
            verified_commands: Vec::new(),
            failure_modes: Vec::new(),
            routing_keywords: Vec::new(),
            staleness_notes: Vec::new(),
        }
    }
}

impl Stage1MemoryMetadata {
    /// A project key that is not blank, or any non-empty list.
    pub open spec fn spec_has_signal(&self) -> bool {
        (match self.project_key {
            Some(k) => !is_blank(k@),
            None => false,
        }) || self.problem_families@.len() > 0 || self.symptoms@.len() > 0 || self.edit_surfaces@.len() > 0
            || self.verified_commands@.len() > 0 || self.failure_modes@.len() > 0
            || self.routing_keywords@.len() > 0 || self.staleness_notes@.len() > 0
    }

    pub fn has_signal(&self) -> (r: bool)
        ensures
            r == self.spec_has_signal(),
    {
        let key = match &self.project_key {
            Some(k) => !is_blank_chars(&chars_of(k.as_str())),
            None => false,
        };
        key || self.problem_families.len() > 0 || self.symptoms.len() > 0 || self.edit_surfaces.len() > 0
            || self.verified_commands.len() > 0 || self.failure_modes.len() > 0
            || self.routing_keywords.len() > 0 || self.staleness_notes.len() > 0
    }

    /// Whether stored metadata text is blank, in which case it reads as the
    /// default metadata without being parsed.
    pub fn is_blank_json(value: &str) -> (r: bool)
        ensures
            r == is_blank(value@),
    {
        is_blank_chars(&chars_of(value))
    }
}

/// Aggregate counts of the local memory pipeline.
#[derive(Clone, Debug, PartialEq, Eq)]
pub struct MemoryStatusSnapshot {
    pub stage1_output_count: u64,
    pub selected_for_phase2_count: u64,
    pub latest_source_updated_at: Option<i64>,
    pub latest_generated_at: Option<i64>,
    pub jobs: Vec<MemoryJobStatusCount>,
}

/// How many jobs of a kind are in a status.
#[derive(Clone, Debug, PartialEq, Eq)]
pub struct MemoryJobStatusCount {
    pub kind: String,
    pub status: String,
    pub count: u64,
}

impl MemoryJobStatusCount {
    /// The count read from a row; a negative count reads as 0.
    pub fn from_row(kind: String, status: String, count: i64) -> (r: Self)
        ensures
            r.kind == kind,
            r.status == status,
            r.count == if count < 0 {
                0
            } else {
                count as u64
            },
    {
        let c: u64 = if count < 0 {
            0
        } else {
            count as u64
        };
        MemoryJobStatusCount { kind, status, count: c }
    }
}

/// Result of trying to claim a stage-1 extraction job.
#[derive(Clone, Debug, PartialEq, Eq)]
pub enum Stage1JobClaimOutcome {
    Claimed { ownership_token: String },
    SkippedUpToDate,
    SkippedRunning,
    SkippedRetryBackoff,
    SkippedRetryExhausted,
}

/// Parameters of the stage-1 claims made at startup.
#[derive(Clone, Copy, Debug)]
pub struct Stage1StartupClaimParams<'a> {
    pub scan_limit: usize,
    pub max_claimed: usize,
    pub max_age_days: i64,
    pub min_rollout_idle_hours: i64,
    pub allowed_sources: &'a [String],
    pub lease_seconds: i64,
}

/// Result of trying to claim the phase-2 consolidation job.
#[derive(Clone, Debug, PartialEq, Eq)]
pub enum Phase2JobClaimOutcome {
    Claimed { ownership_token: String, input_watermark: i64 },
    SkippedRetryUnavailable,
    SkippedCooldown,
    SkippedRunning,
}

} // verus!
