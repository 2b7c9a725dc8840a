//! Per-file processing plans and the run state machine.
//!
//! A plan says what the binary should do for one file: nothing but logging
//! in dry-run mode, otherwise back the file up and invoke the encoder with
//! an exact argument list. The runner hands files out one at a time and
//! stops the moment a failure is recorded.

use vstd::prelude::*;
use crate::paths::{backup_destination, file_name, file_name_of, get_output_path, join_of,
    output_path_of};
use crate::text::{decimal_str, u8_to_string};

verus! {

/// The views of a list of argument strings.
pub open spec fn views_of(v: Seq<String>) -> Seq<Seq<char>> {
    v.map_values(|s: String| s@)
}

/// The program used to probe a file's codec.
pub fn prober_program() -> (r: &'static str)
    ensures
        r@ == "ffprobe"@,
{
    "ffprobe"
}

/// The program used to re-encode a file.
pub fn encoder_program() -> (r: &'static str)
    ensures
        r@ == "ffmpeg"@,
{
    "ffmpeg"
}

/// The fixed directory backups are copied into.
pub open spec fn backup_dir_spec() -> Seq<char> {
    "/tmp/backup"@
}

/// The fixed directory backups are copied into.
pub fn backup_dir() -> (r: &'static str)
    ensures
        r@ == backup_dir_spec(),
{
    "/tmp/backup"
}

/// The suffix the output file name carries before its container extension.
pub open spec fn codec_suffix_spec() -> Seq<char> {
    "x265"@
}

/// The arguments the probing subprocess is given: select the first video
/// stream and print nothing but its codec name.
pub open spec fn probe_args_spec(path: Seq<char>) -> Seq<Seq<char>> {
    seq![
        "-v"@,
        "error"@,
        "-select_streams"@,
        "v:0"@,
        "-show_entries"@,
        "stream=codec_name"@,
        "-of"@,
        "default=nw=1:nk=1"@,
        path,
    ]
}

/// Builds the probing subprocess's argument list for one file.
pub fn probe_args(path: &str) -> (r: Vec<String>)
    ensures
        views_of(r@) == probe_args_spec(path@),
{
    let mut v: Vec<String> = Vec::new();
    v.push("-v".to_owned());
    v.push("error".to_owned());
    v.push("-select_streams".to_owned());
    v.push("v:0".to_owned());
    v.push("-show_entries".to_owned());
    v.push("stream=codec_name".to_owned());
    v.push("-of".to_owned());
    v.push("default=nw=1:nk=1".to_owned());
    v.push(path.to_owned());
    proof {
        assert(views_of(v@) =~= probe_args_spec(path@));
    }
    v
}

/// The arguments the encoding subprocess is given: overwrite the output,
/// encode the video stream with the fixed codec at the given preset and
/// quality, and copy the audio stream unchanged.
pub open spec fn encode_args_spec(
    input: Seq<char>,
    output: Seq<char>,
    preset: Seq<char>,
    crf: u8,
) -> Seq<Seq<char>> {
    seq![
        "-y"@,
        "-i"@,
        input,
        "-c:v"@,
        "libx265"@,
        "-preset"@,
        preset,
        "-crf"@,
        decimal_str(crf),
        "-c:a"@,
        "copy"@,
        output,
    ]
}

/// Builds the encoding subprocess's argument list for one file.
pub fn encode_args(input: &str, output: &str, preset: &str, crf: u8) -> (r: Vec<String>)
    ensures
        views_of(r@) == encode_args_spec(input@, output@, preset@, crf),
{
    let mut v: Vec<String> = Vec::new();
    v.push("-y".to_owned());
    v.push("-i".to_owned());
    v.push(input.to_owned());
    v.push("-c:v".to_owned());
    v.push("libx265".to_owned());
    v.push("-preset".to_owned());
    v.push(preset.to_owned());
    v.push("-crf".to_owned());
    v.push(u8_to_string(crf));
    v.push("-c:a".to_owned());
    v.push("copy".to_owned());
    v.push(output.to_owned());
    proof {
        assert(views_of(v@) =~= encode_args_spec(input@, output@, preset@, crf));
    }
    v
}

/// What the binary should do for one file.
pub enum ProcessPlan {
    /// Log only; touch nothing and start no subprocess.
    DryRun,
    /// Copy the input to `backup_dest`, then run the encoder with `args`
    /// to produce `output`.
    Encode { backup_dest: String, output: String, args: Vec<String> },
}

/// A spec-level picture of a plan, over character sequences.
pub enum PlanView {
    DryRun,
    Encode { backup_dest: Seq<char>, output: Seq<char>, args: Seq<Seq<char>> },
}

/// The spec-level picture of an executable plan.
pub open spec fn plan_view(p: ProcessPlan) -> PlanView {
    match p {
        ProcessPlan::DryRun => PlanView::DryRun,
        ProcessPlan::Encode { backup_dest, output, args } => (PlanView::Encode {
            backup_dest: backup_dest@,
            output: output@,
            args: views_of(args@),
        }),
    }
}

/// The plan owed for one file: nothing in dry-run mode; otherwise a backup
/// into the fixed backup directory and an encoder invocation that writes
/// `<stem>.x265.mkv` next to the input.
pub open spec fn plan_spec(path: Seq<char>, preset: Seq<char>, crf: u8, dry_run: bool) -> PlanView {
    if dry_run {
        PlanView::DryRun
    } else {
        PlanView::Encode {
            backup_dest: join_of(backup_dir_spec(), file_name_of(path)),
            output: output_path_of(path, codec_suffix_spec()),
            args: encode_args_spec(path, output_path_of(path, codec_suffix_spec()), preset, crf),
        }
    }
}

/// Law: a dry run plans no backup and no encoder invocation.
pub proof fn lemma_dry_run_plans_nothing(path: Seq<char>, preset: Seq<char>, crf: u8)
    ensures
        plan_spec(path, preset, crf, true) == PlanView::DryRun,
{
}

/// Decides what to do for one file. A file with no final component cannot
/// be backed up, so outside dry-run mode it is excluded.
pub fn process_plan(path: &str, preset: &str, crf: u8, dry_run: bool) -> (r: ProcessPlan)
    requires
        dry_run || file_name_of(path@).len() > 0,
    ensures
        plan_view(r) == plan_spec(path@, preset@, crf, dry_run),
{
    if dry_run {
        return ProcessPlan::DryRun;
    }
    let backup_dest = backup_destination(path, backup_dir());
    let output = get_output_path(path, "x265");
    let args = encode_args(path, output.as_str(), preset, crf);
    ProcessPlan::Encode { backup_dest, output, args }
}

/// The run's reaction to its current state.
pub enum RunAction {
    /// Process this file next.
    Process(String),
    /// A failure was recorded: report it and process nothing further.
    ReportFailure,
    /// Every file was processed.
    Done,
}

/// A run over a fixed list of pending files, processed in order, aborted
/// on the first failure.
pub struct Runner {
    /// The files still to be processed, in order.
    pub pending: Vec<String>,
    /// How many files have been processed so far.
    pub next: usize,
    /// Whether a per-file failure has been recorded.
    pub failed: bool,
}

impl Runner {
    /// The runner's internal invariant.
    pub open spec fn wf(self) -> bool {
        self.next <= self.pending@.len()
    }

    /// What the runner asks for in a given state.
    pub open spec fn action_spec(self) -> RunAction {
        if self.failed {
            RunAction::ReportFailure
        } else if self.next < self.pending@.len() {
            RunAction::Process(self.pending@[self.next as int])
        } else {
            RunAction::Done
        }
    }

    /// The state after recording one file's outcome.
    pub open spec fn record_spec(self, ok: bool) -> Runner {
        if self.failed {
            self
        } else if ok {
            Runner { pending: self.pending, next: (self.next + 1) as usize, failed: false }
        } else {
            Runner { pending: self.pending, next: self.next, failed: true }
        }
    }

    /// Starts a run over `pending`.
    pub fn new(pending: Vec<String>) -> (r: Runner)
        ensures
            r.wf(),
            r.pending == pending,
            r.next == 0,
            !r.failed,
    {
        Runner { pending, next: 0, failed: false }
    }

    /// The next thing the binary should do.
    pub fn next_action(&self) -> (a: RunAction)
        requires
            self.wf(),
        ensures
            a == self.action_spec(),
    {
        if self.failed {
            RunAction::ReportFailure
        } else if self.next < self.pending.len() {
            RunAction::Process(self.pending[self.next].clone())
        } else {
            RunAction::Done
        }
    }

    /// Records whether processing the current file succeeded.
    pub fn record_outcome(&mut self, ok: bool)
        requires
            old(self).wf(),
            !old(self).failed,
            old(self).next < old(self).pending@.len(),
        ensures
            *final(self) == old(self).record_spec(ok),
            final(self).wf(),
    {
        let n = self.pending.len();
        if ok {
            self.next = self.next + 1;
        } else {
            self.failed = true;
        }
        proof {
            assert(self.next <= n);
        }
    }
}

/// Law: once a failure is recorded, the run reports failure, hands out no
/// further file, and no later outcome changes that.
pub proof fn lemma_failure_stops_run(r: Runner, ok_later: bool)
    requires
        !r.failed,
    ensures
        r.record_spec(false).failed,
        r.record_spec(false).action_spec() == RunAction::ReportFailure,
        r.record_spec(false).record_spec(ok_later) == r.record_spec(false),
{
}

} // verus!
