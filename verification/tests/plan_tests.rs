use x265ify::plan::{
    backup_dir, encode_args, encoder_program, probe_args, prober_program, process_plan,
    ProcessPlan, RunAction, Runner,
};

fn strings(v: &[&str]) -> Vec<String> {
    v.iter().map(|s| s.to_string()).collect()
}

#[test]
fn fixed_program_names() {
    assert_eq!(prober_program(), "ffprobe");
    assert_eq!(encoder_program(), "ffmpeg");
    assert_eq!(backup_dir(), "/tmp/backup");
}

#[test]
fn probe_args_exact() {
    assert_eq!(
        probe_args("movie.avi"),
        strings(&[
            "-v",
            "error",
            "-select_streams",
            "v:0",
            "-show_entries",
            "stream=codec_name",
            "-of",
            "default=nw=1:nk=1",
            "movie.avi",
        ])
    );
}

#[test]
fn encode_args_exact() {
    assert_eq!(
        encode_args("movie.avi", "movie.x265.mkv", "medium", 22),
        strings(&[
            "-y",
            "-i",
            "movie.avi",
            "-c:v",
            "libx265",
            "-preset",
            "medium",
            "-crf",
            "22",
            "-c:a",
            "copy",
            "movie.x265.mkv",
        ])
    );
}

#[test]
fn dry_run_plans_nothing() {
    let plan = process_plan("movie.avi", "medium", 22, true);
    assert!(matches!(plan, ProcessPlan::DryRun));
}

#[test]
fn non_dry_run_plans_backup_and_encode() {
    let plan = process_plan("movie.avi", "medium", 22, false);
    match plan {
        ProcessPlan::Encode { backup_dest, output, args } => {
            assert_eq!(backup_dest, "/tmp/backup/movie.avi");
            assert_eq!(output, "movie.x265.mkv");
            assert_eq!(
                args,
                strings(&[
                    "-y",
                    "-i",
                    "movie.avi",
                    "-c:v",
                    "libx265",
                    "-preset",
                    "medium",
                    "-crf",
                    "22",
                    "-c:a",
                    "copy",
                    "movie.x265.mkv",
                ])
            );
        }
        ProcessPlan::DryRun => panic!("expected an encode plan"),
    }
}

#[test]
fn plan_keeps_input_directory() {
    let plan = process_plan("/videos/movie.avi", "fast", 30, false);
    match plan {
        ProcessPlan::Encode { backup_dest, output, .. } => {
            assert_eq!(backup_dest, "/tmp/backup/movie.avi");
            assert_eq!(output, "/videos/movie.x265.mkv");
        }
        ProcessPlan::DryRun => panic!("expected an encode plan"),
    }
}

#[test]
fn runner_hands_files_out_in_order() {
    let mut r = Runner::new(strings(&["a.avi", "b.mkv"]));
    assert!(matches!(r.next_action(), RunAction::Process(p) if p == "a.avi"));
    r.record_outcome(true);
    assert!(matches!(r.next_action(), RunAction::Process(p) if p == "b.mkv"));
    r.record_outcome(true);
    assert!(matches!(r.next_action(), RunAction::Done));
}

#[test]
fn runner_stops_after_a_failure() {
    let mut r = Runner::new(strings(&["a.avi", "b.mkv", "c.mp4"]));
    assert!(matches!(r.next_action(), RunAction::Process(p) if p == "a.avi"));
    r.record_outcome(false);
    assert!(matches!(r.next_action(), RunAction::ReportFailure));
}

#[test]
fn runner_with_no_pending_files_is_done() {
    let r = Runner::new(Vec::new());
    assert!(matches!(r.next_action(), RunAction::Done));
}
