//! Dispatch: worker-pool sizing, task planning, per-task reports with
//! failure isolation, metadata normalization, and the completion barrier.
use wavebatch::discovery::record_for;
use wavebatch::dispatch::batch_reports;
use wavebatch::dispatch::effective_workers;
use wavebatch::dispatch::plan_tasks;
use wavebatch::dispatch::task_report;
use wavebatch::dispatch::BatchRun;
use wavebatch::dispatch::TaskOutcome;
use wavebatch::task::normalize;
use wavebatch::task::on_decode;
use wavebatch::task::on_encode;
use wavebatch::task::output_path;
use wavebatch::task::report_line;
use wavebatch::task::AudioMeta;
use wavebatch::task::ConversionTask;
use wavebatch::task::ConvertError;
use wavebatch::task::FormatTag;
use wavebatch::task::TaskAction;

fn records(paths: &[&str]) -> Vec<wavebatch::discovery::FileRecord> {
    paths.iter().map(|p| record_for(p.to_string())).collect()
}

#[test]
fn worker_cap_follows_the_request_up_to_parallelism() {
    // requested zero: all available parallelism
    assert_eq!(effective_workers(0, 8), 8);
    // requested below the parallelism: the request
    assert_eq!(effective_workers(1, 8), 1);
    assert_eq!(effective_workers(7, 8), 7);
    // requested at or above the parallelism: the parallelism
    assert_eq!(effective_workers(8, 8), 8);
    assert_eq!(effective_workers(1000, 8), 8);
    // a host whose parallelism could not be determined counts as one
    assert_eq!(effective_workers(0, 1), 1);
    assert_eq!(effective_workers(4, 1), 1);
}

#[test]
fn normalization_supplies_cd_quality_defaults() {
    let m = normalize(AudioMeta { sample_rate: 0, bits_per_sample: 0, format: FormatTag::F64 });
    assert_eq!(m, AudioMeta { sample_rate: 44100, bits_per_sample: 16, format: FormatTag::S16 });
}

#[test]
fn normalization_keeps_determined_metadata() {
    let m = normalize(AudioMeta { sample_rate: 22050, bits_per_sample: 24, format: FormatTag::S24 });
    assert_eq!(m, AudioMeta { sample_rate: 22050, bits_per_sample: 24, format: FormatTag::S24 });
}

#[test]
fn normalization_fills_each_sentinel_alone() {
    let rate_only = normalize(AudioMeta { sample_rate: 0, bits_per_sample: 8, format: FormatTag::S8 });
    assert_eq!(rate_only, AudioMeta { sample_rate: 44100, bits_per_sample: 8, format: FormatTag::S8 });
    let depth_only = normalize(AudioMeta { sample_rate: 48000, bits_per_sample: 0, format: FormatTag::F32 });
    assert_eq!(depth_only, AudioMeta { sample_rate: 48000, bits_per_sample: 16, format: FormatTag::S16 });
}

#[test]
fn output_path_is_fixed_to_wav_alongside_the_source() {
    assert_eq!(output_path("music/inner", "track"), "music/inner/track.wav");
    assert_eq!(output_path("", "track"), "/track.wav");
}

#[test]
fn plan_makes_one_task_per_record_in_order() {
    let recs = records(&["a/x.mp3", "a/b/y.flac"]);
    let tasks = plan_tasks(&recs);
    assert_eq!(tasks.len(), 2);
    assert_eq!(tasks[0].source, "a/x.mp3");
    assert_eq!(tasks[0].output, "a/x.wav");
    assert_eq!(tasks[1].source, "a/b/y.flac");
    assert_eq!(tasks[1].output, "a/b/y.wav");
}

#[test]
fn report_lines_name_the_path_and_the_failure() {
    assert_eq!(
        report_line("a.mp3", &ConvertError::FileCorrupt),
        "Error writing file a.mp3: The file was corrupt."
    );
    assert_eq!(
        report_line("a.mp3", &ConvertError::FileInaccessible("denied".to_string())),
        "Error writing file a.mp3: The file was inaccessible (denied)."
    );
    assert_eq!(
        report_line("a.mp3", &ConvertError::NumChannels("3".to_string())),
        "Error writing file a.mp3: The number of channels was wrong (3)."
    );
    assert_eq!(
        report_line("a.mp3", &ConvertError::NumFrames("0".to_string())),
        "Error writing file a.mp3: The number of frames was wrong (0)."
    );
    assert_eq!(
        report_line("a.mp3", &ConvertError::SampleValueOutOfRange("2.0".to_string())),
        "Error writing file a.mp3: A sampel value was out of range (2.0)."
    );
    assert_eq!(
        report_line("a.mp3", &ConvertError::WrongFormat("pcm".to_string())),
        "Error writing file a.mp3: The format was wrong (pcm)."
    );
}

#[test]
fn decode_success_leads_to_a_normalized_encode() {
    let task = ConversionTask { source: "d/x.mp3".to_string(), output: "d/x.wav".to_string() };
    let meta = AudioMeta { sample_rate: 0, bits_per_sample: 0, format: FormatTag::F32 };
    match on_decode(&task, Ok(meta)) {
        TaskAction::Encode { path, meta } => {
            assert_eq!(path, "d/x.wav");
            assert_eq!(
                meta,
                AudioMeta { sample_rate: 44100, bits_per_sample: 16, format: FormatTag::S16 }
            );
        }
        TaskAction::Report { .. } => panic!("a decode success must lead to an encode"),
    }
}

#[test]
fn decode_failure_reports_against_the_source() {
    let task = ConversionTask { source: "d/x.mp3".to_string(), output: "d/x.wav".to_string() };
    match on_decode(&task, Err(ConvertError::FileCorrupt)) {
        TaskAction::Report { line } => {
            assert_eq!(line, "Error writing file d/x.mp3: The file was corrupt.");
        }
        TaskAction::Encode { .. } => panic!("a decode failure must not encode"),
    }
}

#[test]
fn encode_failure_reports_against_the_output() {
    let task = ConversionTask { source: "d/x.mp3".to_string(), output: "d/x.wav".to_string() };
    assert_eq!(on_encode(&task, Ok(())), None);
    assert_eq!(
        on_encode(&task, Err(ConvertError::FileInaccessible("read-only".to_string()))),
        Some("Error writing file d/x.wav: The file was inaccessible (read-only).".to_string())
    );
}

#[test]
fn one_corrupt_file_is_isolated_from_its_siblings() {
    let recs = records(&["d/a.mp3", "d/b.mp3", "d/c.mp3"]);
    let tasks = plan_tasks(&recs);
    let outcomes = vec![
        TaskOutcome::Converted,
        TaskOutcome::DecodeFailed(ConvertError::FileCorrupt),
        TaskOutcome::Converted,
    ];
    let reports = batch_reports(&tasks, &outcomes);
    assert_eq!(reports.len(), 3);
    assert_eq!(reports[0], None);
    assert_eq!(
        reports[1],
        Some("Error writing file d/b.mp3: The file was corrupt.".to_string())
    );
    assert_eq!(reports[2], None);
}

#[test]
fn a_task_report_depends_on_its_own_outcome_alone() {
    let task = ConversionTask { source: "d/a.mp3".to_string(), output: "d/a.wav".to_string() };
    let alone = task_report(&task, &TaskOutcome::Converted);
    let tasks = vec![
        task.clone(),
        ConversionTask { source: "d/b.mp3".to_string(), output: "d/b.wav".to_string() },
    ];
    let calm = batch_reports(&tasks, &vec![TaskOutcome::Converted, TaskOutcome::Converted]);
    let stormy = batch_reports(
        &tasks,
        &vec![TaskOutcome::Converted, TaskOutcome::EncodeFailed(ConvertError::FileCorrupt)],
    );
    assert_eq!(calm[0], alone);
    assert_eq!(stormy[0], alone);
}

#[test]
fn barrier_opens_only_after_the_last_task() {
    let recs = records(&["d/a.mp3", "d/b.mp3", "d/c.mp3"]);
    let mut batch = BatchRun::start(recs.len());
    assert!(!batch.all_finished());
    batch.task_finished();
    assert!(!batch.all_finished());
    batch.task_finished();
    assert!(!batch.all_finished());
    batch.task_finished();
    assert!(batch.all_finished());
    let targets = batch.deletion_targets(&recs);
    assert_eq!(targets, vec!["d/a.mp3", "d/b.mp3", "d/c.mp3"]);
}

#[test]
fn barrier_of_an_empty_batch_is_open() {
    let batch = BatchRun::start(0);
    assert!(batch.all_finished());
    assert!(batch.deletion_targets(&Vec::new()).is_empty());
}

#[test]
fn deletion_targets_every_source_even_a_failed_one() {
    // the cleanup step is unconditional per run: a file whose own conversion
    // failed is still listed once the barrier is passed
    let recs = records(&["d/ok.mp3", "d/corrupt.mp3"]);
    let mut batch = BatchRun::start(recs.len());
    batch.task_finished();
    batch.task_finished();
    let targets = batch.deletion_targets(&recs);
    assert!(targets.contains(&"d/corrupt.mp3".to_string()));
    assert_eq!(targets.len(), 2);
}
