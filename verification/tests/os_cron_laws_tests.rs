use codex_scheduling::cron_job::CronJob;
use codex_scheduling::monitor::TailBuffer;
use codex_scheduling::monitor::TAIL_CAPACITY;
use codex_scheduling::os_cron::append_block;
use codex_scheduling::os_cron::fire_stats_from_log;
use codex_scheduling::os_cron::format_entry;
use codex_scheduling::os_cron::next_fire_after_now;
use codex_scheduling::os_cron::next_fire_at;
use codex_scheduling::os_cron::next_fire_after_now_five_field;
use codex_scheduling::os_cron::parse_crontab;
use codex_scheduling::os_cron::remove_entry_block;
use codex_scheduling::os_cron::FireStats;
use codex_scheduling::timestamp::Timestamp;
use codex_scheduling::tools::default_background;
use codex_scheduling::view::refresh_due;

#[test]
fn append_then_remove_gives_back_the_crontab() {
    let job = CronJob::new("0 */5 * * * *".to_string(), "say hi".to_string()).unwrap();
    let block = format_entry(&job, "/usr/local/bin/ata", "/tmp/p.prompt", "/tmp/p.log").unwrap();
    for current in ["", "MAILTO=me\n", "0 1 * * * backup", "# mine\n*/2 * * * * ping\n"] {
        let with_job = append_block(current.to_string(), &block);
        let entries = parse_crontab(&with_job).unwrap();
        assert_eq!(entries.len(), 1);
        assert_eq!(entries[0].task_id, job.id);
        let (after, removed) = remove_entry_block(&with_job, &job.id);
        assert!(removed);
        let expected: String = current.lines().map(|l| format!("{l}\n")).collect();
        assert_eq!(after, expected);
        assert!(parse_crontab(&after).unwrap().is_empty());
    }
}

#[test]
fn a_written_block_reads_back_its_creation_time() {
    let job = CronJob::new("0 0 9 * * 1-5".to_string(), "digest".to_string()).unwrap();
    let block = format_entry(&job, "ata", "p", "l").unwrap();
    let entries = parse_crontab(&block).unwrap();
    assert_eq!(entries.len(), 1);
    assert_eq!(entries[0].cron_expr_five_field, "0 9 * * 1-5");
    assert_eq!(entries[0].created_at, Some(job.created_at));
}

#[test]
fn listed_entries_carry_prompt_and_log() {
    let job = CronJob::new("0 0 * * * *".to_string(), "p".to_string()).unwrap();
    let block = format_entry(&job, "/bin/ata", "/d/x.prompt", "/d/x.log").unwrap();
    let entry = parse_crontab(&block).unwrap().pop().unwrap();
    let listed = entry.with_sidecars("the prompt".to_string(), "/d/x.log".to_string());
    assert_eq!(listed.task_id, job.id);
    assert_eq!(listed.cron_expr_five_field, "0 * * * *");
    assert_eq!(listed.prompt, "the prompt");
    assert_eq!(listed.log_path, "/d/x.log");
}

#[test]
fn fire_stats_count_runs_and_keep_the_time() {
    let when = Timestamp::from_unix(1_000, 0).unwrap();
    let stats = fire_stats_from_log("session id: a\nout\n  session id: b\n", Some(when));
    assert_eq!(stats, FireStats { fire_count: 2, last_fired_at: Some(when) });
    assert_eq!(fire_stats_from_log("", None), FireStats::default());
}

#[test]
fn next_firing_from_now() {
    let clock = std::time::SystemTime::now().duration_since(std::time::UNIX_EPOCH).unwrap();
    let before = Timestamp::from_unix(clock.as_secs() as i64, 0).unwrap();
    let next = next_fire_after_now("0 * * * * *").unwrap();
    assert_eq!(next.nanos(), 0);
    assert!(next.secs() > before.secs());
    assert!(next.secs() <= before.secs() + 61);
    assert_eq!(next.secs() % 60, 0);
    let five = next_fire_after_now_five_field("* * * * *").unwrap();
    assert_eq!(five.secs() % 60, 0);
    assert!(next_fire_after_now("not a schedule").is_none());
    assert!(next_fire_after_now_five_field("0 0 0 * * *").is_none());
}

#[test]
fn tail_keeps_the_latest_lines() {
    let mut tail = TailBuffer::new();
    assert_eq!(tail.len(), 0);
    for i in 0..45 {
        tail.push(format!("[stdout] line {i}"));
    }
    assert_eq!(tail.len(), TAIL_CAPACITY);
    let snap = tail.snapshot();
    assert_eq!(snap.len(), 40);
    assert_eq!(snap[0], "[stdout] line 5");
    assert_eq!(snap[39], "[stdout] line 44");
}

#[test]
fn refresh_pacing() {
    assert!(refresh_due(None, 0));
    assert!(!refresh_due(Some(100), 500));
    assert!(refresh_due(Some(100), 1_100));
    assert!(!refresh_due(Some(2_000), 1_000));
    assert!(default_background());
}

#[test]
fn next_firing_from_a_given_instant() {
    let at = |s: i64| Timestamp::from_unix(s, 0).unwrap();
    assert_eq!(next_fire_at("0 * * * * *", at(60)), Some(at(120)));
    assert_eq!(next_fire_at("0 0 * * * *", at(3_599)), Some(at(3_600)));
    assert_eq!(next_fire_at("garbage", at(60)), None);
}
