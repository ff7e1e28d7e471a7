use codex_scheduling::cron_job::CronJob;
use codex_scheduling::os_cron::append_block;
use codex_scheduling::os_cron::count_fire_lines;
use codex_scheduling::os_cron::format_entry;
use codex_scheduling::os_cron::interpret_crontab_listing;
use codex_scheduling::os_cron::interpret_crontab_write;
use codex_scheduling::os_cron::interpret_which;
use codex_scheduling::os_cron::parse_crontab;
use codex_scheduling::os_cron::remove_entry_block;
use codex_scheduling::os_cron::shell_quote_path;
use codex_scheduling::os_cron::six_field_to_five;
use codex_scheduling::os_cron::OsCronError;
use codex_scheduling::paths::cron_data_dir;
use codex_scheduling::paths::log_path;
use codex_scheduling::paths::prompt_path;
use codex_scheduling::task::TaskId;

#[test]
fn six_field_strips_seconds_when_zero() {
    let five = six_field_to_five("0 */5 * * * *").unwrap();
    assert_eq!(five, "*/5 * * * *");
}

#[test]
fn six_field_strips_seconds_when_star() {
    let five = six_field_to_five("* */5 * * * *").unwrap();
    assert_eq!(five, "*/5 * * * *");
}

#[test]
fn six_field_rejects_sub_minute() {
    let err = six_field_to_five("30 * * * * *").unwrap_err();
    assert!(matches!(err, OsCronError::SubMinuteUnsupported));
}

#[test]
fn six_field_rejects_garbage() {
    let err = six_field_to_five("not a cron").unwrap_err();
    assert!(matches!(err, OsCronError::InvalidExpression(_)));
}

#[test]
fn six_field_rejects_seven_fields() {
    let err = six_field_to_five("0 0 9 * * * 2030").unwrap_err();
    match err {
        OsCronError::InvalidExpression(m) => {
            assert_eq!(m, "expected 6 fields (sec min hour dom mon dow), got 7")
        }
        other => panic!("unexpected {other:?}"),
    }
}

#[test]
fn shell_quote_leaves_safe_paths_unquoted() {
    assert_eq!(shell_quote_path("/usr/local/bin/ata"), "/usr/local/bin/ata");
}

#[test]
fn shell_quote_wraps_paths_with_spaces() {
    assert_eq!(
        shell_quote_path("/Users/tim with space/bin/ata"),
        "'/Users/tim with space/bin/ata'"
    );
}

#[test]
fn shell_quote_escapes_embedded_quote() {
    assert_eq!(shell_quote_path("/weird'path/ata"), "'/weird'\\''path/ata'");
}

#[test]
fn parse_finds_one_entry_and_skips_user_lines() {
    let content = "\
# user's own cron
0 9 * * * /Users/me/morning.sh
# ata-cron:abc-123 | created=2026-05-16T10:00:00+00:00
*/2 * * * * /usr/local/bin/ata exec - < /home/me/.ata/cron/abc-123.prompt >> /home/me/.ata/cron/abc-123.log 2>&1
# another user line
30 14 * * 1 /Users/me/weekly.sh
";
    let entries = parse_crontab(content).unwrap();
    assert_eq!(entries.len(), 1);
    assert_eq!(entries[0].task_id.as_str(), "abc-123");
    assert_eq!(entries[0].cron_expr_five_field, "*/2 * * * *");
}

#[test]
fn parse_handles_empty_crontab() {
    assert!(parse_crontab("").unwrap().is_empty());
}

#[test]
fn parse_extracts_created_timestamp() {
    let content = "\
# ata-cron:xyz | created=2026-05-16T10:00:00+00:00
0 9 * * * /bin/true
";
    let entries = parse_crontab(content).unwrap();
    assert_eq!(entries.len(), 1);
    assert!(entries[0].created_at.is_some());
    assert_eq!(entries[0].created_at.unwrap().secs(), 1_778_925_600);
}

#[test]
fn parse_errors_on_dangling_tag() {
    let content = "# ata-cron:dangling\n";
    let err = parse_crontab(content).unwrap_err();
    assert!(matches!(err, OsCronError::Parse(_)));
    assert_eq!(
        err.message(),
        "invalid crontab line: tag line for dangling not followed by a schedule line"
    );
}

#[test]
fn parse_errors_on_short_schedule_line() {
    let content = "# ata-cron:short\n\n   \n0 9 * *\n";
    match parse_crontab(content).unwrap_err() {
        OsCronError::Parse(m) => assert_eq!(m, "schedule line for short has fewer than 5 fields"),
        other => panic!("unexpected {other:?}"),
    }
}

#[test]
fn parse_skips_blank_lines_before_the_schedule() {
    let content = "# ata-cron:gap | other=1 | created=bogus\r\n\r\n  1 2 3 4 5 rest\r\n";
    let entries = parse_crontab(content).unwrap();
    assert_eq!(entries.len(), 1);
    assert_eq!(entries[0].task_id.as_str(), "gap");
    assert_eq!(entries[0].cron_expr_five_field, "1 2 3 4 5");
    assert!(entries[0].created_at.is_none());
}

#[test]
fn format_entry_round_trips_through_parse() {
    let job = CronJob::new("0 */5 * * * *".to_string(), "say hi".to_string()).unwrap();
    let block = format_entry(&job, "/usr/local/bin/ata", "/tmp/p.prompt", "/tmp/p.log").unwrap();
    let entries = parse_crontab(&block).unwrap();
    assert_eq!(entries.len(), 1);
    assert_eq!(entries[0].task_id, job.id);
    assert_eq!(entries[0].cron_expr_five_field, "*/5 * * * *");
}

#[test]
fn format_entry_builds_the_schedule_line() {
    let job = CronJob::new("0 0 9 * * *".to_string(), "p".to_string()).unwrap();
    let block = format_entry(&job, "/opt/my bin/ata", "/tmp/p.prompt", "/tmp/p.log").unwrap();
    let lines: Vec<&str> = block.lines().collect();
    assert_eq!(lines.len(), 2);
    assert!(lines[0].starts_with(&format!("# ata-cron:{} | created=", job.id.as_str())));
    assert_eq!(
        lines[1],
        "0 9 * * * PATH='/opt/my bin':/usr/bin:/bin '/opt/my bin/ata' exec --skip-git-repo-check - < /tmp/p.prompt >> /tmp/p.log 2>&1"
    );
    assert!(block.ends_with('\n'));
}

#[test]
fn format_entry_refuses_sub_minute_schedules() {
    let job = CronJob::new("15 * * * * *".to_string(), "p".to_string()).unwrap();
    let err = format_entry(&job, "ata", "p", "l").unwrap_err();
    assert!(matches!(err, OsCronError::SubMinuteUnsupported));
}

#[test]
fn remove_entry_block_drops_tag_and_schedule_line() {
    let id = TaskId::from_string("abc".to_string());
    let content = "keep 1\n# ata-cron:abc | created=x\n* * * * * cmd\nkeep 2";
    let (out, removed) = remove_entry_block(content, &id);
    assert!(removed);
    assert_eq!(out, "keep 1\nkeep 2\n");
    let (out, removed) = remove_entry_block("keep\n", &TaskId::from_string("zzz".to_string()));
    assert!(!removed);
    assert_eq!(out, "keep\n");
}

#[test]
fn append_block_adds_missing_newline() {
    assert_eq!(append_block("a".to_string(), "b\n"), "a\nb\n");
    assert_eq!(append_block("a\n".to_string(), "b\n"), "a\nb\n");
    assert_eq!(append_block(String::new(), "b\n"), "b\n");
}

#[test]
fn fire_lines_are_counted() {
    let log = "session id: 1\nhello\n   session id: 2\nsession idx\n";
    assert_eq!(count_fire_lines(log), 2);
    assert_eq!(count_fire_lines(""), 0);
}

#[test]
fn crontab_outcomes() {
    assert_eq!(interpret_crontab_listing(true, "x".into(), String::new()).unwrap(), "x");
    assert_eq!(
        interpret_crontab_listing(false, "x".into(), "no crontab for tim".into()).unwrap(),
        ""
    );
    assert!(matches!(
        interpret_crontab_listing(false, "".into(), "boom".into()),
        Err(OsCronError::CrontabFailed(m)) if m == "boom"
    ));
    assert!(interpret_crontab_write(true, String::new()).is_ok());
    assert!(matches!(interpret_crontab_write(false, "bad".into()), Err(OsCronError::CrontabFailed(_))));
    assert_eq!(interpret_which(true, " /usr/bin/ata \n").unwrap(), "/usr/bin/ata");
    assert!(matches!(interpret_which(true, "  \n"), Err(OsCronError::BinaryNotFound)));
    assert!(matches!(interpret_which(false, "/x"), Err(OsCronError::BinaryNotFound)));
}

#[test]
fn error_messages() {
    assert_eq!(
        OsCronError::SubMinuteUnsupported.message(),
        "cron expression has sub-minute granularity; OS cron can only schedule at 1-minute resolution"
    );
    assert_eq!(OsCronError::Io("x".into()).message(), "io error: x");
}

#[test]
fn cron_paths() {
    let dir = cron_data_dir("/home/me");
    assert_eq!(dir, "/home/me/.ata/cron");
    let id = TaskId::from_string("abc".to_string());
    assert_eq!(prompt_path(&dir, &id), "/home/me/.ata/cron/abc.prompt");
    assert_eq!(log_path(&dir, &id), "/home/me/.ata/cron/abc.log");
    assert_eq!(cron_data_dir("/home/me/"), "/home/me/.ata/cron");
}

#[test]
fn remove_entry_block_matches_the_id_exactly() {
    let content = "# ata-cron:abcdef | created=x\n* * * * * other\n# ata-cron:abc\n* * * * * mine\n";
    let (out, removed) = remove_entry_block(content, &TaskId::from_string("abc".to_string()));
    assert!(removed);
    assert_eq!(out, "# ata-cron:abcdef | created=x\n* * * * * other\n");
    let (out, removed) = remove_entry_block(
        "# ata-cron:abcdef | created=x\n* * * * * other\n",
        &TaskId::from_string("abc".to_string()),
    );
    assert!(!removed);
    assert_eq!(out, "# ata-cron:abcdef | created=x\n* * * * * other\n");
    let (out, removed) = remove_entry_block(content, &TaskId::from_string(String::new()));
    assert!(!removed);
    assert_eq!(out, content);
}
