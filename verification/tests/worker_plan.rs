use vbt::config::flag::EnvFlag;
use vbt::requests::get_data::ExtractError;
use vbt::types::book::BookRow;
use vbt::types::watchlist::WatchlistEntry;
use vbt::utils::cache::Cache;
use vbt::utils::fs::sanitize_filename;
use vbt::utils::string_map::StringMap;
use vbt::utils::time::Timestamp;
use vbt::worker::{
    failure_is_fatal, finish_notice, json_file, next_run_start, notice_at_finish, notice_at_start,
    output_stem, plan_entry, processed_notice, rss_file, start_notice, EntryPlan, Step,
};

fn row(isbn: &str, title: &str) -> BookRow {
    BookRow {
        stt: "1".to_string(),
        isbn: isbn.to_string(),
        title: title.to_string(),
        author: "a".to_string(),
        translator: "t".to_string(),
        quantity: "q".to_string(),
        self_published: "s".to_string(),
        partner: "p".to_string(),
        registration_number: "r".to_string(),
    }
}

fn entry(name: &str, romaji: Option<&str>) -> WatchlistEntry {
    let mut other = StringMap::new();
    if let Some(title) = romaji {
        other.insert("romaji".to_string(), title.to_string());
    }
    WatchlistEntry { name: name.to_string(), cover: "http://x/a.jpg".to_string(), other }
}

fn at(secs: i64) -> Timestamp {
    Timestamp::from_unix(secs).unwrap()
}

const ON: EnvFlag = EnvFlag { ft_webhook: true };
const OFF: EnvFlag = EnvFlag { ft_webhook: false };

#[test]
fn sanitize_replaces_what_may_not_stand_in_a_file_name() {
    assert_eq!(sanitize_filename("a/b\\c:d*e?f\"g<h>i|j"), "a_b_c_d_e_f_g_h_i_j");
    assert_eq!(sanitize_filename("Majo_no_Tabitabi"), "Majo_no_Tabitabi");
    assert_eq!(sanitize_filename(""), "");
    assert_eq!(sanitize_filename("Re:Zero"), "Re_Zero");
}

#[test]
fn file_names_come_from_romaji_or_name() {
    let with_romaji = entry("Hành Trình Của Elaina", Some("Majo no Tabitabi"));
    assert_eq!(output_stem(&with_romaji), "Majo_no_Tabitabi");
    assert_eq!(json_file(&with_romaji), "feed/json/Majo_no_Tabitabi.json");
    assert_eq!(rss_file(&with_romaji), "feed/rss/Majo_no_Tabitabi.rss");
    let plain = entry("Re:Zero / Part 2", None);
    assert_eq!(output_stem(&plain), "Re_Zero___Part_2");
    assert_eq!(rss_file(&plain), "feed/rss/Re_Zero___Part_2.rss");
}

#[test]
fn failed_source_is_skipped_and_the_cache_untouched() {
    let mut cache: Cache<Timestamp> = Cache::new();
    let plan = plan_entry(
        &entry("Alpha", None),
        Err(ExtractError::Transport("down".to_string())),
        &mut cache,
        at(1),
        &ON,
        7,
        "now",
    );
    assert!(matches!(plan, EntryPlan::SkipFailed(ExtractError::Transport(_))));
    assert_eq!(cache.data.len(), 0);
    assert_eq!(cache.title_build_date.len(), 0);
}

#[test]
fn empty_source_is_skipped_and_the_cache_untouched() {
    let mut cache: Cache<Timestamp> = Cache::new();
    let plan = plan_entry(&entry("Alpha", None), Ok(vec![]), &mut cache, at(1), &ON, 7, "now");
    assert!(matches!(plan, EntryPlan::SkipEmpty));
    assert_eq!(cache.data.len(), 0);
    assert_eq!(cache.title_build_date.len(), 0);
}

#[test]
fn source_with_rows_is_published_in_order() {
    let mut cache: Cache<Timestamp> = Cache::new();
    let plan = plan_entry(
        &entry("Alpha", Some("A B")),
        Ok(vec![row("1", "T")]),
        &mut cache,
        at(1_431_648_000),
        &ON,
        42,
        "Fri, 15 May 2015 07:00:00 +0700",
    );
    let steps = match plan {
        EntryPlan::Publish(steps) => steps,
        _ => panic!("rows must be published"),
    };
    assert_eq!(steps.len(), 4);
    match &steps[0] {
        Step::WriteJson { path, query, rows } => {
            assert_eq!(path, "feed/json/A_B.json");
            assert_eq!(query, "Alpha");
            assert_eq!(rows, &vec![row("1", "T")]);
        }
        _ => panic!("the JSON file comes first"),
    }
    match &steps[1] {
        Step::WriteFeed { path, text } => {
            assert_eq!(path, "feed/rss/A_B.rss");
            assert!(text.starts_with("<?xml version=\"1.0\" encoding=\"UTF-8\"?>\n"));
            assert!(text.contains("     <lastBuildDate>Fri, 15 May 2015 00:00:00 +0000</lastBuildDate>\n"));
            assert!(text.contains("<title>T</title>"));
            assert!(text.ends_with("</channel>\n</rss>\n"));
        }
        _ => panic!("the feed file comes second"),
    }
    assert!(matches!(steps[2], Step::SaveCache));
    match &steps[3] {
        Step::Notify(notice) => {
            assert_eq!(notice.mention, "<@&1304123731442012220>");
            assert_eq!(notice.embed.title, "Alpha");
            assert_eq!(notice.embed.description, "Id: **42**");
            assert_eq!(notice.embed.footer.as_ref().unwrap().text, "VBT - Fri, 15 May 2015 07:00:00 +0700");
            assert_eq!(notice.embed.thumbnail.as_ref().unwrap().url, "http://x/a.jpg");
        }
        _ => panic!("the notice comes last"),
    }
    assert_eq!(cache.data.len(), 1);
    assert_eq!(cache.title_build_date.len(), 1);
}

#[test]
fn no_notice_when_switched_off() {
    let mut cache: Cache<Timestamp> = Cache::new();
    let plan =
        plan_entry(&entry("Alpha", None), Ok(vec![row("1", "T")]), &mut cache, at(1), &OFF, 42, "t");
    match plan {
        EntryPlan::Publish(steps) => {
            assert_eq!(steps.len(), 3);
            assert!(matches!(steps[0], Step::WriteJson { .. }));
            assert!(matches!(steps[1], Step::WriteFeed { .. }));
            assert!(matches!(steps[2], Step::SaveCache));
        }
        _ => panic!("rows must be published"),
    }
}

#[test]
fn only_output_files_are_fatal() {
    assert!(failure_is_fatal(&Step::WriteJson {
        path: "p".to_string(),
        query: "q".to_string(),
        rows: vec![]
    }));
    assert!(failure_is_fatal(&Step::WriteFeed { path: "p".to_string(), text: "t".to_string() }));
    assert!(!failure_is_fatal(&Step::SaveCache));
    assert!(!failure_is_fatal(&Step::Notify(start_notice(1, "t"))));
}

#[test]
fn run_notices() {
    let start = start_notice(1_700_000_000, "T");
    assert_eq!(start.mention, "<@&1304134014734434315>");
    assert_eq!(start.embed.title, "A daily worker has started");
    assert_eq!(start.embed.description, "Id: 1700000000");
    assert_eq!(start.embed.footer.as_ref().unwrap().text, "VBT - T");
    assert!(start.embed.footer.as_ref().unwrap().icon_url.is_none());
    assert!(start.embed.thumbnail.is_none());
    assert!(start.embed.fields.is_none());
    assert!(start.embed.image.is_none());

    let finish = finish_notice(1_700_086_400, "T");
    assert_eq!(finish.mention, "");
    assert_eq!(finish.embed.title, "Finished");
    assert_eq!(finish.embed.description, "Next automatic worker is: <t:1700086400:R>");
    assert_eq!(finish.embed.footer.as_ref().unwrap().text, "VBT - T");

    let processed = processed_notice(&entry("N", None), -5, "T");
    assert_eq!(processed.embed.description, "Id: **-5**");
}

#[test]
fn run_notices_follow_the_switch() {
    assert!(notice_at_start(&OFF, 1, "T").is_none());
    assert!(notice_at_finish(&OFF, 1, "T").is_none());
    assert_eq!(notice_at_start(&ON, 1, "T").unwrap().embed.description, "Id: 1");
    assert_eq!(notice_at_finish(&ON, 2, "T").unwrap().embed.title, "Finished");
}

#[test]
fn next_run_starts_a_day_later() {
    assert_eq!(next_run_start(at(1_700_000_000)), 1_700_086_400);
}
