//! What a run does for each source, and the notices it sends.

use vstd::prelude::*;
use crate::config::flag::EnvFlag;
use crate::discord::send::{DiscordEmbed, EmbedFooter, EmbedThumbnail};
use crate::file_ops::rss_ops::{dates_after, feed_channel, generate_rss};
use crate::requests::get_data::ExtractError;
use crate::rss::write::feed_text;
use crate::text::{
    replace_char, replace_char_spec, signed_decimal, signed_decimal_spec, views,
};
use crate::types::book::{row_views, BookRow};
use crate::types::watchlist::WatchlistEntry;
use crate::utils::cache::{build_date_step, cache_keys, some_key_is_new, Cache};
use crate::utils::fs::{sanitize_filename, sanitize_filename_spec};
use crate::utils::time::Timestamp;

verus! {

/// Seconds from the start of a run to the start of the next.
pub const RUN_INTERVAL_SECONDS: i64 = 86_400;

/// A message for a webhook: whom it calls, and its card.
#[derive(Debug)]
pub struct Notice {
    pub mention: String,
    pub embed: DiscordEmbed,
}

/// One thing to do for a source with rows. The steps of a source are done in their order.
#[derive(Debug)]
pub enum Step {
    /// Write the rows of the source as JSON to `path`, under the query that found them.
    WriteJson { path: String, query: String, rows: Vec<BookRow> },
    /// Write `text`, the feed of the source, to `path`.
    WriteFeed { path: String, text: String },
    /// Write the cache to its file.
    SaveCache,
    /// Send the notice to the webhook for processed sources.
    Notify(Notice),
}

/// What to do for a source, given what asking it brought.
#[derive(Debug)]
pub enum EntryPlan {
    /// Asking failed: report the error and go on with the next source.
    SkipFailed(ExtractError),
    /// The source has no rows: report it and go on with the next source.
    SkipEmpty,
    /// The source has rows: do these steps.
    Publish(Vec<Step>),
}

/// The small print of every card: the name of the program and the time.
pub open spec fn footer_text(time: Seq<char>) -> Seq<char> {
    "VBT - "@ + time
}

/// The name of the output files of a source, without directory and extension: its romaji
/// title if it has one, else its name, with underscores for spaces and for the characters
/// that may not stand in a file name.
pub open spec fn file_stem(name: Seq<char>, titles: Map<Seq<char>, String>) -> Seq<char> {
    let base = if titles.contains_key("romaji"@) {
        titles["romaji"@]@
    } else {
        name
    };
    sanitize_filename_spec(replace_char_spec(base, ' ', '_'))
}

/// The path of the JSON file for a file stem.
pub open spec fn json_path(stem: Seq<char>) -> Seq<char> {
    "feed/json/"@ + stem + ".json"@
}

/// The path of the feed file for a file stem.
pub open spec fn rss_path(stem: Seq<char>) -> Seq<char> {
    "feed/rss/"@ + stem + ".rss"@
}

/// Whether `notice` is the notice that the run `id` has started, written at `time`.
pub open spec fn is_start_notice(notice: Notice, id: int, time: Seq<char>) -> bool {
    &&& notice.mention@ == "<@&1304134014734434315>"@
    &&& notice.embed.title@ == "A daily worker has started"@
    &&& notice.embed.description@ == "Id: "@ + signed_decimal_spec(id)
    &&& notice.embed.fields.is_none()
    &&& notice.embed.footer matches Some(footer) && footer.text@ == footer_text(time)
        && footer.icon_url.is_none()
    &&& notice.embed.image.is_none()
    &&& notice.embed.thumbnail.is_none()
}

/// Whether `notice` is the notice that the source `name` with the cover `cover` was
/// processed in the run `id`, written at `time`.
pub open spec fn is_processed_notice(
    notice: Notice,
    name: Seq<char>,
    cover: Seq<char>,
    id: int,
    time: Seq<char>,
) -> bool {
    &&& notice.mention@ == "<@&1304123731442012220>"@
    &&& notice.embed.title@ == name
    &&& notice.embed.description@ == "Id: **"@ + signed_decimal_spec(id) + "**"@
    &&& notice.embed.fields.is_none()
    &&& notice.embed.footer matches Some(footer) && footer.text@ == footer_text(time)
        && footer.icon_url.is_none()
    &&& notice.embed.image.is_none()
    &&& notice.embed.thumbnail matches Some(thumbnail) && thumbnail.url@ == cover
}

/// Whether `notice` is the notice that a run has finished and the next one starts at the
/// instant `next_start`, written at `time`.
pub open spec fn is_finish_notice(notice: Notice, next_start: int, time: Seq<char>) -> bool {
    &&& notice.mention@.len() == 0
    &&& notice.embed.title@ == "Finished"@
    &&& notice.embed.description@ == "Next automatic worker is: <t:"@ + signed_decimal_spec(
        next_start,
    ) + ":R>"@
    &&& notice.embed.fields.is_none()
    &&& notice.embed.footer matches Some(footer) && footer.text@ == footer_text(time)
        && footer.icon_url.is_none()
    &&& notice.embed.image.is_none()
    &&& notice.embed.thumbnail.is_none()
}

/// The small print of a card written at `time`.
fn footer(time: &str) -> (out: EmbedFooter)
    ensures
        out.text@ == footer_text(time@),
        out.icon_url.is_none(),
{
    let mut text = String::from_str("VBT - ");
    text.append(time);
    EmbedFooter { text, icon_url: None }
}

/// The notice that the run `id` has started, written at `time`.
pub fn start_notice(id: i64, time: &str) -> (out: Notice)
    ensures
        is_start_notice(out, id as int, time@),
{
    let mut description = String::from_str("Id: ");
    description.append(signed_decimal(id).as_str());
    Notice {
        mention: String::from_str("<@&1304134014734434315>"),
        embed: DiscordEmbed {
            title: String::from_str("A daily worker has started"),
            description,
            fields: None,
            footer: Some(footer(time)),
            image: None,
            thumbnail: None,
        },
    }
}

/// The notice that `entry` was processed in the run `id`, written at `time`.
pub fn processed_notice(entry: &WatchlistEntry, id: i64, time: &str) -> (out: Notice)
    ensures
        is_processed_notice(out, entry.name@, entry.cover@, id as int, time@),
{
    let mut description = String::from_str("Id: **");
    description.append(signed_decimal(id).as_str());
    description.append("**");
    Notice {
        mention: String::from_str("<@&1304123731442012220>"),
        embed: DiscordEmbed {
            title: entry.name.clone(),
            description,
            fields: None,
            footer: Some(footer(time)),
            image: None,
            thumbnail: Some(EmbedThumbnail { url: entry.cover.clone() }),
        },
    }
}

/// The notice that a run has finished and the next one starts at the instant `next_start`,
/// written at `time`.
pub fn finish_notice(next_start: i64, time: &str) -> (out: Notice)
    ensures
        is_finish_notice(out, next_start as int, time@),
{
    let mut description = String::from_str("Next automatic worker is: <t:");
    description.append(signed_decimal(next_start).as_str());
    description.append(":R>");
    Notice {
        mention: String::new(),
        embed: DiscordEmbed {
            title: String::from_str("Finished"),
            description,
            fields: None,
            footer: Some(footer(time)),
            image: None,
            thumbnail: None,
        },
    }
}

/// The notice to send when the run `id` starts, if notices are switched on.
pub fn notice_at_start(config: &EnvFlag, id: i64, time: &str) -> (out: Option<Notice>)
    ensures
        out.is_some() == config.ft_webhook,
        out matches Some(notice) ==> is_start_notice(notice, id as int, time@),
{
    if config.ft_webhook {
        Some(start_notice(id, time))
    } else {
        None
    }
}

/// The notice to send when a run has finished, if notices are switched on.
pub fn notice_at_finish(config: &EnvFlag, next_start: i64, time: &str) -> (out: Option<Notice>)
    ensures
        out.is_some() == config.ft_webhook,
        out matches Some(notice) ==> is_finish_notice(notice, next_start as int, time@),
{
    if config.ft_webhook {
        Some(finish_notice(next_start, time))
    } else {
        None
    }
}

/// The instant at which the run after the one started at `started` begins.
pub fn next_run_start(started: Timestamp) -> (out: i64)
    ensures
        out == started@ + RUN_INTERVAL_SECONDS,
{
    started.unix() + RUN_INTERVAL_SECONDS
}

/// The name of the output files of `entry`, without directory and extension.
pub fn output_stem(entry: &WatchlistEntry) -> (out: String)
    ensures
        out@ == file_stem(entry.name@, entry.other@),
{
    let base = match entry.other.get("romaji") {
        Some(title) => replace_char(title.as_str(), ' ', '_'),
        None => replace_char(entry.name.as_str(), ' ', '_'),
    };
    sanitize_filename(base.as_str())
}

/// The path of the JSON file of `entry`.
pub fn json_file(entry: &WatchlistEntry) -> (out: String)
    ensures
        out@ == json_path(file_stem(entry.name@, entry.other@)),
{
    let mut out = String::from_str("feed/json/");
    out.append(output_stem(entry).as_str());
    out.append(".json");
    out
}

/// The path of the feed file of `entry`.
pub fn rss_file(entry: &WatchlistEntry) -> (out: String)
    ensures
        out@ == rss_path(file_stem(entry.name@, entry.other@)),
{
    let mut out = String::from_str("feed/rss/");
    out.append(output_stem(entry).as_str());
    out.append(".rss");
    out
}

/// Whether a run ends when `step` fails: it does for the two output files, and goes on when
/// the cache cannot be written or a notice cannot be sent.
pub fn failure_is_fatal(step: &Step) -> (fatal: bool)
    ensures
        fatal == (*step is WriteJson || *step is WriteFeed),
{
    match step {
        Step::WriteJson { .. } => true,
        Step::WriteFeed { .. } => true,
        Step::SaveCache => false,
        Step::Notify(_) => false,
    }
}

/// Whether `steps` are the steps for publishing `entry` with the feed text `text`: the JSON
/// file, the feed file, the cache, and, where notices are switched on, the notice; in this
/// order.
pub open spec fn are_publish_steps(
    steps: Seq<Step>,
    entry: WatchlistEntry,
    found: Vec<BookRow>,
    text: Seq<char>,
    notify: bool,
    id: int,
    time: Seq<char>,
) -> bool {
    let stem = file_stem(entry.name@, entry.other@);
    &&& steps.len() == if notify {
        4int
    } else {
        3int
    }
    &&& steps[0] matches Step::WriteJson { path, query, rows } && path@ == json_path(stem)
        && query@ == entry.name@ && rows == found
    &&& steps[1] matches Step::WriteFeed { path, text: feed } && path@ == rss_path(stem) && feed@
        == text
    &&& steps[2] is SaveCache
    &&& notify ==> (steps[3] matches Step::Notify(notice) && is_processed_notice(
        notice,
        entry.name@,
        entry.cover@,
        id,
        time,
    ))
}

/// What to do for `entry`, given what asking its source brought. An error or an empty
/// answer skips the source and leaves the cache as it is. Rows are published: the feed is
/// assembled against the cache, which takes up the dates of the rows.
pub fn plan_entry(
    entry: &WatchlistEntry,
    outcome: Result<Vec<BookRow>, ExtractError>,
    cache: &mut Cache<Timestamp>,
    now: Timestamp,
    config: &EnvFlag,
    id: i64,
    time: &str,
) -> (plan: EntryPlan)
    ensures
        match outcome {
            Err(error) => plan == EntryPlan::SkipFailed(error) && *final(cache) == *old(cache),
            Ok(rows) => if rows@.len() == 0 {
                plan is SkipEmpty && *final(cache) == *old(cache)
            } else {
                &&& plan matches EntryPlan::Publish(steps) && are_publish_steps(
                    steps@,
                    *entry,
                    rows,
                    feed_text(
                        feed_channel(
                            row_views(rows@),
                            entry.name@,
                            entry.cover@,
                            views(entry.other.value_seq()),
                            old(cache).data@,
                            old(cache).title_build_date@,
                            now,
                        ),
                    ),
                    config.ft_webhook,
                    id as int,
                    time@,
                )
                &&& final(cache).data@ == dates_after(old(cache).data@, row_views(rows@), now)
                &&& final(cache).title_build_date@ == build_date_step(
                    old(cache).title_build_date@,
                    entry.name@,
                    now,
                    some_key_is_new(old(cache).data@, cache_keys(row_views(rows@))),
                ).0
            },
        },
{
    match outcome {
        Err(error) => EntryPlan::SkipFailed(error),
        Ok(rows) => {
            if rows.len() == 0 {
                return EntryPlan::SkipEmpty;
            }
            let channel = generate_rss(&rows, entry, cache, now);
            let text = channel.build().unwrap();
            let mut steps: Vec<Step> = Vec::new();
            steps.push(Step::WriteJson { path: json_file(entry), query: entry.name.clone(), rows });
            steps.push(Step::WriteFeed { path: rss_file(entry), text });
            steps.push(Step::SaveCache);
            if config.ft_webhook {
                steps.push(Step::Notify(processed_notice(entry, id, time)));
            }
            EntryPlan::Publish(steps)
        },
    }
}

} // verus!
