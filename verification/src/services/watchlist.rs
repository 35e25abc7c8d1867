//! Building the watchlist from what its file holds.

use vstd::prelude::*;
use crate::types::watchlist::WatchlistEntry;
use crate::utils::string_map::StringMap;

verus! {

/// One group of titles of a source as the file holds it: each form is there or not.
#[derive(Debug)]
pub struct RawTitles {
    pub native: Option<String>,
    pub romaji: Option<String>,
    pub english: Option<String>,
}

/// One source as the file holds it.
#[derive(Debug)]
pub struct RawEntry {
    pub name: String,
    pub cover: String,
    pub other: Vec<RawTitles>,
}

/// `titles` with `value` under `kind`, if there is a value.
pub open spec fn with_title(
    titles: Map<Seq<char>, String>,
    kind: Seq<char>,
    value: Option<String>,
) -> Map<Seq<char>, String> {
    match value {
        Some(value) => titles.insert(kind, value),
        None => titles,
    }
}

/// `titles` with the forms of `group` that are there, each under its kind.
pub open spec fn with_group(titles: Map<Seq<char>, String>, group: RawTitles) -> Map<
    Seq<char>,
    String,
> {
    with_title(
        with_title(with_title(titles, "native"@, group.native), "romaji"@, group.romaji),
        "english"@,
        group.english,
    )
}

/// The titles of all groups by kind. Where two groups hold the same form, the later one
/// stands.
pub open spec fn merged_titles(groups: Seq<RawTitles>) -> Map<Seq<char>, String>
    decreases groups.len(),
{
    if groups.len() == 0 {
        Map::empty()
    } else {
        with_group(merged_titles(groups.drop_last()), groups.last())
    }
}

/// Holds `value` under `kind` in `titles`, if there is a value.
fn add_title(titles: &mut StringMap<String>, kind: &str, value: Option<String>)
    ensures
        final(titles)@ == with_title(old(titles)@, kind@, value),
{
    if let Some(value) = value {
        titles.insert(kind.to_owned(), value);
    }
}

/// The source that `raw` describes: its name and cover as they are, its titles merged by
/// kind.
pub fn watchlist_entry(raw: RawEntry) -> (out: WatchlistEntry)
    ensures
        out.name == raw.name,
        out.cover == raw.cover,
        out.other@ == merged_titles(raw.other@),
{
    let RawEntry { name, cover, other } = raw;
    let ghost groups = other@;
    let mut titles: StringMap<String> = StringMap::new();
    let mut rest = other;
    assert(groups.subrange(0, 0) == Seq::<RawTitles>::empty());
    assert(rest@ == groups.subrange(0, groups.len() as int));
    while rest.len() > 0
        invariant
            rest.len() <= groups.len(),
            rest@ == groups.subrange(groups.len() - rest.len(), groups.len() as int),
            titles@ == merged_titles(groups.subrange(0, groups.len() - rest.len())),
        decreases rest.len(),
    {
        let ghost done = groups.subrange(0, groups.len() - rest.len());
        let group = rest.remove(0);
        proof {
            let grown = groups.subrange(0, groups.len() - rest.len());
            assert(grown.drop_last() == done);
            assert(grown.last() == group);
        }
        let RawTitles { native, romaji, english } = group;
        add_title(&mut titles, "native", native);
        add_title(&mut titles, "romaji", romaji);
        add_title(&mut titles, "english", english);
    }
    assert(groups.subrange(0, groups.len() as int) == groups);
    WatchlistEntry { name, cover, other: titles }
}

/// The sources that `raw` describes, in order.
pub fn build_watchlist(raw: Vec<RawEntry>) -> (out: Vec<WatchlistEntry>)
    ensures
        out.len() == raw.len(),
        forall|i: int|
            0 <= i < raw.len() ==> {
                &&& (#[trigger] out@[i]).name == raw@[i].name
                &&& out@[i].cover == raw@[i].cover
                &&& out@[i].other@ == merged_titles(raw@[i].other@)
            },
{
    let ghost wanted = raw@;
    let mut rest = raw;
    let mut out: Vec<WatchlistEntry> = Vec::new();
    while rest.len() > 0
        invariant
            rest.len() <= wanted.len(),
            out.len() == wanted.len() - rest.len(),
            rest@ == wanted.subrange(out.len() as int, wanted.len() as int),
            forall|i: int|
                0 <= i < out.len() ==> {
                    &&& (#[trigger] out@[i]).name == wanted[i].name
                    &&& out@[i].cover == wanted[i].cover
                    &&& out@[i].other@ == merged_titles(wanted[i].other@)
                },
        decreases rest.len(),
    {
        let entry = rest.remove(0);
        out.push(watchlist_entry(entry));
    }
    out
}

} // verus!
