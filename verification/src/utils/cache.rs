//! First-seen dates of feed items and last build dates of sources.

use vstd::prelude::*;
use crate::types::book::{BookRow, BookRowView};
use crate::utils::string_map::{map_of, StringMap};
use crate::utils::time::{representable, rfc2822_seconds, rfc2822_text, Timestamp};

verus! {

/// The dates that survive from one run to the next: under `data` the date at which each item
/// was first seen, by cache key; under `title_build_date` the date at which each source last
/// gained an item, by the source's name.
#[derive(Debug)]
#[verifier::reject_recursive_types(T)]
pub struct Cache<T> {
    pub data: StringMap<T>,
    pub title_build_date: StringMap<T>,
}

/// The key under which an item's date is kept: its ISBN, a hyphen, and its title.
pub open spec fn cache_key(isbn: Seq<char>, title: Seq<char>) -> Seq<char> {
    isbn + seq!['-'] + title
}

/// The cache keys of `rows`, in order.
pub open spec fn cache_keys(rows: Seq<BookRowView>) -> Seq<Seq<char>> {
    Seq::new(rows.len(), |i: int| cache_key(rows[i].isbn, rows[i].title))
}

/// What asking for the date of `key` at the instant `now` does to the item dates, and the
/// date it answers with: a known key keeps its date, an unknown one is recorded at `now`.
pub open spec fn item_date_step<T>(dates: Map<Seq<char>, T>, key: Seq<char>, now: T) -> (
    Map<Seq<char>, T>,
    T,
) {
    if dates.contains_key(key) {
        (dates, dates[key])
    } else {
        (dates.insert(key, now), now)
    }
}

/// What asking for the build date of `source` at `now` does to the build dates, and the date
/// it answers with. With new items the source is recorded at `now`; without, the recorded date
/// stands, and where none is recorded the answer is `now` and nothing is recorded.
pub open spec fn build_date_step<T>(
    dates: Map<Seq<char>, T>,
    source: Seq<char>,
    now: T,
    has_new: bool,
) -> (Map<Seq<char>, T>, T) {
    if has_new {
        (dates.insert(source, now), now)
    } else if dates.contains_key(source) {
        (dates, dates[source])
    } else {
        (dates, now)
    }
}

/// Whether at least one of `keys` has no date in `dates`.
pub open spec fn some_key_is_new<T>(dates: Map<Seq<char>, T>, keys: Seq<Seq<char>>) -> bool {
    exists|i: int| 0 <= i < keys.len() && !dates.contains_key(#[trigger] keys[i])
}

/// The key under which the date of `book` is kept.
pub fn generate_cache_key(book: &BookRow) -> (key: String)
    ensures
        key@ == cache_key(book@.isbn, book@.title),
{
    let mut key = book.isbn.clone();
    key.push('-');
    key.append(book.title.as_str());
    assert(book.isbn@.push('-') == book.isbn@ + seq!['-']);
    key
}

impl<T: Copy> Cache<T> {
    /// The cache that knows no date.
    pub fn new() -> (out: Self)
        ensures
            out.data@ == Map::<Seq<char>, T>::empty(),
            out.title_build_date@ == Map::<Seq<char>, T>::empty(),
    {
        Cache { data: StringMap::new(), title_build_date: StringMap::new() }
    }

    /// Whether at least one of `keys` has no item date yet.
    pub fn has_new_items(&self, keys: &Vec<String>) -> (found: bool)
        ensures
            found == some_key_is_new(self.data@, crate::text::views(keys@)),
    {
        let ghost wanted = crate::text::views(keys@);
        let mut i: usize = 0;
        while i < keys.len()
            invariant
                i <= keys.len(),
                wanted == crate::text::views(keys@),
                forall|j: int| 0 <= j < i ==> self.data@.contains_key(#[trigger] wanted[j]),
            decreases keys.len() - i,
        {
            if !self.data.contains_key(keys[i].as_str()) {
                assert(!self.data@.contains_key(wanted[i as int]));
                return true;
            }
            i = i + 1;
        }
        false
    }

    /// The date of the item `key`: the one recorded when it was first seen, or `now`, which is
    /// then recorded. Build dates are left alone.
    pub fn resolve_item_date(&mut self, key: String, now: T) -> (date: T)
        ensures
            (final(self).data@, date) == item_date_step(old(self).data@, key@, now),
            final(self).title_build_date@ == old(self).title_build_date@,
    {
        let known: Option<T> = match self.data.get(key.as_str()) {
            Some(date) => Some(*date),
            None => None,
        };
        match known {
            Some(date) => date,
            None => {
                self.data.insert(key, now);
                now
            },
        }
    }

    /// The build date of `source_name`. With new items it is `now`, which is recorded; without,
    /// it is the recorded date, or `now` where none is recorded. Item dates are left alone.
    pub fn resolve_build_date(&mut self, source_name: &str, now: T, has_new: bool) -> (date: T)
        ensures
            (final(self).title_build_date@, date) == build_date_step(
                old(self).title_build_date@,
                source_name@,
                now,
                has_new,
            ),
            final(self).data@ == old(self).data@,
    {
        if has_new {
            self.title_build_date.insert(source_name.to_owned(), now);
            now
        } else {
            match self.title_build_date.get(source_name) {
                Some(date) => *date,
                None => now,
            }
        }
    }
}

/// Rows with the same ISBN and title have the same cache key.
pub proof fn law_cache_key_of_same_book(a: BookRowView, b: BookRowView)
    requires
        a.isbn == b.isbn,
        a.title == b.title,
    ensures
        cache_key(a.isbn, a.title) == cache_key(b.isbn, b.title),
{
}

/// Once a key has been asked for, every later request answers with the same date and changes
/// nothing, whatever the instant of the later request.
pub proof fn law_item_date_is_stable<T>(dates: Map<Seq<char>, T>, key: Seq<char>, first: T, later: T)
    ensures
        ({
            let (recorded, date) = item_date_step(dates, key, first);
            &&& recorded.contains_key(key)
            &&& recorded[key] == date
            &&& item_date_step(recorded, key, later) == (recorded, date)
        }),
{
}

/// Asking for a date never changes or removes a date that is already recorded.
pub proof fn law_item_dates_only_grow<T>(
    dates: Map<Seq<char>, T>,
    key: Seq<char>,
    now: T,
    known: Seq<char>,
)
    requires
        dates.contains_key(known),
    ensures
        item_date_step(dates, key, now).0.contains_key(known),
        item_date_step(dates, key, now).0[known] == dates[known],
{
}

/// A key is new exactly when it is absent: with one key, `some_key_is_new` is the negation of
/// membership; it is false of no keys, and the order of the keys does not matter.
pub proof fn law_new_means_absent<T>(dates: Map<Seq<char>, T>, keys: Seq<Seq<char>>)
    ensures
        some_key_is_new(dates, keys) <==> !(forall|i: int|
            0 <= i < keys.len() ==> dates.contains_key(#[trigger] keys[i])),
        keys.len() == 0 ==> !some_key_is_new(dates, keys),
{
}

/// Without new items a recorded build date is answered unchanged and nothing is recorded; with
/// new items the answer is the present instant, and it is what a later request without new
/// items answers.
pub proof fn law_build_date_is_pinned<T>(
    dates: Map<Seq<char>, T>,
    source: Seq<char>,
    now: T,
    later: T,
)
    ensures
        dates.contains_key(source) ==> build_date_step(dates, source, later, false) == (
            dates,
            dates[source],
        ),
        build_date_step(build_date_step(dates, source, now, true).0, source, later, false).1
            == now,
        build_date_step(dates, source, now, true).1 == now,
{
}

/// The keys of the entries of a cache file, in order.
pub open spec fn entry_keys(entries: Seq<(String, String)>) -> Seq<Seq<char>> {
    Seq::new(entries.len(), |i: int| entries[i].0@)
}

/// Whether the date text `text` can be read: it is well-formed RFC 2822 and its instant is
/// representable.
pub open spec fn is_readable_date(text: Seq<char>) -> bool {
    rfc2822_seconds(text) matches Some(secs) && representable(secs)
}

/// Whether the date of each of `entries` can be read.
pub open spec fn all_readable(entries: Seq<(String, String)>) -> bool {
    forall|i: int| 0 <= i < entries.len() ==> is_readable_date(#[trigger] entries[i].1@)
}

/// The instants that the dates of `entries` denote, in order.
pub open spec fn entry_instants(entries: Seq<(String, String)>) -> Seq<int> {
    Seq::new(entries.len(), |i: int| rfc2822_seconds(entries[i].1@).unwrap())
}

/// The instants of the dates of a map, key by key.
pub open spec fn instants_of(dates: Map<Seq<char>, Timestamp>) -> Map<Seq<char>, int> {
    Map::new(|key: Seq<char>| dates.contains_key(key), |key: Seq<char>| dates[key]@)
}

/// The dates of a cache file, given its entries as pairs of key and RFC 2822 text. Where
/// every date can be read, the map holds each key with its instant, a later entry standing
/// over an earlier one with the same key. Where one cannot, there is no map.
pub fn read_dates(entries: &Vec<(String, String)>) -> (out: Option<StringMap<Timestamp>>)
    ensures
        out.is_some() <==> all_readable(entries@),
        out matches Some(dates) ==> instants_of(dates@) == map_of(
            entry_keys(entries@),
            entry_instants(entries@),
        ),
{
    let ghost keys = entry_keys(entries@);
    let ghost instants = entry_instants(entries@);
    let mut dates: StringMap<Timestamp> = StringMap::new();
    let mut i: usize = 0;
    assert(instants_of(dates@) == map_of(keys.subrange(0, 0), instants.subrange(0, 0)));
    while i < entries.len()
        invariant
            i <= entries.len(),
            keys == entry_keys(entries@),
            instants == entry_instants(entries@),
            forall|k: int| 0 <= k < i ==> is_readable_date(#[trigger] entries@[k].1@),
            instants_of(dates@) == map_of(
                keys.subrange(0, i as int),
                instants.subrange(0, i as int),
            ),
        decreases entries.len() - i,
    {
        let ghost before = dates@;
        match Timestamp::parse_rfc2822(entries[i].1.as_str()) {
            Some(date) => {
                dates.insert(entries[i].0.clone(), date);
                proof {
                    let grown_keys = keys.subrange(0, i + 1);
                    let grown_instants = instants.subrange(0, i + 1);
                    assert(grown_keys.drop_last() == keys.subrange(0, i as int));
                    assert(grown_instants.drop_last() == instants.subrange(0, i as int));
                    assert(instants_of(dates@) == instants_of(before).insert(
                        keys[i as int],
                        date@,
                    ));
                }
            },
            None => {
                assert(!is_readable_date(entries@[i as int].1@));
                return None;
            },
        }
        i = i + 1;
    }
    assert(keys.subrange(0, entries.len() as int) == keys);
    assert(instants.subrange(0, entries.len() as int) == instants);
    Some(dates)
}

/// The instants of `values`, in order.
pub open spec fn instant_seq(values: Seq<Timestamp>) -> Seq<int> {
    Seq::new(values.len(), |i: int| values[i]@)
}

/// Whether the RFC 2822 text of the instant `secs` in UTC reads back as `secs`.
pub open spec fn reads_back(secs: int) -> bool {
    rfc2822_seconds(rfc2822_text(secs, 0)) == Some(secs)
}

/// Whether `entries` are the entries of a cache file for the keys `keys` with the instants
/// `instants`: each key in its place with its date as RFC 2822 text in UTC, and each date
/// representable and reading back as itself.
pub open spec fn are_written(
    entries: Seq<(String, String)>,
    keys: Seq<Seq<char>>,
    instants: Seq<int>,
) -> bool {
    &&& entries.len() == keys.len()
    &&& instants.len() == keys.len()
    &&& entry_keys(entries) == keys
    &&& forall|i: int|
        0 <= i < keys.len() ==> {
            &&& (#[trigger] entries[i]).1@ == rfc2822_text(instants[i], 0)
            &&& representable(instants[i])
            &&& reads_back(instants[i])
        }
}

/// The entries of a cache file for `dates`: each key with its date as RFC 2822 text in UTC,
/// in the order of the keys. Each text is read again before it is handed out; where one does
/// not read back as the instant it was written for, there are no entries, so that what is
/// handed out always loads as the same dates.
pub fn write_dates(dates: &StringMap<Timestamp>) -> (out: Option<Vec<(String, String)>>)
    ensures
        out.is_some() <==> forall|i: int|
            0 <= i < dates.value_seq().len() ==> reads_back(#[trigger] dates.value_seq()[i]@),
        out matches Some(entries) ==> are_written(
            entries@,
            dates.key_seq(),
            instant_seq(dates.value_seq()),
        ),
{
    let n = dates.len();
    let ghost instants = instant_seq(dates.value_seq());
    let mut out: Vec<(String, String)> = Vec::new();
    let mut i: usize = 0;
    while i < n
        invariant
            i <= n,
            n == dates.key_seq().len(),
            n == dates.value_seq().len(),
            instants == instant_seq(dates.value_seq()),
            out.len() == i,
            forall|k: int| 0 <= k < i ==> (#[trigger] out@[k]).0@ == dates.key_seq()[k],
            forall|k: int|
                0 <= k < i ==> {
                    &&& (#[trigger] out@[k]).1@ == rfc2822_text(instants[k], 0)
                    &&& representable(instants[k])
                    &&& reads_back(instants[k])
                },
            forall|k: int| 0 <= k < i ==> reads_back(#[trigger] dates.value_seq()[k]@),
        decreases n - i,
    {
        let date = dates.value_at(i);
        let seconds = date.unix();
        let text = date.to_rfc2822();
        let same = match Timestamp::parse_rfc2822(text.as_str()) {
            Some(read) => read.unix() == seconds,
            None => false,
        };
        if !same {
            assert(!reads_back(dates.value_seq()[i as int]@));
            return None;
        }
        assert(reads_back(instants[i as int]));
        out.push((dates.key_at(i).clone(), text));
        i = i + 1;
    }
    assert(entry_keys(out@) =~= dates.key_seq());
    Some(out)
}

/// The instants of the map of some keys and dates are the map of the keys and the dates'
/// instants.
pub proof fn lemma_instants_of_map(keys: Seq<Seq<char>>, values: Seq<Timestamp>)
    requires
        keys.len() == values.len(),
    ensures
        instants_of(map_of(keys, values)) == map_of(keys, instant_seq(values)),
    decreases keys.len(),
{
    if keys.len() == 0 {
        assert(instants_of(map_of(keys, values)) == Map::<Seq<char>, int>::empty());
    } else {
        lemma_instants_of_map(keys.drop_last(), values.drop_last());
        assert(instant_seq(values).drop_last() == instant_seq(values.drop_last()));
        assert(instant_seq(values).last() == values.last()@);
        assert(instants_of(map_of(keys, values)) == instants_of(
            map_of(keys.drop_last(), values.drop_last()),
        ).insert(keys.last(), values.last()@));
    }
}

/// A cache that was written out reads back as the same dates under the same keys: every
/// written date is readable, and the map that reading them gives holds each key of `dates`
/// with the instant of its date, and no other key. `entries` is what `write_dates` handed
/// out for `dates`.
pub proof fn law_written_dates_read_back(dates: StringMap<Timestamp>, entries: Seq<(String, String)>)
    requires
        dates.key_seq().len() == dates.value_seq().len(),
        are_written(entries, dates.key_seq(), instant_seq(dates.value_seq())),
    ensures
        all_readable(entries),
        map_of(entry_keys(entries), entry_instants(entries)) == instants_of(dates@),
{
    let keys = dates.key_seq();
    let instants = instant_seq(dates.value_seq());
    assert forall|i: int| 0 <= i < entries.len() implies is_readable_date(
        #[trigger] entries[i].1@,
    ) by {
        let entry = entries[i];
        assert(entry.1@ == rfc2822_text(instants[i], 0) && representable(instants[i])
            && reads_back(instants[i]));
    }
    assert(entry_instants(entries) =~= instants) by {
        assert forall|i: int| 0 <= i < instants.len() implies entry_instants(entries)[i]
            == instants[i] by {
            let entry = entries[i];
            assert(entry.1@ == rfc2822_text(instants[i], 0) && reads_back(instants[i]));
        }
    }
    dates.lemma_entries();
    lemma_instants_of_map(keys, dates.value_seq());
}

/// The entries of a map, inserted again in their order into an empty map, give the map:
/// nothing is lost or changed by taking a cache apart and putting it together.
pub proof fn law_entries_make_the_map<T>(dates: StringMap<T>)
    requires
        dates.key_seq().len() == dates.value_seq().len(),
    ensures
        map_of(dates.key_seq(), dates.value_seq()) == dates@,
        forall|key: Seq<char>| dates@.contains_key(key) <==> dates.key_seq().contains(key),
{
    dates.lemma_entries();
}

} // verus!
