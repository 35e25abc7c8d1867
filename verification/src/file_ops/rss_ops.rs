//! Assembling the feed of one source from its rows and the remembered dates.

use vstd::prelude::*;
use crate::requests::get_data::{query_string, query_text};
use crate::rss::write::{Channel, ChannelView, EnclosureView, ImageView, Item, ItemView};
use crate::sorting::{sort_strings, sorted_texts};
use crate::text::{join, join_spec, views};
use crate::types::book::{row_views, BookRow, BookRowView};
use crate::types::watchlist::WatchlistEntry;
use crate::utils::cache::{
    build_date_step, cache_key, cache_keys, generate_cache_key, item_date_step, some_key_is_new,
    Cache,
};
use crate::utils::time::Timestamp;
use crate::utils::url::{get_mime_type, mime_type_spec};

verus! {

/// The link that every channel and item carries.
pub open spec fn feed_link() -> Seq<char> {
    "https://github.com/Irilith/VBT"@
}

/// The description of the channel of the source `name`.
pub open spec fn channel_description(name: Seq<char>) -> Seq<char> {
    "VBT feed for: "@ + name
}

/// The alternative titles as they stand in a description: in ascending order, with a comma
/// and a space between neighbours.
pub open spec fn alt_titles_text(titles: Seq<Seq<char>>) -> Seq<char> {
    join_spec(sorted_texts(titles), ", "@)
}

/// The description of the item of `row`.
pub open spec fn item_description(row: BookRowView, alt_titles: Seq<char>) -> Seq<char> {
    "Author: "@ + row.author + " | Translator: "@ + row.translator + " | ISBN: "@ + row.isbn
        + " | Alternative Titles: "@ + alt_titles
}

/// The identifier of the item with the title `title`: the address of a search for the title.
pub open spec fn item_guid(title: Seq<char>) -> Seq<char> {
    "https://ppdvn.gov.vn/web/guest/ke-hoach-xuat-ban?query="@ + query_text(title)
}

/// The item of `row` in the feed of a source with the cover `cover`, dated `date`.
pub open spec fn feed_item(
    row: BookRowView,
    cover: Seq<char>,
    alt_titles: Seq<char>,
    date: int,
) -> ItemView {
    ItemView {
        title: row.title,
        link: feed_link(),
        description: item_description(row, alt_titles),
        enclosure: Some(EnclosureView { url: cover, length: 0, mime_type: mime_type_spec(cover) }),
        guid: item_guid(row.title),
        pub_date: date,
    }
}

/// The item dates after the dates of `rows` have been asked for one by one at `now`.
pub open spec fn dates_after(
    dates: Map<Seq<char>, Timestamp>,
    rows: Seq<BookRowView>,
    now: Timestamp,
) -> Map<Seq<char>, Timestamp>
    decreases rows.len(),
{
    if rows.len() == 0 {
        dates
    } else {
        item_date_step(
            dates_after(dates, rows.drop_last(), now),
            cache_key(rows.last().isbn, rows.last().title),
            now,
        ).0
    }
}

/// The date of the last of `rows`, asked for at `now` after the dates of the rows before it.
pub open spec fn last_date(
    dates: Map<Seq<char>, Timestamp>,
    rows: Seq<BookRowView>,
    now: Timestamp,
) -> Timestamp
    recommends
        rows.len() > 0,
{
    item_date_step(
        dates_after(dates, rows.drop_last(), now),
        cache_key(rows.last().isbn, rows.last().title),
        now,
    ).1
}

/// The items of `rows`, in order, each dated as `dates` and `now` say at its turn.
pub open spec fn feed_items(
    dates: Map<Seq<char>, Timestamp>,
    rows: Seq<BookRowView>,
    cover: Seq<char>,
    alt_titles: Seq<char>,
    now: Timestamp,
) -> Seq<ItemView>
    decreases rows.len(),
{
    if rows.len() == 0 {
        Seq::empty()
    } else {
        feed_items(dates, rows.drop_last(), cover, alt_titles, now).push(
            feed_item(rows.last(), cover, alt_titles, last_date(dates, rows, now)@),
        )
    }
}

/// The channel of the source `name` for `rows` at `now`, against the item dates `dates` and
/// the build dates `builds` as they stood before. The build date moves to `now` exactly when
/// one of the rows has no date yet.
pub open spec fn feed_channel(
    rows: Seq<BookRowView>,
    name: Seq<char>,
    cover: Seq<char>,
    titles: Seq<Seq<char>>,
    dates: Map<Seq<char>, Timestamp>,
    builds: Map<Seq<char>, Timestamp>,
    now: Timestamp,
) -> ChannelView {
    ChannelView {
        title: name,
        link: feed_link(),
        description: channel_description(name),
        image: Some(ImageView { url: cover, title: name, link: feed_link() }),
        pub_date: now@,
        last_build_date: build_date_step(
            builds,
            name,
            now,
            some_key_is_new(dates, cache_keys(rows)),
        ).1@,
        items: feed_items(dates, rows, cover, alt_titles_text(titles), now),
    }
}

/// The cache keys of `books`, in order.
pub fn cache_keys_of(books: &Vec<BookRow>) -> (keys: Vec<String>)
    ensures
        views(keys@) == cache_keys(row_views(books@)),
{
    let mut keys: Vec<String> = Vec::new();
    let mut i: usize = 0;
    while i < books.len()
        invariant
            i <= books.len(),
            keys.len() == i,
            forall|k: int| 0 <= k < i ==> keys@[k]@ == cache_key(books@[k]@.isbn, books@[k]@.title),
        decreases books.len() - i,
    {
        keys.push(generate_cache_key(&books[i]));
        i = i + 1;
    }
    assert(views(keys@) =~= cache_keys(row_views(books@)));
    keys
}

/// The alternative titles of `entry` as they stand in a description.
pub fn alt_titles(entry: &WatchlistEntry) -> (out: String)
    ensures
        out@ == alt_titles_text(views(entry.other.value_seq())),
{
    let mut titles: Vec<String> = Vec::new();
    let n = entry.other.len();
    let mut i: usize = 0;
    while i < n
        invariant
            i <= n,
            n == entry.other.value_seq().len(),
            titles.len() == i,
            forall|k: int| 0 <= k < i ==> titles@[k]@ == entry.other.value_seq()[k]@,
        decreases n - i,
    {
        titles.push(entry.other.value_at(i).clone());
        i = i + 1;
    }
    assert(views(titles@) =~= views(entry.other.value_seq()));
    let sorted = sort_strings(&titles);
    join(&sorted, ", ")
}

/// The description of the item of `book`.
fn describe(book: &BookRow, alt_titles: &str) -> (out: String)
    ensures
        out@ == item_description(book@, alt_titles@),
{
    let mut out = String::from_str("Author: ");
    out.append(book.author.as_str());
    out.append(" | Translator: ");
    out.append(book.translator.as_str());
    out.append(" | ISBN: ");
    out.append(book.isbn.as_str());
    out.append(" | Alternative Titles: ");
    out.append(alt_titles);
    out
}

/// The identifier of the item with the title `title`.
fn guid_of(title: &str) -> (out: String)
    ensures
        out@ == item_guid(title@),
{
    let mut out = String::from_str("https://ppdvn.gov.vn/web/guest/ke-hoach-xuat-ban?query=");
    out.append(query_string(title).as_str());
    out
}

/// The feed of `entry` for `books` at `now`. Whether there are new items is judged against
/// the cache as it stands on entry; then the build date is settled, then each item's date in
/// the order of the rows. The cache leaves with every row's date recorded.
pub fn generate_rss(
    books: &Vec<BookRow>,
    entry: &WatchlistEntry,
    cache: &mut Cache<Timestamp>,
    now: Timestamp,
) -> (channel: Channel)
    ensures
        channel@ == feed_channel(
            row_views(books@),
            entry.name@,
            entry.cover@,
            views(entry.other.value_seq()),
            old(cache).data@,
            old(cache).title_build_date@,
            now,
        ),
        final(cache).data@ == dates_after(old(cache).data@, row_views(books@), now),
        final(cache).title_build_date@ == build_date_step(
            old(cache).title_build_date@,
            entry.name@,
            now,
            some_key_is_new(old(cache).data@, cache_keys(row_views(books@))),
        ).0,
{
    let ghost rows = row_views(books@);
    let ghost dates = cache.data@;
    let ghost builds = cache.title_build_date@;
    let keys = cache_keys_of(books);
    let has_new = cache.has_new_items(&keys);
    let build_date = cache.resolve_build_date(entry.name.as_str(), now, has_new);
    let alt = alt_titles(entry);
    let ghost wanted = feed_channel(
        rows,
        entry.name@,
        entry.cover@,
        views(entry.other.value_seq()),
        dates,
        builds,
        now,
    );
    let mut description = String::from_str("VBT feed for: ");
    description.append(entry.name.as_str());
    let mut channel = Channel::new(
        entry.name.as_str(),
        "https://github.com/Irilith/VBT",
        description.as_str(),
    ).image(
        entry.cover.as_str(),
        entry.name.as_str(),
        "https://github.com/Irilith/VBT",
    ).pub_date(now).last_build_date(build_date);
    let mut i: usize = 0;
    assert(rows.subrange(0, 0) == Seq::<BookRowView>::empty());
    assert(channel@ == (ChannelView { items: Seq::<ItemView>::empty(), ..wanted }));
    while i < books.len()
        invariant
            i <= books.len(),
            rows == row_views(books@),
            cache.title_build_date@ == build_date_step(
                builds,
                entry.name@,
                now,
                some_key_is_new(dates, cache_keys(rows)),
            ).0,
            cache.data@ == dates_after(dates, rows.subrange(0, i as int), now),
            channel@ == (ChannelView {
                items: feed_items(
                    dates,
                    rows.subrange(0, i as int),
                    entry.cover@,
                    alt@,
                    now,
                ),
                ..wanted
            }),
            alt@ == alt_titles_text(views(entry.other.value_seq())),
        decreases books.len() - i,
    {
        let ghost before = rows.subrange(0, i as int);
        let ghost after = rows.subrange(0, i + 1);
        let book = &books[i];
        proof {
            assert(after.drop_last() == before);
            assert(after.last() == book@);
        }
        let date = cache.resolve_item_date(generate_cache_key(book), now);
        let item = Item::new(
            book.title.as_str(),
            "https://github.com/Irilith/VBT",
            describe(book, alt.as_str()).as_str(),
            guid_of(book.title.as_str()).as_str(),
        ).enclosure(entry.cover.as_str(), 0, get_mime_type(entry.cover.as_str())).pub_date(date);
        assert(item@ == feed_item(book@, entry.cover@, alt@, last_date(dates, after, now)@));
        channel = channel.item(item);
        i = i + 1;
    }
    assert(rows.subrange(0, books.len() as int) == rows);
    channel
}

/// Asking for the dates of `first` and then of `second` is asking for the dates of both in
/// one go.
pub proof fn lemma_dates_after_concat(
    dates: Map<Seq<char>, Timestamp>,
    first: Seq<BookRowView>,
    second: Seq<BookRowView>,
    now: Timestamp,
)
    ensures
        dates_after(dates, first + second, now) == dates_after(
            dates_after(dates, first, now),
            second,
            now,
        ),
    decreases second.len(),
{
    if second.len() == 0 {
        assert(first + second == first);
    } else {
        lemma_dates_after_concat(dates, first, second.drop_last(), now);
        assert((first + second).drop_last() == first + second.drop_last());
        assert((first + second).last() == second.last());
    }
}

/// Asking for dates keeps every date on record, and leaves every row's key with a date.
pub proof fn lemma_dates_after_keeps(
    dates: Map<Seq<char>, Timestamp>,
    rows: Seq<BookRowView>,
    now: Timestamp,
)
    ensures
        forall|key: Seq<char>| #[trigger]
            dates.contains_key(key) ==> dates_after(dates, rows, now).contains_key(key)
                && dates_after(dates, rows, now)[key] == dates[key],
        forall|i: int|
            0 <= i < rows.len() ==> dates_after(dates, rows, now).contains_key(
                #[trigger] cache_keys(rows)[i],
            ),
    decreases rows.len(),
{
    if rows.len() > 0 {
        let front = rows.drop_last();
        lemma_dates_after_keeps(dates, front, now);
        assert forall|i: int| 0 <= i < rows.len() implies dates_after(
            dates,
            rows,
            now,
        ).contains_key(#[trigger] cache_keys(rows)[i]) by {
            if i < rows.len() - 1 {
                assert(cache_keys(front)[i] == cache_keys(rows)[i]);
            }
        }
    }
}

/// Where every row's key has a date, asking for the dates changes nothing.
pub proof fn lemma_dates_after_known(
    dates: Map<Seq<char>, Timestamp>,
    rows: Seq<BookRowView>,
    now: Timestamp,
)
    requires
        forall|i: int| 0 <= i < rows.len() ==> dates.contains_key(#[trigger] cache_keys(rows)[i]),
    ensures
        dates_after(dates, rows, now) == dates,
    decreases rows.len(),
{
    if rows.len() > 0 {
        let front = rows.drop_last();
        assert forall|i: int| 0 <= i < front.len() implies dates.contains_key(
            #[trigger] cache_keys(front)[i],
        ) by {
            assert(cache_keys(front)[i] == cache_keys(rows)[i]);
        }
        lemma_dates_after_known(dates, front, now);
        assert(cache_keys(rows)[rows.len() - 1] == cache_key(rows.last().isbn, rows.last().title));
    }
}

/// The items of the first rows of a longer list are the items of those rows alone.
pub proof fn lemma_feed_items_prefix(
    dates: Map<Seq<char>, Timestamp>,
    first: Seq<BookRowView>,
    second: Seq<BookRowView>,
    cover: Seq<char>,
    alt_titles: Seq<char>,
    now: Timestamp,
)
    ensures
        feed_items(dates, first + second, cover, alt_titles, now).len() == first.len()
            + second.len(),
        feed_items(dates, first + second, cover, alt_titles, now).subrange(
            0,
            first.len() as int,
        ) == feed_items(dates, first, cover, alt_titles, now),
    decreases second.len(),
{
    if second.len() == 0 {
        assert(first + second == first);
        lemma_feed_items_len(dates, first, cover, alt_titles, now);
        assert(feed_items(dates, first, cover, alt_titles, now).subrange(0, first.len() as int)
            == feed_items(dates, first, cover, alt_titles, now));
    } else {
        lemma_feed_items_prefix(dates, first, second.drop_last(), cover, alt_titles, now);
        assert((first + second).drop_last() == first + second.drop_last());
        let shorter = feed_items(dates, first + second.drop_last(), cover, alt_titles, now);
        let longer = feed_items(dates, first + second, cover, alt_titles, now);
        assert(longer.subrange(0, first.len() as int) == shorter.subrange(0, first.len() as int));
    }
}

/// There is one item for each row.
pub proof fn lemma_feed_items_len(
    dates: Map<Seq<char>, Timestamp>,
    rows: Seq<BookRowView>,
    cover: Seq<char>,
    alt_titles: Seq<char>,
    now: Timestamp,
)
    ensures
        feed_items(dates, rows, cover, alt_titles, now).len() == rows.len(),
    decreases rows.len(),
{
    if rows.len() > 0 {
        lemma_feed_items_len(dates, rows.drop_last(), cover, alt_titles, now);
    }
}

/// The date that the row at index `i` is given at its turn is the date on record under its
/// key once all rows have had their turn.
pub proof fn lemma_recorded_date(
    dates: Map<Seq<char>, Timestamp>,
    rows: Seq<BookRowView>,
    i: int,
    now: Timestamp,
)
    requires
        0 <= i < rows.len(),
    ensures
        dates_after(dates, rows, now).contains_key(cache_keys(rows)[i]),
        dates_after(dates, rows, now)[cache_keys(rows)[i]] == last_date(
            dates,
            rows.subrange(0, i + 1),
            now,
        ),
{
    let part = rows.subrange(0, i + 1);
    let rest = rows.subrange(i + 1, rows.len() as int);
    let key = cache_key(part.last().isbn, part.last().title);
    let at_turn = dates_after(dates, part, now);
    assert(cache_keys(rows)[i] == key);
    assert(at_turn.contains_key(key) && at_turn[key] == last_date(dates, part, now));
    assert(part + rest == rows);
    lemma_dates_after_concat(dates, part, rest, now);
    lemma_dates_after_keeps(at_turn, rest, now);
}

/// After a run at `first` on `rows`, a run at `second` dates the first `n` rows as the run
/// at `first` did.
proof fn lemma_items_repeat(
    dates: Map<Seq<char>, Timestamp>,
    rows: Seq<BookRowView>,
    n: int,
    cover: Seq<char>,
    alt_titles: Seq<char>,
    first: Timestamp,
    second: Timestamp,
)
    requires
        0 <= n <= rows.len(),
    ensures
        feed_items(dates_after(dates, rows, first), rows.subrange(0, n), cover, alt_titles, second)
            == feed_items(dates, rows.subrange(0, n), cover, alt_titles, first),
    decreases n,
{
    if n > 0 {
        let recorded = dates_after(dates, rows, first);
        let part = rows.subrange(0, n);
        let front = part.drop_last();
        let key = cache_key(part.last().isbn, part.last().title);
        assert(front == rows.subrange(0, n - 1));
        lemma_items_repeat(dates, rows, n - 1, cover, alt_titles, first, second);
        // The second run finds every key of the rows on record.
        lemma_dates_after_keeps(dates, rows, first);
        assert forall|i: int| 0 <= i < front.len() implies recorded.contains_key(
            #[trigger] cache_keys(front)[i],
        ) by {
            assert(cache_keys(front)[i] == cache_keys(rows)[i]);
        }
        lemma_dates_after_known(recorded, front, second);
        assert(cache_keys(rows)[n - 1] == key);
        assert(last_date(recorded, part, second) == recorded[key]);
        // The first run recorded under the key the date that it answered with.
        lemma_recorded_date(dates, rows, n - 1, first);
    }
}

/// Every item of a feed carries the date that is on record under its key when the run is
/// over, and a run changes no date that was on record before it.
pub proof fn law_emitted_dates_are_on_record(
    dates: Map<Seq<char>, Timestamp>,
    rows: Seq<BookRowView>,
    cover: Seq<char>,
    alt_titles: Seq<char>,
    now: Timestamp,
)
    ensures
        feed_items(dates, rows, cover, alt_titles, now).len() == rows.len(),
        forall|i: int|
            0 <= i < rows.len() ==> {
                let key = #[trigger] cache_keys(rows)[i];
                &&& dates_after(dates, rows, now).contains_key(key)
                &&& feed_items(dates, rows, cover, alt_titles, now)[i].pub_date == dates_after(
                    dates,
                    rows,
                    now,
                )[key]@
            },
        forall|key: Seq<char>| #[trigger]
            dates.contains_key(key) ==> dates_after(dates, rows, now).contains_key(key)
                && dates_after(dates, rows, now)[key] == dates[key],
{
    lemma_feed_items_len(dates, rows, cover, alt_titles, now);
    lemma_dates_after_keeps(dates, rows, now);
    assert forall|i: int| 0 <= i < rows.len() implies {
        let key = #[trigger] cache_keys(rows)[i];
        &&& dates_after(dates, rows, now).contains_key(key)
        &&& feed_items(dates, rows, cover, alt_titles, now)[i].pub_date == dates_after(
            dates,
            rows,
            now,
        )[key]@
    } by {
        let part = rows.subrange(0, i + 1);
        let rest = rows.subrange(i + 1, rows.len() as int);
        assert(part + rest == rows);
        lemma_feed_items_prefix(dates, part, rest, cover, alt_titles, now);
        lemma_feed_items_len(dates, part, cover, alt_titles, now);
        let items = feed_items(dates, rows, cover, alt_titles, now);
        assert(items[i] == items.subrange(0, i + 1)[i]);
        lemma_recorded_date(dates, rows, i, now);
    }
}

/// A run that follows another on the same rows repeats every item with its date and finds
/// no new item. It repeats the build date too, provided that the first run found a new item
/// or a build date of the source was on record.
pub proof fn law_same_rows_pin_the_dates(
    rows: Seq<BookRowView>,
    name: Seq<char>,
    cover: Seq<char>,
    titles: Seq<Seq<char>>,
    dates: Map<Seq<char>, Timestamp>,
    builds: Map<Seq<char>, Timestamp>,
    first: Timestamp,
    second: Timestamp,
)
    ensures
        ({
            let had_new = some_key_is_new(dates, cache_keys(rows));
            let before = feed_channel(rows, name, cover, titles, dates, builds, first);
            let recorded = dates_after(dates, rows, first);
            let built = build_date_step(builds, name, first, had_new).0;
            let after = feed_channel(rows, name, cover, titles, recorded, built, second);
            &&& !some_key_is_new(recorded, cache_keys(rows))
            &&& after.items == before.items
            &&& had_new || builds.contains_key(name) ==> after.last_build_date
                == before.last_build_date
        }),
{
    lemma_dates_after_keeps(dates, rows, first);
    lemma_items_repeat(
        dates,
        rows,
        rows.len() as int,
        cover,
        alt_titles_text(titles),
        first,
        second,
    );
    assert(rows.subrange(0, rows.len() as int) == rows);
}

/// A run that follows another with rows added behind the old ones, at least one of them
/// unknown, builds at its own instant, and repeats the old items with their dates.
pub proof fn law_new_row_moves_the_build_date(
    rows: Seq<BookRowView>,
    added: Seq<BookRowView>,
    name: Seq<char>,
    cover: Seq<char>,
    titles: Seq<Seq<char>>,
    dates: Map<Seq<char>, Timestamp>,
    builds: Map<Seq<char>, Timestamp>,
    first: Timestamp,
    second: Timestamp,
)
    requires
        some_key_is_new(dates_after(dates, rows, first), cache_keys(added)),
    ensures
        ({
            let had_new = some_key_is_new(dates, cache_keys(rows));
            let before = feed_channel(rows, name, cover, titles, dates, builds, first);
            let recorded = dates_after(dates, rows, first);
            let built = build_date_step(builds, name, first, had_new).0;
            let after = feed_channel(rows + added, name, cover, titles, recorded, built, second);
            &&& after.last_build_date == second@
            &&& after.items.len() == rows.len() + added.len()
            &&& after.items.subrange(0, rows.len() as int) == before.items
        }),
{
    let recorded = dates_after(dates, rows, first);
    let alt = alt_titles_text(titles);
    let i = choose|i: int|
        0 <= i < cache_keys(added).len() && !recorded.contains_key(#[trigger] cache_keys(added)[i]);
    assert(cache_keys(rows + added)[rows.len() + i] == cache_keys(added)[i]);
    assert(some_key_is_new(recorded, cache_keys(rows + added)));
    lemma_feed_items_prefix(recorded, rows, added, cover, alt, second);
    lemma_items_repeat(dates, rows, rows.len() as int, cover, alt, first, second);
    assert(rows.subrange(0, rows.len() as int) == rows);
}

} // verus!
