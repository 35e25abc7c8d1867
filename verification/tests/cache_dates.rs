use vbt::types::book::BookRow;
use vbt::utils::cache::{generate_cache_key, read_dates, write_dates, Cache};
use vbt::utils::string_map::StringMap;
use vbt::utils::time::Timestamp;

fn row(isbn: &str, title: &str, author: &str) -> BookRow {
    BookRow {
        stt: "1".to_string(),
        isbn: isbn.to_string(),
        title: title.to_string(),
        author: author.to_string(),
        translator: "tr".to_string(),
        quantity: "1000".to_string(),
        self_published: "".to_string(),
        partner: "p".to_string(),
        registration_number: "r".to_string(),
    }
}

fn at(secs: i64) -> Timestamp {
    Timestamp::from_unix(secs).unwrap()
}

#[test]
fn cache_key_is_isbn_hyphen_title() {
    assert_eq!(generate_cache_key(&row("123", "Book One", "a")), "123-Book One");
    assert_eq!(generate_cache_key(&row("", "", "a")), "-");
    assert_eq!(generate_cache_key(&row("a-b", "c", "a")), "a-b-c");
}

#[test]
fn rows_with_the_same_isbn_and_title_share_a_key() {
    let first = row("123", "Book One", "someone");
    let second = row("123", "Book One", "someone else");
    assert_eq!(generate_cache_key(&first), generate_cache_key(&second));
    assert_ne!(generate_cache_key(&first), generate_cache_key(&row("124", "Book One", "someone")));
}

#[test]
fn item_date_is_the_first_one_seen() {
    let mut cache: Cache<Timestamp> = Cache::new();
    let first = cache.resolve_item_date("123-Book One".to_string(), at(100));
    assert_eq!(first, at(100));
    let again = cache.resolve_item_date("123-Book One".to_string(), at(200));
    assert_eq!(again, at(100));
    let third = cache.resolve_item_date("123-Book One".to_string(), at(50));
    assert_eq!(third, at(100));
    assert_eq!(cache.data.len(), 1);
    assert_eq!(cache.title_build_date.len(), 0);
}

#[test]
fn item_dates_of_other_keys_are_left_alone() {
    let mut cache: Cache<Timestamp> = Cache::new();
    cache.resolve_item_date("a".to_string(), at(1));
    cache.resolve_item_date("b".to_string(), at(2));
    assert_eq!(cache.data.get("a"), Some(&at(1)));
    assert_eq!(cache.data.get("b"), Some(&at(2)));
    assert_eq!(cache.data.get("c"), None);
}

#[test]
fn has_new_items_is_true_iff_a_key_is_absent() {
    let mut cache: Cache<Timestamp> = Cache::new();
    let none: Vec<String> = vec![];
    assert!(!cache.has_new_items(&none));
    assert!(cache.has_new_items(&vec!["a".to_string()]));
    cache.resolve_item_date("a".to_string(), at(1));
    assert!(!cache.has_new_items(&vec!["a".to_string()]));
    assert!(!cache.has_new_items(&vec!["a".to_string(), "a".to_string()]));
    assert!(cache.has_new_items(&vec!["a".to_string(), "b".to_string()]));
    assert!(cache.has_new_items(&vec!["b".to_string(), "a".to_string()]));
}

#[test]
fn has_new_items_does_not_change_the_cache() {
    let mut cache: Cache<Timestamp> = Cache::new();
    cache.resolve_item_date("a".to_string(), at(1));
    assert!(cache.has_new_items(&vec!["b".to_string()]));
    assert_eq!(cache.data.len(), 1);
    assert!(!cache.data.contains_key("b"));
    assert!(cache.has_new_items(&vec!["b".to_string()]));
}

#[test]
fn build_date_moves_only_with_new_items() {
    let mut cache: Cache<Timestamp> = Cache::new();
    assert_eq!(cache.resolve_build_date("Alpha", at(10), false), at(10));
    assert_eq!(cache.title_build_date.len(), 0);
    assert_eq!(cache.resolve_build_date("Alpha", at(20), true), at(20));
    assert_eq!(cache.title_build_date.get("Alpha"), Some(&at(20)));
    assert_eq!(cache.resolve_build_date("Alpha", at(30), false), at(20));
    assert_eq!(cache.resolve_build_date("Alpha", at(40), true), at(40));
    assert_eq!(cache.resolve_build_date("Alpha", at(50), false), at(40));
    assert_eq!(cache.resolve_build_date("Beta", at(60), false), at(60));
    assert_eq!(cache.data.len(), 0);
}

#[test]
fn map_keeps_insertion_order_and_replaces_in_place() {
    let mut map: StringMap<u32> = StringMap::new();
    map.insert("b".to_string(), 1);
    map.insert("a".to_string(), 2);
    map.insert("b".to_string(), 3);
    assert_eq!(map.len(), 2);
    assert_eq!(map.key_at(0), "b");
    assert_eq!(map.key_at(1), "a");
    assert_eq!(*map.value_at(0), 3);
    assert_eq!(*map.value_at(1), 2);
    assert_eq!(map.position("a"), Some(1));
    assert_eq!(map.position("c"), None);
    assert!(map.contains_key("a"));
    assert!(!map.contains_key(""));
}

#[test]
fn written_dates_are_rfc2822_in_key_order() {
    let mut map: StringMap<Timestamp> = StringMap::new();
    map.insert("123-Book One".to_string(), at(1_431_648_000));
    map.insert("9-Z".to_string(), at(0));
    let entries = write_dates(&map).unwrap();
    assert_eq!(
        entries,
        vec![
            ("123-Book One".to_string(), "Fri, 15 May 2015 00:00:00 +0000".to_string()),
            ("9-Z".to_string(), "Thu, 1 Jan 1970 00:00:00 +0000".to_string()),
        ]
    );
}

#[test]
fn saved_cache_loads_equal() {
    let mut cache: Cache<Timestamp> = Cache::new();
    cache.resolve_item_date("123-Book One".to_string(), at(1_700_000_000));
    cache.resolve_item_date("456-Book Two".to_string(), at(1_700_000_777));
    cache.resolve_build_date("Alpha", at(1_700_000_777), true);
    let data = read_dates(&write_dates(&cache.data).unwrap()).unwrap();
    let builds = read_dates(&write_dates(&cache.title_build_date).unwrap()).unwrap();
    assert_eq!(data.len(), 2);
    assert_eq!(data.get("123-Book One"), Some(&at(1_700_000_000)));
    assert_eq!(data.get("456-Book Two"), Some(&at(1_700_000_777)));
    assert_eq!(data.key_at(0), "123-Book One");
    assert_eq!(builds.len(), 1);
    assert_eq!(builds.get("Alpha"), Some(&at(1_700_000_777)));
    let mut loaded = Cache { data, title_build_date: builds };
    assert_eq!(loaded.resolve_item_date("123-Book One".to_string(), at(1_800_000_000)), at(1_700_000_000));
    assert_eq!(loaded.resolve_build_date("Alpha", at(1_800_000_000), false), at(1_700_000_777));
}

#[test]
fn read_dates_gives_nothing_when_a_date_is_unreadable() {
    let entries = vec![
        ("a".to_string(), "Fri, 15 May 2015 00:00:00 +0000".to_string()),
        ("b".to_string(), "not a date".to_string()),
    ];
    assert!(read_dates(&entries).is_none());
    let none: Vec<(String, String)> = vec![];
    assert_eq!(read_dates(&none).unwrap().len(), 0);
}

#[test]
fn read_dates_lets_the_later_entry_stand() {
    let entries = vec![
        ("a".to_string(), "Fri, 15 May 2015 00:00:00 +0000".to_string()),
        ("a".to_string(), "Thu, 1 Jan 1970 00:00:00 +0000".to_string()),
    ];
    let dates = read_dates(&entries).unwrap();
    assert_eq!(dates.len(), 1);
    assert_eq!(dates.get("a"), Some(&at(0)));
}

#[test]
fn written_dates_keep_keys_and_instants_at_the_bounds() {
    let mut map: StringMap<Timestamp> = StringMap::new();
    map.insert("first".to_string(), at(vbt::utils::time::MIN_UNIX_SECONDS));
    map.insert("last".to_string(), at(vbt::utils::time::MAX_UNIX_SECONDS));
    map.insert("epoch".to_string(), at(0));
    match write_dates(&map) {
        Some(entries) => {
            let read = read_dates(&entries).unwrap();
            assert_eq!(read.len(), 3);
            assert_eq!(read.get("first"), map.get("first"));
            assert_eq!(read.get("last"), map.get("last"));
            assert_eq!(read.get("epoch"), map.get("epoch"));
        }
        None => {
            let unreadable = [at(vbt::utils::time::MIN_UNIX_SECONDS), at(vbt::utils::time::MAX_UNIX_SECONDS)]
                .iter()
                .any(|date| Timestamp::parse_rfc2822(&date.to_rfc2822()) != Some(*date));
            assert!(unreadable);
        }
    }
}

#[test]
fn empty_map_writes_no_entries() {
    let map: StringMap<Timestamp> = StringMap::new();
    assert_eq!(write_dates(&map), Some(vec![]));
}
