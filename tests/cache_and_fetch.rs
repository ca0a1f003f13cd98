use shuffler::cache::{
    cache_playlist, decide_cache, handle_cache, record_age, restore_all, store_record,
    CacheDecision, PlaylistCache,
};
use shuffler::fetch::{ContentFetch, Pager, PlaylistListing};
use shuffler::ids::{from_serializable, to_serializable, CacheError, DeconstructedId, IdType, PlayableId};
use shuffler::playlist::{
    default_playlist_name, parse_playlist_id, select_playlist, shuffle_for_upload,
    UserFuckYouError, TRACK_LIMIT,
};

fn track(s: &str) -> PlayableId {
    PlayableId::Track(s.to_string())
}

fn episode(s: &str) -> PlayableId {
    PlayableId::Episode(s.to_string())
}

fn flat(s: &str, kind: IdType) -> DeconstructedId {
    DeconstructedId { id: s.to_string(), kind }
}

#[test]
fn round_trip_keeps_kind_and_id() {
    for p in [track("4iV5W9uYEdYUVa79Axb7Rh"), episode("512ojhOuo1ktJprKbVcKyQ"), track("")] {
        let d = to_serializable(&p);
        assert_eq!(d.id, p.id());
        assert_eq!(d.kind, p.kind());
        assert_eq!(from_serializable(&d), Ok(p));
    }
}

#[test]
fn to_serializable_tags_the_kind() {
    assert_eq!(to_serializable(&track("abc")), flat("abc", IdType::Track));
    assert_eq!(to_serializable(&episode("abc")), flat("abc", IdType::Episode));
}

#[test]
fn reconstruction_failure_is_malformed() {
    let d = flat("not-a-valid-id", IdType::Track);
    assert_eq!(from_serializable(&d), Err(CacheError::MalformedIdentifier));
    let e = flat("spotify:episode:abc", IdType::Episode);
    assert_eq!(from_serializable(&e), Err(CacheError::MalformedIdentifier));
}

#[test]
fn explicit_use_returns_items_without_asking() {
    let now: i64 = 1_700_000_000;
    let mut store = PlaylistCache::new();
    let ids = vec![flat("aaa", IdType::Track), flat("bbb", IdType::Episode)];
    store_record(&mut store, "playlistA".to_string(), ids, now - 10);
    match decide_cache("playlistA", Some(true), &store, now) {
        Ok(CacheDecision::Use(v)) => assert_eq!(v, vec![track("aaa"), episode("bbb")]),
        other => panic!("unexpected {:?}", other),
    }
    match handle_cache("playlistA", Some(true), &store) {
        Ok(CacheDecision::Use(v)) => assert_eq!(v, vec![track("aaa"), episode("bbb")]),
        other => panic!("unexpected {:?}", other),
    }
}

#[test]
fn cache_miss_is_no_entry() {
    let store = PlaylistCache::new();
    assert!(matches!(handle_cache("playlist-X", None, &store), Ok(CacheDecision::NoEntry)));
    assert!(matches!(decide_cache("playlist-X", Some(true), &store, 0), Ok(CacheDecision::NoEntry)));
}

#[test]
fn no_choice_asks_with_the_age() {
    let mut store = PlaylistCache::new();
    store_record(&mut store, "p".to_string(), vec![], 1000);
    match decide_cache("p", None, &store, 1010) {
        Ok(CacheDecision::Confirm { age_secs, age_text }) => {
            assert_eq!(age_secs, 10);
            assert_eq!(age_text, "10s");
        }
        other => panic!("unexpected {:?}", other),
    }
    match decide_cache("p", None, &store, 1000 + 3600 + 120) {
        Ok(CacheDecision::Confirm { age_secs, age_text }) => {
            assert_eq!(age_secs, 3720);
            assert_eq!(age_text, "1h 2m");
        }
        other => panic!("unexpected {:?}", other),
    }
}

#[test]
fn negative_age_counts_as_zero() {
    assert_eq!(record_age(100, 200), 0);
    assert_eq!(record_age(200, 100), 100);
    assert_eq!(record_age(i64::MAX, i64::MIN), u64::MAX);
    let mut store = PlaylistCache::new();
    store_record(&mut store, "p".to_string(), vec![], 5000);
    match decide_cache("p", None, &store, 4000) {
        Ok(CacheDecision::Confirm { age_secs, age_text }) => {
            assert_eq!(age_secs, 0);
            assert_eq!(age_text, "0s");
        }
        other => panic!("unexpected {:?}", other),
    }
}

#[test]
fn declined_record_is_not_used() {
    let mut store = PlaylistCache::new();
    store_record(&mut store, "p".to_string(), vec![flat("x", IdType::Track)], 0);
    assert!(matches!(decide_cache("p", Some(false), &store, 5), Ok(CacheDecision::Declined)));
}

#[test]
fn malformed_record_fails_whole_lookup() {
    let mut store = PlaylistCache::new();
    let ids = vec![flat("good1", IdType::Track), flat("bad id", IdType::Track), flat("good2", IdType::Episode)];
    store_record(&mut store, "p".to_string(), ids, 0);
    assert!(matches!(decide_cache("p", Some(true), &store, 5), Err(CacheError::MalformedIdentifier)));
    assert!(matches!(decide_cache("p", Some(false), &store, 5), Ok(CacheDecision::Declined)));
}

#[test]
fn restore_all_keeps_order() {
    let ids = vec![flat("b", IdType::Episode), flat("a", IdType::Track)];
    assert_eq!(restore_all(&ids), Ok(vec![episode("b"), track("a")]));
    assert_eq!(restore_all(&vec![]), Ok(vec![]));
    assert_eq!(restore_all(&vec![flat("a_b", IdType::Track)]), Err(CacheError::MalformedIdentifier));
}

#[test]
fn saving_twice_keeps_one_entry_with_second_save() {
    let mut store = PlaylistCache::new();
    store_record(&mut store, "A".to_string(), vec![flat("one", IdType::Track)], 10);
    store_record(&mut store, "A".to_string(), vec![flat("two", IdType::Episode)], 20);
    assert_eq!(store.len(), 1);
    let rec = store.get("A").unwrap();
    assert_eq!(rec.time, 20);
    assert_eq!(rec.ids, vec![flat("two", IdType::Episode)]);
}

#[test]
fn saving_one_playlist_leaves_another() {
    let mut store = PlaylistCache::new();
    store_record(&mut store, "B".to_string(), vec![flat("bee", IdType::Track)], 7);
    store_record(&mut store, "A".to_string(), vec![flat("ay", IdType::Track)], 9);
    assert_eq!(store.len(), 2);
    let b = store.get("B").unwrap();
    assert_eq!(b.time, 7);
    assert_eq!(b.ids, vec![flat("bee", IdType::Track)]);
    assert!(store.get("C").is_none());
    let (k, r) = store.entry(0);
    assert_eq!(store.get(k).unwrap().time, r.time);
}

#[test]
fn cache_playlist_stamps_a_time() {
    let mut store = PlaylistCache::new();
    cache_playlist(&mut store, "P".to_string(), vec![flat("z", IdType::Track)]);
    let rec = store.get("P").unwrap();
    assert_eq!(rec.ids, vec![flat("z", IdType::Track)]);
    assert!(rec.time > 1_600_000_000);
}

fn page(n: usize, offset: usize) -> Vec<Option<PlayableId>> {
    (0..n).map(|i| Some(track(&format!("t{}", offset + i)))).collect()
}

#[test]
fn pagination_stops_after_short_page() {
    let sizes = [5usize, 5, 5, 3, 5];
    let mut f = ContentFetch::new(5);
    let mut pages = 0;
    let mut offsets = vec![];
    while let Some(offset) = f.next_offset() {
        offsets.push(offset);
        let visited = f.page_fetched(page(sizes[pages], offset as usize));
        assert_eq!(visited, sizes[pages]);
        pages += 1;
    }
    assert_eq!(pages, 4);
    assert_eq!(offsets, vec![0, 5, 10, 15]);
    let (live, flat_ids) = f.into_parts();
    assert_eq!(live.len(), 18);
    assert_eq!(live[17], track("t17"));
    assert_eq!(flat_ids.len(), 18);
    assert_eq!(flat_ids[3], flat("t3", IdType::Track));
}

#[test]
fn item_without_payload_is_skipped_but_visited() {
    let mut f = ContentFetch::new(5);
    let items = vec![Some(track("a")), Some(episode("b")), None, Some(track("d")), Some(track("e"))];
    let visited = f.page_fetched(items);
    assert_eq!(visited, 5);
    assert_eq!(f.track_ids, vec![track("a"), episode("b"), track("d"), track("e")]);
    assert_eq!(f.serializable.len(), 4);
    assert_eq!(f.serializable[1], flat("b", IdType::Episode));
    assert_eq!(f.next_offset(), Some(5));
}

#[test]
fn failed_page_skips_one_page_forward() {
    let mut f = ContentFetch::new(5);
    f.page_fetched(page(5, 0));
    f.page_fetched(page(5, 5));
    assert_eq!(f.next_offset(), Some(10));
    f.page_failed();
    assert_eq!(f.next_offset(), Some(15));
    f.page_fetched(page(2, 15));
    assert_eq!(f.next_offset(), None);
    assert_eq!(f.track_ids.len(), 12);
}

#[test]
fn pager_ends_when_offset_would_overflow() {
    let mut p = Pager { offset: u32::MAX - 3, limit: 5, done: false };
    p.page_received(5);
    assert!(p.done);
    assert_eq!(p.next_offset(), None);
    let mut q = Pager::new(50);
    q.page_failed();
    assert_eq!(q, Pager { offset: 50, limit: 50, done: false });
    q.page_received(0);
    assert!(q.done);
}

#[test]
fn listing_gathers_names_and_ids() {
    let mut l = PlaylistListing::new(2);
    l.page_fetched(vec![("One".to_string(), "id1".to_string()), ("Two".to_string(), "id2".to_string())]);
    assert_eq!(l.next_offset(), Some(2));
    l.page_failed();
    assert_eq!(l.next_offset(), Some(4));
    l.page_fetched(vec![("Three".to_string(), "id3".to_string())]);
    assert_eq!(l.next_offset(), None);
    assert_eq!(l.names, vec!["One", "Two", "Three"]);
    assert_eq!(l.ids, vec!["id1", "id2", "id3"]);
    let picked = select_playlist(l.names.clone(), l.ids.clone(), 1);
    assert_eq!(picked, Some(("Two".to_string(), "id2".to_string())));
    assert_eq!(select_playlist(l.names, l.ids, 3), None);
}

#[test]
fn playlist_id_is_checked() {
    assert_eq!(parse_playlist_id("37i9dQZF1DXcBWIGoYBM5M".to_string()).unwrap(), "37i9dQZF1DXcBWIGoYBM5M");
    let e = parse_playlist_id("spotify:playlist:37i9".to_string()).unwrap_err();
    assert!(matches!(e, UserFuckYouError::InvalidId));
    assert_eq!(e.describe(), "InvalidId");
}

#[test]
fn upload_is_a_shuffled_prefix() {
    let ids: Vec<PlayableId> = (0..150).map(|i| track(&format!("t{}", i))).collect();
    let out = shuffle_for_upload(ids.clone());
    assert_eq!(out.len(), TRACK_LIMIT);
    for p in &out {
        assert!(ids.contains(p));
    }
    let small: Vec<PlayableId> = (0..5).map(|i| episode(&format!("e{}", i))).collect();
    let mut out2 = shuffle_for_upload(small.clone());
    assert_eq!(out2.len(), 5);
    out2.sort_by(|a, b| a.id().cmp(b.id()));
    assert_eq!(out2, small);
}

#[test]
fn default_name_has_random_suffix() {
    let name = default_playlist_name();
    assert!(name.starts_with("shuffler::"));
    assert_eq!(name.len(), 18);
    assert!(name["shuffler::".len()..].chars().all(|c| c.is_ascii_alphanumeric()));
}

#[test]
fn finished_pager_stays_finished() {
    let mut p = Pager::new(5);
    p.page_received(3);
    assert_eq!(p.next_offset(), None);
    p.page_failed();
    p.page_received(5);
    assert_eq!(p, Pager { offset: 0, limit: 5, done: true });
}

#[test]
fn unavailable_playlist_error_describes_cause() {
    let e = UserFuckYouError::UnavailableInfoWtfDude(rspotify::ClientError::InvalidToken);
    assert_eq!(e.describe(), "UnavailableInfoWtfDude(Token is not valid)");
}
