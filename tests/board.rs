use anchor_lang::prelude::Pubkey;
use gif_portal::{add_gif, initialize, BaseAccount, GifError, ItemStruct};

fn key(b: u8) -> Pubkey {
    Pubkey::new_from_array([b; 32])
}

fn assert_entry(item: &ItemStruct, link: &str, user: Pubkey) {
    assert_eq!(item.gif_link, link);
    assert_eq!(item.user_address, user);
}

#[test]
fn create_yields_empty_record() {
    let a = initialize(9000);
    assert_eq!(a.total_gifs(), 0);
    assert!(a.gif_list().is_empty());
    assert_eq!(a.capacity(), 9000);
}

#[test]
fn append_one_entry() {
    let mut a = initialize(9000);
    let x = key(1);
    assert_eq!(add_gif(&mut a, "https://example.com/a.gif".to_string(), Some(x)), Ok(()));
    assert_eq!(a.total_gifs(), 1);
    assert_eq!(a.gif_list().len(), 1);
    assert_entry(&a.gif_list()[0], "https://example.com/a.gif", x);
}

#[test]
fn two_appends_keep_order() {
    let mut a = initialize(9000);
    let x = key(1);
    let y = key(2);
    assert_eq!(add_gif(&mut a, "https://example.com/x.gif".to_string(), Some(x)), Ok(()));
    assert_eq!(add_gif(&mut a, "https://example.com/y.gif".to_string(), Some(y)), Ok(()));
    assert_eq!(a.total_gifs(), 2);
    assert_eq!(a.gif_list().len(), 2);
    assert_entry(&a.gif_list()[0], "https://example.com/x.gif", x);
    assert_entry(&a.gif_list()[1], "https://example.com/y.gif", y);
}

#[test]
fn append_without_key_is_unauthenticated() {
    let mut a = initialize(9000);
    assert_eq!(add_gif(&mut a, "https://example.com/a.gif".to_string(), Some(key(1))), Ok(()));
    let r = add_gif(&mut a, "https://example.com/b.gif".to_string(), None);
    assert_eq!(r, Err(GifError::Unauthenticated));
    assert_eq!(a.total_gifs(), 1);
    assert_eq!(a.gif_list().len(), 1);
    assert_entry(&a.gif_list()[0], "https://example.com/a.gif", key(1));
}

#[test]
fn unauthenticated_comes_before_capacity() {
    let mut a = initialize(0);
    assert_eq!(add_gif(&mut a, "a".to_string(), None), Err(GifError::Unauthenticated));
}

#[test]
fn capacity_fits_exactly_three_entries() {
    // each entry: 4-byte length, 4 link bytes, 32-byte key
    let mut a = initialize(20 + 3 * 40);
    for i in 0..3u8 {
        assert_eq!(add_gif(&mut a, "abcd".to_string(), Some(key(i))), Ok(()));
        assert_eq!(a.total_gifs(), (i + 1) as u64);
    }
    assert_eq!(add_gif(&mut a, "wxyz".to_string(), Some(key(9))), Err(GifError::CapacityExceeded));
    assert_eq!(a.total_gifs(), 3);
    assert_eq!(a.gif_list().len(), 3);
    assert_entry(&a.gif_list()[2], "abcd", key(2));
}

#[test]
fn smaller_entry_still_fits_after_refusal() {
    let mut a = initialize(20 + 40 + 39);
    assert_eq!(add_gif(&mut a, "abcd".to_string(), Some(key(1))), Ok(()));
    assert_eq!(add_gif(&mut a, "abcd".to_string(), Some(key(2))), Err(GifError::CapacityExceeded));
    assert_eq!(add_gif(&mut a, "abc".to_string(), Some(key(3))), Ok(()));
    assert_eq!(a.total_gifs(), 2);
    assert_entry(&a.gif_list()[1], "abc", key(3));
}

#[test]
fn link_size_counts_utf8_bytes() {
    // "é" is one character and two bytes
    let mut exact = initialize(20 + 36 + 2);
    assert_eq!(add_gif(&mut exact, "é".to_string(), Some(key(1))), Ok(()));
    let mut short = initialize(20 + 36 + 1);
    assert_eq!(add_gif(&mut short, "é".to_string(), Some(key(1))), Err(GifError::CapacityExceeded));
    assert_eq!(short.total_gifs(), 0);
}

#[test]
fn storage_below_empty_record_refuses_every_append() {
    let mut a = initialize(10);
    assert_eq!(add_gif(&mut a, String::new(), Some(key(1))), Err(GifError::CapacityExceeded));
    assert_eq!(a.total_gifs(), 0);
    assert!(a.gif_list().is_empty());
}

#[test]
fn empty_link_is_accepted() {
    let mut a = initialize(20 + 36);
    assert_eq!(add_gif(&mut a, String::new(), Some(key(5))), Ok(()));
    assert_entry(&a.gif_list()[0], "", key(5));
}

#[test]
fn default_storage_holds_147_links_of_25_bytes() {
    let link = "https://example.com/a.gif";
    assert_eq!(link.len(), 25);
    let mut a = initialize(9000);
    for i in 0..147u64 {
        assert_eq!(add_gif(&mut a, link.to_string(), Some(key(1))), Ok(()));
        assert_eq!(a.total_gifs(), i + 1);
        assert_eq!(a.gif_list().len() as u64, a.total_gifs());
    }
    assert_eq!(add_gif(&mut a, link.to_string(), Some(key(1))), Err(GifError::CapacityExceeded));
    assert_eq!(a.total_gifs(), 147);
}

#[test]
fn count_matches_entries_after_each_call() {
    let mut a = initialize(170);
    let calls: [(&str, Option<Pubkey>); 5] =
        [("a", Some(key(1))), ("b", None), ("c", Some(key(2))), ("long link here", Some(key(3))), ("d", Some(key(4)))];
    for (link, user) in calls {
        let _ = add_gif(&mut a, link.to_string(), user);
        assert_eq!(a.gif_list().len() as u64, a.total_gifs());
    }
    assert_eq!(a.total_gifs(), 3);
    assert_entry(&a.gif_list()[2], "long link here", key(3));
}

#[test]
fn load_rebuilds_a_stored_record() {
    let items = vec![
        ItemStruct { gif_link: "abcd".to_string(), user_address: key(1) },
        ItemStruct { gif_link: "ef".to_string(), user_address: key(2) },
    ];
    let mut a = BaseAccount::load(2, items, 20 + 40 + 38 + 37).expect("consistent record");
    assert_eq!(a.capacity(), 135);
    assert_eq!(add_gif(&mut a, "g".to_string(), Some(key(3))), Ok(()));
    assert_eq!(add_gif(&mut a, "h".to_string(), Some(key(4))), Err(GifError::CapacityExceeded));
    let (count, list) = a.into_parts();
    assert_eq!(count, 3);
    assert_eq!(list.len(), 3);
    assert_entry(&list[0], "abcd", key(1));
    assert_entry(&list[2], "g", key(3));
}

#[test]
fn load_refuses_a_count_that_differs() {
    let items = vec![ItemStruct { gif_link: "abcd".to_string(), user_address: key(1) }];
    assert!(BaseAccount::load(2, items, 9000).is_none());
}

#[test]
fn load_refuses_entries_beyond_storage() {
    let items = vec![ItemStruct { gif_link: "abcd".to_string(), user_address: key(1) }];
    assert!(BaseAccount::load(1, items, 59).is_none());
    let items = vec![ItemStruct { gif_link: "abcd".to_string(), user_address: key(1) }];
    assert!(BaseAccount::load(1, items, 60).is_some());
    assert!(BaseAccount::load(0, Vec::new(), 19).is_none());
    assert!(BaseAccount::load(0, Vec::new(), 20).is_some());
}
