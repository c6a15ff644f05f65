use garena_cache::cache::GarenaCache;

fn strings(items: &[&str]) -> Vec<String> {
    items.iter().map(|s| s.to_string()).collect()
}

#[test]
fn new_cache_is_empty() {
    let cache = GarenaCache::new();
    assert!(cache.avatars.is_empty());
    assert!(cache.user_stickers.is_empty());
    assert!(cache.user_images.is_empty());
}

#[test]
fn load_avatar_records_every_entry_once_in_order() {
    let mut cache = GarenaCache::new();
    cache.load_avatar(strings(&["av", "av/a1", "av/nested", "av/nested/a2"]));
    assert_eq!(cache.avatars, strings(&["av", "av/a1", "av/nested", "av/nested/a2"]));
}

#[test]
fn load_avatar_appends_to_existing_entries() {
    let mut cache = GarenaCache::new();
    cache.load_avatar(strings(&["av", "av/a1"]));
    cache.load_avatar(strings(&["av/a2"]));
    assert_eq!(cache.avatars, strings(&["av", "av/a1", "av/a2"]));
}

#[test]
fn sticker_sets_hold_each_users_walk() {
    let mut cache = GarenaCache::new();
    cache.load_all_user_stickers(
        strings(&["st/u1", "st/u2"]),
        vec![strings(&["st/u1", "st/u1/s1", "st/u1/s2.png"]), strings(&["st/u2"])],
    );
    assert_eq!(cache.user_stickers.len(), 2);
    assert_eq!(cache.user_stickers[0].user, "st/u1");
    assert_eq!(cache.user_stickers[0].stickers, strings(&["st/u1", "st/u1/s1", "st/u1/s2.png"]));
    assert_eq!(cache.user_stickers[1].user, "st/u2");
    assert_eq!(cache.user_stickers[1].stickers, strings(&["st/u2"]));
    assert!(cache.avatars.is_empty());
    assert!(cache.user_images.is_empty());
}

#[test]
fn image_set_records_walk_when_images_directory_exists() {
    let mut cache = GarenaCache::new();
    cache.load_all_user_images(
        strings(&["im/u1"]),
        vec![Some(strings(&["im/u1/images", "im/u1/images/i1.png"]))],
    );
    assert_eq!(cache.user_images.len(), 1);
    assert_eq!(cache.user_images[0].user, "im/u1");
    assert_eq!(cache.user_images[0].images, strings(&["im/u1/images", "im/u1/images/i1.png"]));
}

#[test]
fn image_set_is_empty_when_images_directory_is_absent() {
    let mut cache = GarenaCache::new();
    cache.load_all_user_images(
        strings(&["im/u1", "im/u2"]),
        vec![Some(strings(&["im/u1/images", "im/u1/images/i1.png"])), None],
    );
    assert_eq!(cache.user_images.len(), 2);
    assert_eq!(cache.user_images[1].user, "im/u2");
    assert!(cache.user_images[1].images.is_empty());
}

#[test]
fn duplicate_users_are_not_deduplicated() {
    let mut cache = GarenaCache::new();
    cache.load_all_user_stickers(
        strings(&["st/u1", "st/u1"]),
        vec![strings(&["st/u1", "st/u1/s1"]), strings(&["st/u1", "st/u1/s1"])],
    );
    assert_eq!(cache.user_stickers.len(), 2);
    assert_eq!(cache.user_stickers[0].user, cache.user_stickers[1].user);
    assert_eq!(cache.user_stickers[0].stickers, cache.user_stickers[1].stickers);
}

#[test]
fn user_images_path_appends_images_segment() {
    let mut cache = GarenaCache::new();
    cache.load_all_user_images(strings(&["im/u2"]), vec![None]);
    assert_eq!(cache.user_images[0].get_user_images_path(), "im/u2/images");
}
