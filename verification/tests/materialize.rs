use garena_cache::cache::GarenaCache;
use garena_cache::output::{OutputAction, OutputError};

fn strings(items: &[&str]) -> Vec<String> {
    items.iter().map(|s| s.to_string()).collect()
}

fn create_dir(path: &str) -> OutputAction {
    OutputAction::CreateDir(path.to_string())
}

fn copy_file(source: &str, dest: &str) -> OutputAction {
    OutputAction::CopyFile { source: source.to_string(), dest: dest.to_string() }
}

#[test]
fn empty_avatar_list_aborts_before_any_step() {
    let mut cache = GarenaCache::new();
    cache.load_all_user_stickers(strings(&["st/u1"]), vec![strings(&["st/u1", "st/u1/s1"])]);
    cache.load_all_user_images(strings(&["im/u1"]), vec![Some(strings(&["im/u1/images"]))]);
    assert_eq!(cache.generate_output("out"), Err(OutputError::NoAvatars));
}

#[test]
fn avatar_plan_creates_first_entry_directory_then_copies() {
    let mut cache = GarenaCache::new();
    cache.load_avatar(strings(&["av", "av/a1"]));
    let plan = cache.generate_output("out").unwrap();
    assert_eq!(
        plan,
        vec![
            create_dir("out/av"),
            copy_file("av", "out/av.jpg"),
            copy_file("av/a1", "out/av/a1.jpg"),
        ]
    );
}

#[test]
fn sticker_user_with_empty_walk_still_gets_directory() {
    let mut cache = GarenaCache::new();
    cache.load_avatar(strings(&["av"]));
    cache.load_all_user_stickers(strings(&["st/u1"]), vec![strings(&[])]);
    let plan = cache.generate_output("out").unwrap();
    assert_eq!(
        plan,
        vec![create_dir("out/av"), copy_file("av", "out/av.jpg"), create_dir("out/st/u1")]
    );
}

#[test]
fn user_without_images_gets_no_images_directory() {
    let mut cache = GarenaCache::new();
    cache.load_avatar(strings(&["av"]));
    cache.load_all_user_images(strings(&["im/u2"]), vec![None]);
    let plan = cache.generate_output("out").unwrap();
    assert_eq!(plan, vec![create_dir("out/av"), copy_file("av", "out/av.jpg")]);
}

#[test]
fn end_to_end_scenario() {
    let mut cache = GarenaCache::new();
    cache.load_avatar(strings(&["av", "av/a1"]));
    cache.load_all_user_stickers(
        strings(&["st/u1"]),
        vec![strings(&["st/u1", "st/u1/s1", "st/u1/s2.png"])],
    );
    cache.load_all_user_images(
        strings(&["im/u1", "im/u2"]),
        vec![Some(strings(&["im/u1/images", "im/u1/images/i1.png"])), None],
    );
    let plan = cache.generate_output("out").unwrap();
    assert_eq!(
        plan,
        vec![
            create_dir("out/av"),
            copy_file("av", "out/av.jpg"),
            copy_file("av/a1", "out/av/a1.jpg"),
            create_dir("out/st/u1"),
            copy_file("st/u1", "out/st/u1.jpg"),
            copy_file("st/u1/s1", "out/st/u1/s1.jpg"),
            copy_file("st/u1/s2.png", "out/st/u1/s2.png"),
            create_dir("out/im/u1/images"),
            copy_file("im/u1/images", "out/im/u1/images.jpg"),
            copy_file("im/u1/images/i1.png", "out/im/u1/images/i1.png"),
        ]
    );
}

#[test]
fn planning_twice_gives_identical_steps() {
    let mut cache = GarenaCache::new();
    cache.load_avatar(strings(&["av", "av/a1"]));
    cache.load_all_user_stickers(strings(&["st/u1"]), vec![strings(&["st/u1", "st/u1/s1"])]);
    let first = cache.generate_output("out").unwrap();
    let second = cache.generate_output("out").unwrap();
    assert_eq!(first, second);
}
