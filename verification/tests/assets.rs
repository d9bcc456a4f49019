use sentient_tui::game::CharacterState;
use sentient_tui::images::{
    cached_message, character_image_requests, disk_hit_message, downloading_message,
    failure_message, image_key, image_url, sync_image_base, AssetFlags, Download, ImageBook,
    Lookup, Request, TRANSIENT_RETRY_MS,
};

#[test]
fn image_requests_of_a_character() {
    let mut c = CharacterState::default();
    c.name = "Alice".to_string();
    c.skin = "women1".to_string();
    c.weapon_slot = "copper_dagger".to_string();
    c.boots_slot = "leather_boots".to_string();
    c.utility2_slot = "small_potion".to_string();
    c.task = "ash_tree".to_string();
    c.task_type = "resources".to_string();
    let r = character_image_requests(&c);
    let pairs: Vec<(&str, &str)> = r.iter().map(|(a, b)| (a.as_str(), b.as_str())).collect();
    assert_eq!(
        pairs,
        vec![
            ("characters", "women1"),
            ("items", "copper_dagger"),
            ("items", "leather_boots"),
            ("items", "small_potion"),
            ("resources", "ash_tree"),
        ]
    );
}

#[test]
fn image_requests_skip_unknown_task_type() {
    let mut c = CharacterState::default();
    c.task = "something".to_string();
    c.task_type = "achievements".to_string();
    assert!(character_image_requests(&c).is_empty());
}

#[test]
fn image_book_download_cycle() {
    let mut b = ImageBook::new();
    assert_eq!(b.stats(), (0, 0));
    assert!(!b.is_ready("items", "egg"));
    assert_eq!(b.lookup("items", "egg"), Lookup::Absent);
    assert_eq!(b.request("items", "egg", 0), Request::Queued);
    assert_eq!(b.request("items", "egg", 1), Request::AlreadyPending);
    assert_eq!(b.stats(), (0, 1));
    assert!(!b.is_settled("items", "egg"));
    b.complete("items/egg", Download::Done, 2);
    assert!(b.is_ready("items", "egg"));
    assert!(b.is_settled("items", "egg"));
    assert_eq!(b.lookup("items", "egg"), Lookup::Ready);
    assert_eq!(b.stats(), (1, 1));
    assert_eq!(b.request("items", "egg", 3), Request::Ready);
    assert_eq!(b.stats(), (1, 1));
}

#[test]
fn image_book_empty_code() {
    let mut b = ImageBook::new();
    assert_eq!(b.lookup("items", ""), Lookup::NoCode);
    assert_eq!(b.request("items", "", 0), Request::NoCode);
    assert!(!b.is_ready("items", ""));
    assert!(b.is_settled("items", ""));
    assert_eq!(b.stats(), (0, 0));
}

#[test]
fn image_book_missing_is_final() {
    let mut b = ImageBook::new();
    b.request("items", "ghost", 0);
    b.complete("items/ghost", Download::NotFound, 5);
    assert!(b.flags("items/ghost").missing);
    assert!(b.is_settled("items", "ghost"));
    assert_eq!(b.request("items", "ghost", 1_000_000), Request::Refused);
    assert_eq!(b.stats(), (1, 1));
}

#[test]
fn image_book_transient_failure_cools_down() {
    let mut b = ImageBook::new();
    b.request("items", "egg", 0);
    b.complete("items/egg", Download::Failed, 1_000);
    assert_eq!(b.flags("items/egg").retry_at, Some(1_000));
    assert!(b.is_settled("items", "egg"));
    assert_eq!(b.stats(), (0, 1));
    assert_eq!(b.request("items", "egg", 1_000 + TRANSIENT_RETRY_MS - 1), Request::CoolingDown);
    assert_eq!(b.request("items", "egg", 500), Request::CoolingDown);
    assert_eq!(b.request("items", "egg", 1_000 + TRANSIENT_RETRY_MS), Request::Queued);
    let f = b.flags("items/egg");
    assert_eq!(f, AssetFlags { ready: false, pending: true, missing: false, retry_at: None });
    assert_eq!(b.stats(), (0, 2));
    b.complete("items/egg", Download::Done, 40_000);
    assert_eq!(b.stats(), (1, 2));
}

#[test]
fn image_book_disk_hits() {
    let mut b = ImageBook::new();
    b.mark_ready("characters/men1");
    assert!(b.is_ready("characters", "men1"));
    assert_eq!(b.request("characters", "men1", 0), Request::Ready);
    assert_eq!(b.stats(), (0, 0));
}

#[test]
fn image_messages_and_addresses() {
    assert_eq!(image_key("items", "egg"), "items/egg");
    assert_eq!(image_url("https://artifactsmmo.com/images/", "items", "egg"), "https://artifactsmmo.com/images/items/egg.png");
    assert_eq!(sync_image_base("http://localhost:9000/"), "http://localhost:9000/images");
    assert_eq!(disk_hit_message("items/egg"), "items/egg loaded from disk");
    assert_eq!(downloading_message("items/egg"), "items/egg downloading…");
    assert_eq!(cached_message("items/egg", 64, 64), "items/egg cached (16KB, 64×64)");
    assert_eq!(cached_message("items/egg", 10, 10), "items/egg cached (0KB, 10×10)");
    assert_eq!(failure_message("items/egg", true, "ignored"), "items/egg not found (404)");
    assert_eq!(failure_message("items/egg", false, "timeout"), "items/egg failed (retry in 30s): timeout");
}

#[test]
fn image_book_all_settled() {
    let mut b = ImageBook::new();
    let codes = vec!["a".to_string(), "".to_string(), "b".to_string()];
    assert!(!b.all_settled("maps", &codes));
    b.mark_ready("maps/a");
    assert!(!b.all_settled("maps", &codes));
    b.request("maps", "b", 0);
    b.complete("maps/b", Download::NotFound, 1);
    assert!(b.all_settled("maps", &codes));
    assert!(b.all_settled("maps", &Vec::new()));
}
