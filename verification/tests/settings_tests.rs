use topic_manager::commands::CommandResult;
use topic_manager::settings::{BannerColor, List, ListType, Settings};

fn sample_lists() -> Vec<List> {
    vec![
        List::new(
            "Chores".to_string(),
            "chores_banner.txt".to_string(),
            BannerColor::Green,
            ListType::Local,
            "chores.txt".to_string(),
            String::new(),
        ),
        List::new(
            "Work".to_string(),
            "https://example.org/banner".to_string(),
            BannerColor::Blue,
            ListType::Network,
            "https://example.org/topics".to_string(),
            "gist-access-token".to_string(),
        ),
    ]
}

fn sample_settings() -> Settings {
    Settings::new(
        "Chores".to_string(),
        true,
        sample_lists(),
        "/home/someone/Documents".to_string(),
        false,
    )
}

#[test]
fn paths_are_joined_under_the_documents_folder() {
    let settings = sample_settings();
    assert_eq!(
        settings.path_to_settings_dir(),
        "/home/someone/Documents/RustyTopicManipulator"
    );
    assert_eq!(
        settings.path_to_settings_file(),
        "/home/someone/Documents/RustyTopicManipulator/settings.json"
    );
    assert_eq!(settings.documents_path(), "/home/someone/Documents");
    assert_eq!(settings.open_in(), "Chores");
    assert_eq!(settings.lists().len(), 2);
}

#[test]
fn lookup_by_name_finds_the_entry() {
    let mut settings = sample_settings();
    let list = settings.get_list("Work").expect("the name is configured");
    assert_eq!(list.name(), "Work");
    assert_eq!(list.path(), "https://example.org/topics");
    assert!(matches!(list.list_type(), ListType::Network));
    // a non-local banner path is handed back untouched
    assert_eq!(list.banner_path(), "https://example.org/banner");
}

#[test]
fn lookup_by_position_is_one_based() {
    let mut settings = sample_settings();
    let first = settings.get_list("1").expect("position 1 exists");
    assert_eq!(first.name(), "Chores");
    let second = settings.get_list("2").expect("position 2 exists");
    assert_eq!(second.name(), "Work");
    assert!(settings.get_list("0").is_none());
    assert!(settings.get_list("3").is_none());
}

#[test]
fn unknown_name_is_not_found() {
    let mut settings = sample_settings();
    assert!(settings.get_list("Errands").is_none());
}

#[test]
fn local_banner_path_is_resolved_under_the_settings_dir() {
    let mut settings = sample_settings();
    let list = settings.get_list("Chores").expect("the name is configured");
    assert_eq!(
        list.banner_path(),
        "/home/someone/Documents/RustyTopicManipulator/chores_banner.txt"
    );
}

#[test]
fn set_open_in_remembers_a_known_list() {
    let mut settings = sample_settings();
    assert!(matches!(settings.set_open_in("Work"), CommandResult::Success));
    assert_eq!(settings.open_in(), "Work");
    assert!(settings.settings_changed());
}

#[test]
fn set_open_in_rejects_an_unknown_query() {
    let mut settings = sample_settings();
    match settings.set_open_in("Nowhere") {
        CommandResult::Fail(message) => {
            assert_eq!(message, "Couldn't find: \"Nowhere\" in lists.")
        },
        CommandResult::Success => panic!("an unknown query must fail"),
    }
    assert_eq!(settings.open_in(), "Chores");
}

#[test]
fn unchanged_settings_need_no_save() {
    let settings = sample_settings();
    assert!(!settings.settings_changed());
    let defaults = Settings::new(
        "New List".to_string(),
        true,
        sample_lists(),
        "/home/someone/Documents".to_string(),
        true,
    );
    assert!(defaults.settings_changed());
}

#[test]
fn set_open_in_list_takes_the_name() {
    let mut settings = sample_settings();
    let lists = sample_lists();
    settings.set_open_in_list(&lists[1]);
    assert_eq!(settings.open_in(), "Work");
}

#[test]
fn list_getters_hand_the_fields_back() {
    let lists = sample_lists();
    let copied = lists[1].clone();
    assert_eq!(copied.name(), "Work");
    assert_eq!(copied.access_token(), "gist-access-token");
    assert!(matches!(copied.banner_color(), BannerColor::Blue));
}
