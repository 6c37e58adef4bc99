use dockertags::common::display_duration_ext::{DisplayDurationExt, Duration, Unit};
use dockertags::common::format::{
    center, decimal_text, optional_text_before_or_equal, signed_decimal_text,
    text_before_or_equal,
};
use dockertags::repository::TagDetails;
use dockertags::widget::details::Details;
use dockertags::widget::info::Info;
use dockertags::widget::repo_entry::RepoEntry;
use dockertags::widget::service_switcher::{Error, ServiceSwitcher};
use dockertags::widget::{Key, ListState};

fn build(arch: Option<&str>, os: Option<&str>, size: Option<usize>) -> TagDetails {
    TagDetails {
        arch: arch.map(|s| s.to_string()),
        variant: None,
        os: os.map(|s| s.to_string()),
        size,
    }
}

fn manifest() -> ServiceSwitcher {
    ServiceSwitcher::new(
        "docker-compose.yml".to_string(),
        vec![
            "version: '2'".to_string(),
            "services:".to_string(),
            "  web:".to_string(),
            "    image: nginx:1.0".to_string(),
            "  db:".to_string(),
            "    image: postgres # database".to_string(),
        ],
    )
}

#[test]
fn durations_are_told_in_words() {
    assert_eq!(Duration::seconds(52 * 7 * 86400).display(), "1 Year");
    assert_eq!(Duration::seconds(53 * 7 * 86400 - 1).display(), "1 Year");
    assert_eq!(Duration::seconds(53 * 7 * 86400).display(), "371 Days");
    assert_eq!(Duration::seconds(103 * 7 * 86400).display(), "721 Days");
    assert_eq!(Duration::seconds(104 * 7 * 86400).display(), "2 Years");
    assert_eq!(Duration::seconds(520 * 7 * 86400).display(), "10 Years");
    assert_eq!(Duration::seconds(86400).display(), "1 Day");
    assert_eq!(Duration::seconds(2 * 86400 - 1).display(), "1 Day");
    assert_eq!(Duration::seconds(3 * 86400).display(), "3 Days");
    assert_eq!(Duration::seconds(3600).display(), "1 Hour");
    assert_eq!(Duration::seconds(23 * 3600 + 59).display(), "23 Hours");
    assert_eq!(Duration::seconds(60).display(), "1 Minute");
    assert_eq!(Duration::seconds(59 * 60).display(), "59 Minutes");
    assert_eq!(Duration::seconds(59).display(), "59 Seconds");
    assert_eq!(Duration::seconds(0).display(), "0 Seconds");
    assert_eq!(Duration::seconds(-86400).display(), "-86400 Seconds");
    assert_eq!(
        Duration::seconds(i64::MIN).display(),
        "-9223372036854775808 Seconds"
    );
    assert_eq!(Duration::seconds(7200).span(), (2, Unit::Hours));
}

#[test]
fn a_span_between_two_instants() {
    assert_eq!(Duration::between(10, 3), Some(Duration::seconds(7)));
    assert_eq!(Duration::between(3, 10), Some(Duration::seconds(-7)));
    assert_eq!(Duration::between(i64::MAX, -1), None);
    assert_eq!(Duration::between(i64::MIN, 1), None);
}

#[test]
fn numbers_in_decimal() {
    assert_eq!(decimal_text(0), "0");
    assert_eq!(decimal_text(9), "9");
    assert_eq!(decimal_text(10), "10");
    assert_eq!(decimal_text(1234567890), "1234567890");
    assert_eq!(decimal_text(u64::MAX), "18446744073709551615");
    assert_eq!(signed_decimal_text(-1), "-1");
    assert_eq!(signed_decimal_text(i64::MAX), "9223372036854775807");
    assert_eq!(signed_decimal_text(i64::MIN), "-9223372036854775808");
}

#[test]
fn texts_are_centred() {
    assert_eq!(center("ARCH", 10), "   ARCH   ");
    assert_eq!(center("amd64", 10), "  amd64   ");
    assert_eq!(center("linux", 6), "linux ");
    assert_eq!(center("windows", 6), "windows");
    assert_eq!(center("", 3), "   ");
    assert_eq!(center("äö", 5), " äö  ");
    assert_eq!(center("abc", 0), "abc");
}

#[test]
fn texts_are_ordered_by_their_characters() {
    assert!(text_before_or_equal("", ""));
    assert!(text_before_or_equal("", "a"));
    assert!(!text_before_or_equal("a", ""));
    assert!(text_before_or_equal("amd64", "arm"));
    assert!(!text_before_or_equal("arm", "amd64"));
    assert!(text_before_or_equal("arm", "arm64"));
    assert!(!text_before_or_equal("arm64", "arm"));
    assert!(text_before_or_equal("arm", "arm"));
    assert!(text_before_or_equal("Z", "a"));
    assert!(text_before_or_equal("z", "ä"));
    assert!(optional_text_before_or_equal(&None, &None));
    assert!(optional_text_before_or_equal(&None, &Some("".to_string())));
    assert!(!optional_text_before_or_equal(&Some("".to_string()), &None));
    assert!(optional_text_before_or_equal(
        &Some("a".to_string()),
        &Some("b".to_string())
    ));
}

#[test]
fn details_are_sorted_and_repeated_ones_dropped() {
    let mb = 1024 * 1024;
    let details = Details::with_list(&[
        build(Some("ppc64le"), Some("linux"), Some(7 * mb)),
        build(Some("amd64"), Some("linux"), Some(5 * mb)),
        build(None, None, None),
        build(Some("arm64"), Some("linux"), Some(12345 * mb + 1)),
        build(Some("amd64"), Some("linux"), Some(5 * mb)),
        build(Some("amd64"), Some("windows"), Some(mb - 1)),
        build(Some("amd64"), Some("linux"), Some(5 * mb)),
    ]);
    assert_eq!(
        details.get_details(),
        vec![
            "   ARCH   |  OS  | SIZE ",
            "          |      | 0MB  ",
            "  amd64   |linux | 5MB  ",
            "  amd64   |windows| 0MB  ",
            "  amd64   |linux | 5MB  ",
            "  arm64   |linux |12345MB",
            " ppc64le  |linux | 7MB  ",
        ]
    );
}

#[test]
fn no_details_show_the_heading_alone() {
    assert_eq!(Details::new().get_details(), vec!["   ARCH   |  OS  | SIZE "]);
    assert_eq!(
        Details::with_list(&[]).get_details(),
        vec!["   ARCH   |  OS  | SIZE "]
    );
}

#[test]
fn the_foot_shows_a_message_and_the_keys() {
    let mut info = Info::new("hello");
    let keys = "Tab Cycle widgets   C-s Save   C-r Reload   C-q Quit   ↑ ↓ Select tags or image line   Return Select";
    assert_eq!(info.get_lines(), vec!["hello", keys]);
    info.set_text("text");
    assert_eq!(info.get_lines(), vec!["text", keys]);
    info.set_info("info");
    assert_eq!(info.get_lines(), vec!["info", keys]);
}

#[test]
fn the_field_starts_with_its_text_or_a_hint() {
    let entry = RepoEntry::new(Some("nginx"));
    assert_eq!(entry.get(), "nginx");
    assert!(!entry.is_changed());
    let entry = RepoEntry::new(None);
    assert_eq!(entry.get(), "edit me or select a repository");
    assert!(!entry.is_changed());
}

#[test]
fn typing_and_deleting() {
    let mut entry = RepoEntry::new(Some("ngin"));
    entry.handle_input(Key::Char('x'));
    assert_eq!(entry.get(), "nginx");
    assert!(entry.is_changed());
    entry.handle_input(Key::Backspace);
    entry.handle_input(Key::Backspace);
    assert_eq!(entry.get(), "ngi");
    entry.handle_input(Key::Up);
    entry.handle_input(Key::Other);
    entry.handle_input(Key::Ctrl('a'));
    assert_eq!(entry.get(), "ngi");
    entry.handle_input(Key::Esc);
    assert_eq!(entry.get(), "ngin");
    assert!(!entry.is_changed());
    let mut entry = RepoEntry::new(Some(""));
    entry.handle_input(Key::Backspace);
    assert_eq!(entry.get(), "");
    assert!(entry.is_changed());
}

#[test]
fn the_hint_goes_as_a_whole() {
    let mut entry = RepoEntry::new(None);
    entry.handle_input(Key::Backspace);
    assert_eq!(entry.get(), "");
    assert!(entry.is_changed());
    entry.handle_input(Key::Char('a'));
    entry.handle_input(Key::Char('b'));
    entry.handle_input(Key::Backspace);
    assert_eq!(entry.get(), "a");
    entry.handle_input(Key::Esc);
    assert_eq!(entry.get(), "edit me or select a repository");
}

#[test]
fn confirming_clears_the_mark() {
    let mut entry = RepoEntry::new(Some("ngin"));
    entry.handle_input(Key::Char('x'));
    entry.confirm();
    assert!(!entry.is_changed());
    assert_eq!(entry.get(), "nginx");
    entry.handle_input(Key::Char('y'));
    entry.handle_input(Key::Esc);
    assert_eq!(entry.get(), "nginx");
}

#[test]
fn setting_the_field_confirms_the_text() {
    let mut entry = RepoEntry::new(Some("a"));
    entry.handle_input(Key::Char('x'));
    entry.set("library/nginx".to_string());
    assert_eq!(entry.get(), "library/nginx");
    assert!(entry.is_changed());
    entry.handle_input(Key::Esc);
    assert_eq!(entry.get(), "library/nginx");
}

#[test]
fn list_state_selects() {
    let mut state = ListState::default();
    assert_eq!(state.selected(), None);
    state.offset = 4;
    state.select(Some(7));
    assert_eq!(state.selected(), Some(7));
    assert_eq!(state.offset, 4);
    state.select(None);
    assert_eq!(state.selected(), None);
    assert_eq!(state.offset, 0);
}

#[test]
fn the_manifest_is_looked_for_in_order() {
    assert_eq!(
        ServiceSwitcher::candidates(Some("my.yml".to_string())),
        vec!["my.yml", "docker-compose.yml", "docker-compose.yaml"]
    );
    assert_eq!(
        ServiceSwitcher::candidates(None),
        vec!["docker-compose.yml", "docker-compose.yaml"]
    );
}

#[test]
fn searching_forward_goes_round() {
    let mut services = manifest();
    assert_eq!(services.get_cursor().selected(), None);
    assert!(services.find_next_match());
    assert_eq!(services.get_cursor().selected(), Some(3));
    assert!(services.find_next_match());
    assert_eq!(services.get_cursor().selected(), Some(5));
    assert!(services.find_next_match());
    assert_eq!(services.get_cursor().selected(), Some(3));
}

#[test]
fn searching_backward_goes_round() {
    let mut services = manifest();
    assert!(services.find_previous_match());
    assert_eq!(services.get_cursor().selected(), Some(5));
    assert!(services.find_previous_match());
    assert_eq!(services.get_cursor().selected(), Some(3));
    assert!(services.find_previous_match());
    assert_eq!(services.get_cursor().selected(), Some(5));
}

#[test]
fn searching_skips_the_line_it_starts_from() {
    let mut services = ServiceSwitcher::new(
        "f".to_string(),
        vec!["  image: nginx".to_string(), "x".to_string()],
    );
    assert!(!services.find_next_match());
    assert!(!services.find_previous_match());
    assert_eq!(services.get_cursor().selected(), None);
    let mut services = ServiceSwitcher::new("f".to_string(), vec![]);
    assert!(!services.find_next_match());
    assert!(!services.find_previous_match());
    let mut services = ServiceSwitcher::new(
        "f".to_string(),
        vec!["x".to_string(), "  image: nginx".to_string()],
    );
    assert!(services.find_next_match());
    assert!(!services.find_next_match());
    assert!(!services.find_previous_match());
    assert_eq!(services.get_cursor().selected(), Some(1));
}

#[test]
fn the_selected_line_names_a_repository() {
    let mut services = manifest();
    assert_eq!(services.extract_repo(), Err(Error::NoneSelected));
    services.find_next_match();
    assert_eq!(services.extract_repo(), Ok("nginx:1.0".to_string()));
    services.find_next_match();
    assert_eq!(services.extract_repo(), Ok("postgres".to_string()));
}

#[test]
fn the_selected_line_gets_a_new_image() {
    let mut services = manifest();
    assert_eq!(services.title(), "File: docker-compose.yml");
    services.find_next_match();
    services.change_current_line("nginx:2.0".to_string());
    assert_eq!(services.get_lines()[3], "    image: nginx:2.0");
    assert_eq!(services.title(), "File: *docker-compose.yml*");
    assert_eq!(
        services.contents(),
        "version: '2'\nservices:\n  web:\n    image: nginx:2.0\n  db:\n    image: postgres # database\n"
    );
    assert_eq!(
        services.save(Err("disk full".to_string())),
        Err("disk full".to_string())
    );
    assert_eq!(services.title(), "File: *docker-compose.yml*");
    assert_eq!(services.save(Ok(())), Ok(()));
    assert_eq!(services.title(), "File: docker-compose.yml");
}

#[test]
fn without_a_selection_the_manifest_only_counts_as_changed() {
    let mut services = manifest();
    services.change_current_line("nginx:2.0".to_string());
    assert_eq!(services.get_lines()[3], "    image: nginx:1.0");
    assert_eq!(services.title(), "File: *docker-compose.yml*");
}

#[test]
fn switcher_error_messages() {
    assert_eq!(Error::NoneSelected.message(), "None selected");
    assert_eq!(
        Error::Parsing("Nothing found".to_string()).message(),
        "Parsing error: Nothing found"
    );
}

#[test]
fn a_selected_line_without_an_image_cannot_be_read() {
    let mut services = manifest();
    services.find_next_match();
    services.change_current_line("".to_string());
    assert_eq!(services.get_lines()[3], "    image: ");
    assert_eq!(
        services.extract_repo(),
        Err(Error::Parsing("Nothing found".to_string()))
    );
    services.change_current_line("nginx".to_string());
    assert_eq!(services.get_lines()[3], "    image: ");
    assert!(services.is_changed());
    assert_eq!(services.get_opened_file(), "docker-compose.yml");
}
