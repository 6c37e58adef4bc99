use dockertags::error::Error as RepoError;
use dockertags::repository::dockerhub::{DockerHub, ImageDetails, Images};
use dockertags::repository::ghcr::Ghcr;
use dockertags::repository::{Repo, Tag, TagDetails};
use dockertags::widget::async_tag_list::{Error, TagList};
use dockertags::widget::{Key, ListState};

fn tag(name: &str) -> Tag {
    Tag::new(name.to_string(), vec![], None)
}

fn page(names: &[&str], next: Option<&str>) -> Repo {
    Repo::with_tags(
        names.iter().map(|n| tag(n)).collect(),
        next.map(|n| n.to_string()),
    )
    .unwrap()
}

fn selected(list: &TagList) -> Option<usize> {
    list.get_cursor().selected()
}

fn at(index: usize) -> ListState {
    let mut state = ListState::default();
    state.select(Some(index));
    state
}

#[test]
fn advance_from_the_last_entry_asks_for_more() {
    let mut list = TagList::with_tags(page(&["1.0", "1.1"], Some("next")));
    assert_eq!(list.lines_at(0), vec!["1.0", "1.1", "load more tags"]);
    list.set_cursor(at(1));
    assert_eq!(list.next(), Some(()));
    assert_eq!(selected(&list), Some(1));
}

#[test]
fn advance_on_a_single_entry_stays() {
    let mut list = TagList::with_tags(page(&["1.0"], None));
    list.set_cursor(at(0));
    assert_eq!(list.next(), None);
    assert_eq!(selected(&list), Some(0));
}

#[test]
fn advance_never_reaches_the_offer() {
    let mut list = TagList::with_tags(page(&["a", "b", "c", "d"], Some("next")));
    let mut asked = Vec::new();
    let mut seen = Vec::new();
    for _ in 0..8 {
        asked.push(list.next().is_some());
        seen.push(selected(&list));
    }
    assert_eq!(
        seen,
        vec![
            Some(0),
            Some(1),
            Some(2),
            Some(3),
            Some(3),
            Some(3),
            Some(3),
            Some(3)
        ]
    );
    assert_eq!(
        asked,
        vec![false, false, false, false, true, true, true, true]
    );
}

#[test]
fn advance_wraps_where_nothing_more_is_offered() {
    let mut list = TagList::with_tags(page(&["a", "b", "c"], None));
    let mut seen = Vec::new();
    for _ in 0..5 {
        assert_eq!(list.next(), None);
        seen.push(selected(&list));
    }
    assert_eq!(seen, vec![Some(0), Some(1), Some(2), Some(0), Some(1)]);
}

#[test]
fn advance_from_the_offer_goes_back_to_the_top() {
    let mut list = TagList::with_tags(page(&["a", "b"], Some("next")));
    list.set_cursor(at(2));
    assert_eq!(list.next(), None);
    assert_eq!(selected(&list), Some(0));
}

#[test]
fn a_message_is_never_left() {
    let mut list = TagList::with_status("no tags");
    assert_eq!(list.next(), None);
    assert_eq!(selected(&list), None);
    list.previous();
    assert_eq!(selected(&list), None);
    assert_eq!(list.lines_at(0), vec!["no tags"]);
}

#[test]
fn retreat_wraps_to_the_last_entry() {
    let mut list = TagList::with_tags(page(&["a", "b", "c"], Some("next")));
    list.previous();
    assert_eq!(selected(&list), Some(0));
    list.previous();
    assert_eq!(selected(&list), Some(2));
    list.previous();
    assert_eq!(selected(&list), Some(1));
    let mut list = TagList::with_tags(page(&["a", "b", "c"], None));
    list.set_cursor(at(0));
    list.previous();
    assert_eq!(selected(&list), Some(2));
}

#[test]
fn retreat_from_beyond_the_list_takes_the_last_entry() {
    let mut list = TagList::with_tags(page(&["a", "b", "c"], Some("next")));
    list.set_cursor(at(17));
    list.previous();
    assert_eq!(selected(&list), Some(2));
    list.set_cursor(at(3));
    list.previous();
    assert_eq!(selected(&list), Some(2));
}

#[test]
fn selected_name_or_the_reason() {
    let mut list = TagList::with_tags(page(&["1.0", "1.1"], Some("next")));
    assert_eq!(list.get_selected(), Err(Error::NoneSelected));
    list.set_cursor(at(1));
    assert_eq!(list.get_selected(), Ok("1.1".to_string()));
    list.set_cursor(at(2));
    assert_eq!(list.get_selected(), Err(Error::NextPageSelected));
    list.set_cursor(at(3));
    assert_eq!(list.get_selected(), Err(Error::NoneSelected));
    let mut list = TagList::with_status("no tags");
    list.set_cursor(at(0));
    assert_eq!(list.get_selected(), Err(Error::SelectedStatus));
}

#[test]
fn selection_error_messages() {
    assert_eq!(Error::NoneSelected.message(), "No tag selected");
    assert_eq!(
        Error::NextPageSelected.message(),
        "tried to get the next page"
    );
    assert_eq!(Error::SelectedStatus.message(), "Status message was selected");
}

#[test]
fn two_pages_add_their_entries() {
    let mut list = TagList::with_tags(page(&["a", "b"], Some("page2")));
    assert_eq!(list.next_page(), Some("page2".to_string()));
    list.load_next_page(Some(page(&["c", "d", "e"], Some("page3"))));
    assert_eq!(
        list.lines_at(0),
        vec!["a", "b", "c", "d", "e", "load more tags"]
    );
    assert_eq!(list.next_page(), Some("page3".to_string()));
    list.load_next_page(Some(page(&["f"], None)));
    assert_eq!(list.lines_at(0), vec!["a", "b", "c", "d", "e", "f"]);
    assert_eq!(list.next_page(), None);
}

#[test]
fn a_page_that_did_not_come_changes_nothing() {
    let mut list = TagList::with_tags(page(&["a", "b"], Some("page2")));
    list.set_cursor(at(1));
    list.load_next_page(None);
    assert_eq!(list.lines_at(0), vec!["a", "b", "load more tags"]);
    assert_eq!(selected(&list), Some(1));
    assert_eq!(list.next_page(), Some("page2".to_string()));
}

#[test]
fn a_page_for_a_list_without_offer_is_ignored() {
    let mut list = TagList::with_tags(page(&["a"], None));
    list.load_next_page(Some(page(&["b"], None)));
    assert_eq!(list.lines_at(0), vec!["a"]);
    let mut list = TagList::with_status("no tags");
    list.load_next_page(Some(page(&["b"], None)));
    assert_eq!(list.lines_at(0), vec!["no tags"]);
}

#[test]
fn merging_keeps_the_cursor() {
    let mut list = TagList::with_tags(page(&["a", "b"], Some("page2")));
    list.set_cursor(at(1));
    list.load_next_page(Some(page(&["c"], None)));
    assert_eq!(selected(&list), Some(1));
    assert_eq!(list.next(), None);
    assert_eq!(selected(&list), Some(2));
}

#[test]
fn no_tags_give_a_message() {
    let answer = DockerHub {
        next_page: Some("next".to_string()),
        results: vec![],
    };
    let fetched = answer.into_repo();
    assert_eq!(fetched.as_ref().err(), Some(&RepoError::NoTagsFound));
    let list = TagList::with_repo_name(fetched);
    assert_eq!(list.lines_at(0), vec!["input repo was not found"]);
    assert_eq!(list.next_page(), None);
    assert_eq!(Repo::with_tags(vec![], None).err(), Some(RepoError::NoTagsFound));
    let list = TagList::with_repo_name(Err(RepoError::Reqwest("down".to_string())));
    assert_eq!(list.lines_at(0), vec!["input repo was not found"]);
}

#[test]
fn a_fetched_page_is_listed() {
    let answer = DockerHub {
        next_page: Some("next".to_string()),
        results: vec![
            Images {
                images: vec![ImageDetails {
                    architecture: "amd64".to_string(),
                    os: "linux".to_string(),
                    variant: None,
                    size: 3 * 1024 * 1024,
                }],
                tag_name: "latest".to_string(),
                last_updated: "2024-01-01T00:00:00Z".to_string(),
            },
            Images {
                images: vec![],
                tag_name: "1.0".to_string(),
                last_updated: "not a time".to_string(),
            },
        ],
    };
    let mut list = TagList::with_repo_name(answer.into_repo());
    assert_eq!(
        list.lines_at(1704067200 + 3 * 86400),
        vec!["latest, 3 Days old", "1.0", "load more tags"]
    );
    assert_eq!(list.next_page(), Some("next".to_string()));
    assert_eq!(list.create_detail_widget().get_details().len(), 1);
    list.set_cursor(at(0));
    assert_eq!(
        list.create_detail_widget().get_details(),
        vec!["   ARCH   |  OS  | SIZE ", "  amd64   |linux | 3MB  "]
    );
    list.set_cursor(at(2));
    assert_eq!(list.create_detail_widget().get_details().len(), 1);
}

#[test]
fn images_become_tags() {
    let images = Images {
        images: vec![ImageDetails {
            architecture: "arm".to_string(),
            os: "linux".to_string(),
            variant: Some("v7".to_string()),
            size: 42,
        }, ImageDetails {
            architecture: "amd64".to_string(),
            os: "linux".to_string(),
            variant: None,
            size: 43,
        }],
        tag_name: "1.0".to_string(),
        last_updated: "2024-01-01T00:00:00Z".to_string(),
    };
    let tag = Images::from_tag(&images);
    assert_eq!(tag.get_name(), "1.0");
    assert_eq!(
        tag.get_last_updated(),
        &Some("2024-01-01T00:00:00Z".to_string())
    );
    assert_eq!(
        tag.get_details(),
        &vec![
            TagDetails {
                arch: Some("arm".to_string()),
                variant: Some("v7".to_string()),
                os: Some("linux".to_string()),
                size: Some(42),
            },
            TagDetails {
                arch: Some("amd64".to_string()),
                variant: Some("".to_string()),
                os: Some("linux".to_string()),
                size: Some(43),
            }
        ]
    );
}

#[test]
fn ghcr_names_become_a_last_page() {
    let repo = Ghcr {
        tags: vec!["a".to_string(), "b".to_string()],
    }
    .into_repo()
    .unwrap();
    assert_eq!(repo.get_tags().len(), 2);
    assert_eq!(repo.get_tags()[1].get_name(), "b");
    assert_eq!(repo.get_tags()[1].get_details().len(), 0);
    assert_eq!(repo.next_page(), None);
    assert_eq!(
        Ghcr { tags: vec![] }.into_repo().err(),
        Some(RepoError::NoTagsFound)
    );
    assert_eq!(
        Ghcr::token_url("a/b"),
        "https://ghcr.io/token?scope=repository:a/b:pull"
    );
    assert_eq!(
        Ghcr::request_url("a/b"),
        "https://ghcr.io/v2/a/b/tags/list?n=100"
    );
    assert_eq!(Ghcr::authorization("t0k"), "Bearer t0k");
}

#[test]
fn requests_go_to_docker_hub() {
    assert_eq!(
        Repo::new("nginx"),
        Ok("https://hub.docker.com/v2/repositories/library/nginx/tags".to_string())
    );
    assert_eq!(
        Repo::new("rocketchat/rocket.chat"),
        Ok("https://hub.docker.com/v2/repositories/rocketchat/rocket.chat/tags".to_string())
    );
    assert_eq!(
        Repo::new("ghcr.io/linuxserver/beets"),
        Err(RepoError::Converting(
            "This registry is not supported yet".to_string()
        ))
    );
    assert_eq!(
        Repo::new("NGINX"),
        Err(RepoError::Converting("Unexpected input".to_string()))
    );
    assert_eq!(
        DockerHub::create_repo("a/b"),
        "https://hub.docker.com/v2/repositories/a/b/tags"
    );
}

#[test]
fn a_tag_tells_its_age() {
    let tag = Tag::new(
        "1.0".to_string(),
        vec![],
        Some("2024-01-01T00:00:00+01:00".to_string()),
    );
    let updated = 1704067200 - 3600;
    assert_eq!(tag.name_with_age(updated + 59), "1.0, 59 Seconds old");
    assert_eq!(tag.name_with_age(updated + 60), "1.0, 1 Minute old");
    assert_eq!(tag.name_with_age(updated - 5), "1.0, -5 Seconds old");
    assert_eq!(tag.name_with_age(i64::MIN), "1.0");
    assert!(tag.get_name_with_details().starts_with("1.0, "));
    assert!(tag.get_name_with_details().ends_with(" old"));
    assert_eq!(tag.clone().name_with_age(updated + 60), "1.0, 1 Minute old");
    let tag = Tag::new("1.0".to_string(), vec![], None);
    assert_eq!(tag.name_with_age(5), "1.0");
    assert_eq!(tag.get_name_with_details(), "1.0");
    let tag = Tag::new("1.0".to_string(), vec![], Some("soon".to_string()));
    assert_eq!(tag.name_with_age(5), "1.0");
}

#[test]
fn a_copy_of_the_list_is_the_same_list() {
    let mut list = TagList::with_tags(page(&["a", "b"], Some("page2")));
    list.set_cursor(at(1));
    let copy = list.clone();
    assert_eq!(copy.lines_at(0), list.lines_at(0));
    assert_eq!(selected(&copy), Some(1));
    assert_eq!(copy.next_page(), Some("page2".to_string()));
}

#[test]
fn keys_move_the_cursor_of_the_list() {
    let mut list = TagList::with_tags(page(&["a", "b"], Some("next")));
    assert_eq!(list.handle_input(Key::Down), None);
    assert_eq!(list.handle_input(Key::Char('\n')), None);
    assert_eq!(list.handle_input(Key::Down), None);
    assert_eq!(selected(&list), Some(1));
    assert_eq!(list.handle_input(Key::Down), Some(()));
    assert_eq!(list.handle_input(Key::Up), None);
    assert_eq!(selected(&list), Some(0));
    assert_eq!(list.handle_input(Key::Char('x')), None);
    assert_eq!(list.handle_input(Key::Backspace), None);
    assert_eq!(selected(&list), Some(0));
    list.set_cursor(at(2));
    assert_eq!(list.handle_input(Key::Char('\n')), Some(()));
    assert_eq!(selected(&list), Some(2));
    assert_eq!(list.get_lines().len(), 3);
}
