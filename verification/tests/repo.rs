use dockertags::error::Error;
use dockertags::repo::{
    match_yaml_image, repo_from_pieces, split_repo_without_tag, split_tag_from_repo,
    tagged_parts, yaml_image_parts, Repo,
};
use dockertags::repository::{self, check_repo, name_of};

#[test]
fn test_split_repo_without_tag_error() {
    let input: Vec<&str> = vec!["", "NGINX"];
    for i in input {
        assert!(split_repo_without_tag(i).is_err());
    }
}

#[test]
fn test_split_repo_without_tag() -> Result<(), Error> {
    let input: Vec<(&str, Repo)> = vec![
        ("nginx", Repo::Project("nginx".into())),
        (
            "library/nginx",
            Repo::WithOrga("library".into(), "nginx".into()),
        ),
        (
            "ghcr.io/library/nginx",
            Repo::WithServer("ghcr.io".into(), "library".into(), "nginx".into()),
        ),
        (
            "te-st/test-hypen",
            Repo::WithOrga("te-st".into(), "test-hypen".into()),
        ),
        (
            "test/test.dot",
            Repo::WithOrga("test".into(), "test.dot".into()),
        ),
    ];

    for i in input {
        assert_eq!(split_repo_without_tag(i.0)?, i.1);
    }
    Ok(())
}

#[test]
fn test_match_yaml_image_error() {
    let input: Vec<&str> = vec!["", "version: '2'", "image: ", "  image: "];
    for i in input {
        assert!(match_yaml_image(i).is_err());
    }
}

#[test]
fn test_match_yaml_image() -> Result<(), Error> {
    let input: Vec<(&str, (&str, &str))> = vec![
        ("  image: nginx", ("  image: ", "nginx")),
        ("  image: library/nginx", ("  image: ", "library/nginx")),
        (
            "  image: ghcr.io/library/nginx",
            ("  image: ", "ghcr.io/library/nginx"),
        ),
        ("  image: nginx # comment", ("  image: ", "nginx")),
        ("  image: test-hyphen", ("  image: ", "test-hyphen")),
        ("  image: test.dot", ("  image: ", "test.dot")),
    ];

    for i in input {
        assert_eq!(match_yaml_image(i.0)?, i.1);
    }
    Ok(())
}

#[test]
fn test_split_tag_from_repo() -> Result<(), Error> {
    let input: Vec<(&str, (&str, &str))> = vec![
        ("nginx", ("nginx", "")),
        ("library/nginx", ("library/nginx", "")),
        ("ghcr.io/library/nginx", ("ghcr.io/library/nginx", "")),
        ("nginx:", ("nginx", "")),
        ("nginx:1", ("nginx", "1")),
        ("nginx:latest", ("nginx", "latest")),
        ("hy-phen:latest", ("hy-phen", "latest")),
        ("test.dot:latest", ("test.dot", "latest")),
        (
            "woodpeckerci/woodpecker-server",
            ("woodpeckerci/woodpecker-server", ""),
        ),
    ];

    for i in input {
        assert_eq!(split_tag_from_repo(i.0)?, i.1);
    }
    Ok(())
}

#[test]
fn mod_test_check_repo() {
    assert_eq!(check_repo("nginx").unwrap(), "library/nginx");
    assert_eq!(check_repo("library/nginx").unwrap(), "library/nginx");
    assert_eq!(
        check_repo("rocketchat/rocket.chat").unwrap(),
        "rocketchat/rocket.chat"
    );
}

#[test]
fn match_yaml_image_reports_no_tag_found() {
    assert_eq!(match_yaml_image("services:"), Err(Error::NoTagFound));
}

#[test]
fn split_repo_trims_the_white_space_round_the_name() {
    assert_eq!(
        split_repo_without_tag("  library/nginx\n"),
        Ok(Repo::WithOrga("library".into(), "nginx".into()))
    );
}

#[test]
fn split_repo_refuses_more_than_three_parts() {
    assert_eq!(split_repo_without_tag("a/b/c/d"), Err(Error::MisformedInput));
}

#[test]
fn split_repo_keeps_empty_parts_between_slashes() {
    assert_eq!(
        split_repo_without_tag("a//b"),
        Err(Error::MisformedInput)
    );
    assert_eq!(split_repo_without_tag("ab/cd/"), Err(Error::MisformedInput));
    assert_eq!(
        split_repo_without_tag("x-ab/cd/ef-y"),
        Ok(Repo::WithServer("x-ab".into(), "cd".into(), "ef-y".into()))
    );
}

#[test]
fn check_repo_wraps_a_name_that_cannot_be_read() {
    assert_eq!(
        check_repo("NGINX"),
        Err(Error::Converting("Unexpected input".to_string()))
    );
}

#[test]
fn check_repo_drops_the_tag_of_a_name_with_an_organisation() {
    assert_eq!(check_repo("library/nginx:1.25").unwrap(), "library/nginx");
}

#[test]
fn error_messages() {
    assert_eq!(Error::NoTagFound.message(), "Expected a tag");
    assert_eq!(Error::MisformedInput.message(), "Unexpected input");
    assert_eq!(
        Error::Converting("x".to_string()).message(),
        "Converting error: x"
    );
    assert_eq!(
        Error::NoTagsFound.message(),
        "Given Repo does not exists or has 0 tags."
    );
    assert_eq!(Error::Serde("x".to_string()).message(), "Serde error: x");
    assert_eq!(Error::Reqwest("x".to_string()).message(), "reqwest error: x");
    assert_eq!(
        Error::ChannelSendError("x".to_string()).message(),
        "sending to channel error: x"
    );
}

#[test]
fn check_repo_keeps_the_tag_of_a_bare_name() {
    assert_eq!(check_repo("nginx:1.0").unwrap(), "library/nginx:1.0");
}

#[test]
fn pieces_become_an_identifier_where_the_pattern_was_found() {
    assert_eq!(
        repo_from_pieces(vec!["nginx"], true),
        Ok(Repo::Project("nginx".into()))
    );
    assert_eq!(
        repo_from_pieces(vec!["a", "b"], true),
        Ok(Repo::WithOrga("a".into(), "b".into()))
    );
    assert_eq!(
        repo_from_pieces(vec!["a", "b", "c"], true),
        Ok(Repo::WithServer("a".into(), "b".into(), "c".into()))
    );
    assert_eq!(
        repo_from_pieces(vec!["a", "b", "c"], false),
        Err(Error::MisformedInput)
    );
    assert_eq!(repo_from_pieces(vec![], true), Err(Error::MisformedInput));
    assert_eq!(
        repo_from_pieces(vec!["a", "b", "c", "d"], true),
        Err(Error::MisformedInput)
    );
}

#[test]
fn captured_groups_of_a_manifest_line() {
    assert_eq!(
        yaml_image_parts(Some(vec![Some("  image: a"), Some("  image: "), Some("a")])),
        Ok(("  image: ", "a"))
    );
    assert_eq!(yaml_image_parts(None), Err(Error::NoTagFound));
    assert_eq!(
        yaml_image_parts(Some(vec![Some("x"), Some("y")])),
        Err(Error::NoTagFound)
    );
    assert_eq!(
        yaml_image_parts(Some(vec![Some("x"), None, Some("y")])),
        Err(Error::NoTagFound)
    );
    assert_eq!(
        yaml_image_parts(Some(vec![Some("x"), Some("y"), None])),
        Err(Error::NoTagFound)
    );
}

#[test]
fn captured_groups_of_an_identifier() {
    assert_eq!(
        tagged_parts(Some(vec![Some("a:b"), Some("a"), Some("b")])),
        Ok(("a", "b"))
    );
    assert_eq!(
        tagged_parts(Some(vec![Some("a"), Some("a"), None])),
        Ok(("a", ""))
    );
    assert_eq!(tagged_parts(Some(vec![Some("a"), Some("a")])), Ok(("a", "")));
    assert_eq!(
        tagged_parts(Some(vec![Some("a"), None, Some("b")])),
        Err(Error::MisformedInput)
    );
    assert_eq!(tagged_parts(Some(vec![Some("a")])), Err(Error::MisformedInput));
    assert_eq!(tagged_parts(None), Err(Error::MisformedInput));
}

#[test]
fn the_name_for_the_registry() {
    assert_eq!(
        name_of(Ok(("nginx", "1")), Ok(Repo::Project("nginx:1".into()))),
        Ok("library/nginx:1".to_string())
    );
    assert_eq!(
        name_of(Ok(("a/b", "1")), Ok(Repo::WithOrga("a".into(), "b:1".into()))),
        Ok("a/b".to_string())
    );
    assert_eq!(
        name_of(
            Ok(("s/a/b", "")),
            Ok(Repo::WithServer("s".into(), "a".into(), "b".into()))
        ),
        Ok("s/a/b".to_string())
    );
    assert_eq!(
        name_of(Err(Error::NoTagFound), Ok(Repo::Project("nginx".into()))),
        Err(Error::NoTagFound)
    );
    assert_eq!(
        name_of(Ok(("a", "")), Err(Error::NoTagsFound)),
        Err(Error::Converting(
            "Given Repo does not exists or has 0 tags.".to_string()
        ))
    );
}

#[test]
fn the_request_for_an_identifier() {
    assert_eq!(
        repository::Repo::request_for(Ok(Repo::WithServer("".into(), "a".into(), "b".into()))),
        Ok("https://hub.docker.com/v2/repositories/a/b/tags".to_string())
    );
    assert_eq!(
        repository::Repo::request_for(Ok(Repo::WithServer(
            "quay.io".into(),
            "a".into(),
            "b".into()
        ))),
        Err(Error::Converting(
            "This registry is not supported yet".to_string()
        ))
    );
    assert_eq!(
        repository::Repo::request_for(Ok(Repo::WithOrga("a".into(), "b".into()))),
        Ok("https://hub.docker.com/v2/repositories/a/b/tags".to_string())
    );
    assert_eq!(
        repository::Repo::request_for(Ok(Repo::Project("b".into()))),
        Ok("https://hub.docker.com/v2/repositories/library/b/tags".to_string())
    );
    assert_eq!(
        repository::Repo::request_for(Err(Error::NoTagFound)),
        Err(Error::Converting("Expected a tag".to_string()))
    );
}

#[test]
fn an_age_in_words() {
    assert_eq!(repository::age(100, Some(40)), ", 1 Minute old");
    assert_eq!(repository::age(100, Some(100)), ", 0 Seconds old");
    assert_eq!(repository::age(100, None), "");
    assert_eq!(repository::age(i64::MAX, Some(-1)), "");
    assert_eq!(
        repository::age(i64::MAX, Some(0)),
        ", 293274701009 Years old"
    );
}
