use prompt_utils::env::path::{
    abbreviate_home, abbreviate_path, find_ancestor, strip_ancestor, AbbreviateHomeResult,
    Component, Path, StripAncestorError,
};

fn find(base: &str, path: &str) -> Option<Path> {
    find_ancestor(&Path::new(base), &Path::new(path))
}

#[test]
fn relative_does_not_match_absolute() {
    assert_eq!(find("/path/to", "path/to/something"), None);
    assert_eq!(find("path/to", "/path/to/something"), None);
    assert_eq!(find("", "/path/to/something"), None);
    assert_eq!(find("/", "path/to/something"), None);
}

#[test]
fn empty_base_always_matches_relative() {
    assert_eq!(find("", "path/to/something"), Some(Path::new("")));
    assert_eq!(find("", ""), Some(Path::new("")));
}

#[test]
fn root_base_always_matches_absolute() {
    assert_eq!(find("/", "/path/to/something"), Some(Path::new("/")));
    assert_eq!(find("/", "/"), Some(Path::new("/")));
}

#[test]
fn prefixes_must_match() {
    assert_eq!(find("C:/", "D:/path/to/something"), None);
    assert_eq!(find("C:/", "D:/"), None);
    assert_eq!(find("C:", "D:path/to/something"), None);
    assert_eq!(find("C:", "D:"), None);
    assert_eq!(find("C:/path/to", "D:/path/to/something"), None);
    assert_eq!(find("C:path/to", "D:path/to/something"), None);
}

#[test]
fn leading_current_dir_is_ignored() {
    assert_eq!(find("/./path/to", "path/to/something"), find("/path/to", "path/to/something"));
    assert_eq!(find("/path/to", "./path/to/something"), find("/path/to", "path/to/something"));
    assert_eq!(find("/./path/to", "./path/to/something"), find("/path/to", "path/to/something"));
    assert_eq!(find("./path/to", "/path/to/something"), find("path/to", "/path/to/something"));
    assert_eq!(find("path/to", "/./path/to/something"), find("path/to", "/path/to/something"));
    assert_eq!(find("./path/to", "/./path/to/something"), find("path/to", "/path/to/something"));
    assert_eq!(find(".", "/path/to/something"), find("", "/path/to/something"));
    assert_eq!(find("", "/./path/to/something"), find("", "/path/to/something"));
    assert_eq!(find(".", "/./path/to/something"), find("", "/path/to/something"));
    assert_eq!(find("/.", "path/to/something"), find("/", "path/to/something"));
    assert_eq!(find("/", "./path/to/something"), find("/", "path/to/something"));
    assert_eq!(find("/.", "./path/to/something"), find("/", "path/to/something"));
}

#[test]
fn parsing_follows_unix_conventions() {
    let normal = |s: &str| Component::Normal(s.to_string());
    assert_eq!(Path::new("").components, vec![]);
    assert_eq!(Path::new("/").components, vec![Component::RootDir]);
    assert_eq!(
        Path::new("//a/./b/../c/").components,
        vec![Component::RootDir, normal("a"), normal("b"), Component::ParentDir, normal("c")]
    );
    assert_eq!(Path::new("./a/.").components, vec![Component::CurDir, normal("a")]);
    assert_eq!(Path::new(".").components, vec![Component::CurDir]);
    assert_eq!(Path::new("a//b").components, vec![normal("a"), normal("b")]);
}

#[test]
fn matching_ancestor_is_found() {
    assert_eq!(find("/path", "/path/to/something"), Some(Path::new("/path")));
    assert_eq!(find("path/to", "path/to/something"), Some(Path::new("path/to")));
    assert_eq!(find("path/to", "./path/to/something"), Some(Path::new("./path/to")));
    assert_eq!(find("/path/else", "/path/to/something"), None);
    assert_eq!(find("/path/to/something/more", "/path/to/something"), None);
}

#[test]
fn strip_ancestor_gives_the_rest() {
    assert_eq!(
        strip_ancestor(&Path::new("/home/user"), &Path::new("/home/user/src/app")),
        Ok(Path::new("src/app"))
    );
    assert_eq!(
        strip_ancestor(&Path::new("/home/user"), &Path::new("/home/user")),
        Ok(Path::new(""))
    );
    assert_eq!(
        strip_ancestor(&Path::new("/home/other"), &Path::new("/home/user/src")),
        Err(StripAncestorError::BaseNotAnAcestorError)
    );
}

#[test]
fn abbreviate_path_replaces_the_ancestor() {
    assert_eq!(
        abbreviate_path(&Path::new("/home/user"), &Path::new("~"), &Path::new("/home/user/src")),
        Ok(Path::new("~/src"))
    );
    assert_eq!(
        abbreviate_path(&Path::new("/home/user"), &Path::new("~"), &Path::new("/tmp")),
        Err(StripAncestorError::BaseNotAnAcestorError)
    );
    assert_eq!(
        abbreviate_path(&Path::new(""), &Path::new("x"), &Path::new("./a")),
        Ok(Path::new("x/a"))
    );
}

#[test]
fn abbreviate_home_in_each_case() {
    let home = Path::new("/home/user");
    assert_eq!(
        abbreviate_home(Some(&home), Path::new("/home/user/projects/app")),
        AbbreviateHomeResult::Abbreviated(Path::new("~/projects/app"))
    );
    assert_eq!(
        abbreviate_home(Some(&home), Path::new("/home/user")),
        AbbreviateHomeResult::Abbreviated(Path::new("~"))
    );
    assert_eq!(
        abbreviate_home(Some(&home), Path::new("/etc")),
        AbbreviateHomeResult::HomeNotAnAcestor { path: Path::new("/etc") }
    );
    assert_eq!(
        abbreviate_home(None, Path::new("/etc")),
        AbbreviateHomeResult::NoHome { path: Path::new("/etc") }
    );
    assert_eq!(
        StripAncestorError::BaseNotAnAcestorError.message(),
        "`base` was not an ancestor of `path`."
    );
}
