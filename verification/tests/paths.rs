use github_update::paths::{config_dir, config_file, expand_tilde, join};
use std::path::{Path, PathBuf};

fn expand(path: &str, home: Option<&str>) -> Option<String> {
    expand_tilde(path, home)
}

#[test]
fn path_without_tilde_stays() {
    for path in ["", "/", "/etc/x", "relative/x", "./~", "~user/x", "~~", "a/~/b", "/~"] {
        assert_eq!(expand(path, Some("/home/u")), Some(path.to_string()), "for {:?}", path);
        assert_eq!(expand(path, None), Some(path.to_string()), "for {:?}", path);
    }
}

#[test]
fn tilde_alone_is_the_home_directory() {
    for path in ["~", "~/", "~//", "~/.", "~/./", "~/././/"] {
        assert_eq!(expand(path, Some("/home/u")), Some("/home/u".to_string()), "for {:?}", path);
        assert_eq!(expand(path, Some("/")), Some("/".to_string()), "for {:?}", path);
        assert_eq!(expand(path, None), None, "for {:?}", path);
    }
}

#[test]
fn tilde_and_more_goes_below_the_home_directory() {
    assert_eq!(expand("~/x", Some("/home/u")), Some("/home/u/x".to_string()));
    assert_eq!(expand("~/x/y.txt", Some("/home/u")), Some("/home/u/x/y.txt".to_string()));
    assert_eq!(expand("~/x", Some("/home/u/")), Some("/home/u/x".to_string()));
    assert_eq!(expand("~//x", Some("/home/u")), Some("/home/u/x".to_string()));
    assert_eq!(expand("~/./x/", Some("/home/u")), Some("/home/u/x".to_string()));
    assert_eq!(expand("~/x/./y//z/.", Some("/home/u")), Some("/home/u/x/./y//z".to_string()));
    assert_eq!(expand("~/..", Some("/home/u")), Some("/home/u/..".to_string()));
    assert_eq!(expand("~/.config", Some("/home/u")), Some("/home/u/.config".to_string()));
    assert_eq!(expand("~/d\u{e9}p\u{f4}t", Some("/home/\u{fc}")), Some("/home/\u{fc}/d\u{e9}p\u{f4}t".to_string()));
    assert_eq!(expand("~/x", Some("")), Some("x".to_string()));
    assert_eq!(expand("~/x", Some("home")), Some("home/x".to_string()));
    assert_eq!(expand("~/x", None), None);
}

#[test]
fn tilde_below_the_root_drops_the_tilde() {
    assert_eq!(expand("~/x", Some("/")), Some("x".to_string()));
    assert_eq!(expand("~/x/y/", Some("/")), Some("x/y".to_string()));
    assert_eq!(expand("~/x", Some("//")), Some("x".to_string()));
    assert_eq!(expand("~/x", Some("/.")), Some("x".to_string()));
    assert_eq!(expand("~/x", Some("/..")), Some("/../x".to_string()));
}

/// The same expansion, written with the paths of the standard library.
fn expand_with_std(path: &str, home: Option<&str>) -> Option<PathBuf> {
    let p = Path::new(path);
    let home = home.map(PathBuf::from);
    if p.starts_with("~") {
        if p == Path::new("~") {
            home
        } else {
            home.map(|mut h| {
                if h == Path::new("/") {
                    p.strip_prefix("~").unwrap().to_path_buf()
                } else {
                    h.push(p.strip_prefix("~/").unwrap());
                    h
                }
            })
        }
    } else {
        Some(p.to_path_buf())
    }
}

#[test]
fn expansion_agrees_with_the_standard_paths() {
    let paths = [
        "", "~", "~/", "~//", "~/.", "~/./", "~/..", "~/../", "~/x", "~//x", "~/./x", "~/x/", "~/x/.", "~/x//",
        "~/x/./y", "~/x//y", "~/.x", "~/x.", "~/x/..", "~/...", "~/. /x", "~x", "~x/y", "~~", ".~", "./~", "/~",
        "~/~", "~/~/", "a", "a/b", "/a/b", "/", "//", ".", "..", "~/a b/c", "~/\u{e9}/\u{4e2d}",
    ];
    let homes = [
        None,
        Some("/home/u"),
        Some("/home/u/"),
        Some("/home/u//"),
        Some("/"),
        Some("//"),
        Some("/."),
        Some("/./"),
        Some("/.."),
        Some("relative"),
        Some("."),
        Some("/h\u{f4}me"),
    ];
    for path in paths {
        for home in homes {
            let ours = expand_tilde(path, home).map(PathBuf::from);
            let theirs = expand_with_std(path, home);
            assert_eq!(
                ours.as_ref().map(|p| p.as_os_str()),
                theirs.as_ref().map(|p| p.as_os_str()),
                "for {:?} with home {:?}",
                path,
                home
            );
        }
    }
}

#[test]
fn join_puts_one_separator_between() {
    assert_eq!(join("/home/u", "x"), "/home/u/x");
    assert_eq!(join("/home/u/", "x"), "/home/u/x");
    assert_eq!(join("/", "x"), "/x");
    assert_eq!(join("", "x"), "x");
    assert_eq!(join("a", ""), "a/");
    assert_eq!(join("a/", ""), "a/");
    assert_eq!(join("/home/u", "/etc"), "/etc");
    assert_eq!(join("", "/"), "/");
}

#[test]
fn join_agrees_with_the_standard_paths() {
    for base in ["", "/", "a", "a/", "/a/b", "/a/b/", "a//", "."] {
        for rest in ["", "x", "x/y", "/x", "/", ".", "..", "x/"] {
            let mut theirs = PathBuf::from(base);
            theirs.push(rest);
            assert_eq!(
                PathBuf::from(join(base, rest)).as_os_str(),
                theirs.as_os_str(),
                "for {:?} and {:?}",
                base,
                rest
            );
        }
    }
}

#[test]
fn config_dir_prefers_the_platform_directory() {
    assert_eq!(
        config_dir(Some("/home/u/.config"), Some("/home/u")),
        Some("/home/u/.config/github-update".to_string())
    );
    assert_eq!(config_dir(Some("/home/u/.config"), None), Some("/home/u/.config/github-update".to_string()));
    assert_eq!(config_dir(None, Some("/home/u")), Some("/home/u/.github-update".to_string()));
    assert_eq!(config_dir(None, Some("/")), Some("/.github-update".to_string()));
    assert_eq!(config_dir(None, None), None);
}

#[test]
fn config_file_is_in_the_directory() {
    assert_eq!(config_file("/home/u/.config/github-update"), "/home/u/.config/github-update/config.toml");
    assert_eq!(config_file("/home/u/.github-update/"), "/home/u/.github-update/config.toml");
}
