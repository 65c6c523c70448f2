use coverage_http::path::{has_profraw_extension, FilePath};
use std::path::Path;

fn path(text: &str) -> FilePath {
    FilePath::from_text(text)
}

#[test]
fn paths_are_joined_as_std_joins_them() {
    let bases = ["", "/", "out", "out/", "./coverage-output", "/a/b", "a//"];
    let names = ["", "e2e", "/abs", "a/b", "..", "../x", "/"];
    for base in bases {
        for name in names {
            let expected = Path::new(base).join(name);
            assert_eq!(path(base).join_text(name).display(), expected.display().to_string());
            assert_eq!(path(base).join(&path(name)), path(base).join_text(name));
        }
    }
}

#[test]
fn paths_are_displayed() {
    assert_eq!(path("/opt/app").display(), "/opt/app");
    assert_eq!(FilePath { bytes: vec![0x2f, 0xfe] }.display(), "/\u{fffd}");
    assert_eq!(path("x").copy(), path("x"));
}

#[test]
fn profile_data_is_known_by_its_extension() {
    for name in [
        "a.profraw", "coverage.1.2.profraw", ".profraw", "..profraw", "profraw", "a.profraw.txt",
        "a.PROFRAW", "aprofraw", "a.profdata", "", "é.profraw", " .profraw",
    ] {
        let expected = Path::new(name).extension().is_some_and(|ext| ext == "profraw");
        assert_eq!(has_profraw_extension(&path(name)), expected, "{:?}", name);
    }
    let odd = FilePath { bytes: vec![0xff, b'.', b'p', b'r', b'o', b'f', b'r', b'a', b'w'] };
    assert!(has_profraw_extension(&odd));
}

#[test]
fn relative_names_go_behind_their_directory() {
    let joined = path("out/e2e").join_text("coverage.txt");
    assert_eq!(joined, path("out/e2e/coverage.txt"));
    assert_eq!(path("out/").join_text("../x"), path("out/../x"));
}
