use coverage_http::error::CoverageError;
use coverage_http::path::FilePath;
use coverage_http::request::{Reply, Request};
use coverage_http::tool_search::{find_llvm_tool, SearchStage};

fn path(text: &str) -> FilePath {
    FilePath::from_text(text)
}

struct World {
    programs: Vec<(&'static str, &'static str)>,
    home: Option<&'static str>,
    listing: Option<Vec<Option<&'static str>>>,
    files: Vec<&'static str>,
}

impl World {
    fn empty() -> World {
        World { programs: Vec::new(), home: None, listing: None, files: Vec::new() }
    }

    fn reply(&self, request: &Request) -> Reply {
        match request {
            Request::Locate(name) => Reply::Located(
                self.programs.iter().find(|(n, _)| n == name).map(|(_, p)| path(p)),
            ),
            Request::Variable(name) => {
                assert_eq!(name, "RUSTUP_HOME");
                Reply::Variable(self.home.map(|h| h.to_string()))
            }
            Request::ListDir(dir) => {
                assert_eq!(*dir, path("/home/.rustup/toolchains"));
                match &self.listing {
                    Some(names) => Reply::Entries(
                        names.iter().map(|n| n.map(path)).collect::<Vec<Option<FilePath>>>(),
                    ),
                    None => Reply::Failed("no such directory".to_string()),
                }
            }
            Request::Architecture => Reply::Text("x86_64".to_string()),
            Request::Exists(p) => Reply::Exists(self.files.iter().any(|f| path(f) == *p)),
            other => panic!("{:?}", other),
        }
    }
}

fn search(name: &str, world: &World) -> (Vec<Request>, Result<FilePath, CoverageError>) {
    let mut task = find_llvm_tool(name);
    let mut asked = Vec::new();
    while let Some(request) = task.request() {
        let reply = world.reply(&request);
        asked.push(request);
        task = task.resume(reply);
    }
    match task.stage {
        SearchStage::Done(outcome) => (asked, outcome),
        stage => panic!("{:?}", stage),
    }
}

fn locate(name: &str) -> Request {
    Request::Locate(name.to_string())
}

#[test]
fn the_plain_name_goes_first() {
    let mut world = World::empty();
    world.programs = vec![("llvm-cov-20", "/b/llvm-cov-20"), ("llvm-cov", "/b/llvm-cov")];
    let (asked, found) = search("llvm-cov", &world);
    assert_eq!(found, Ok(path("/b/llvm-cov")));
    assert_eq!(asked, vec![locate("llvm-cov")]);
}

#[test]
fn newer_versions_go_before_older() {
    let mut world = World::empty();
    world.programs = vec![("llvm-profdata-14", "/b/14"), ("llvm-profdata-17", "/b/17")];
    let (asked, found) = search("llvm-profdata", &world);
    assert_eq!(found, Ok(path("/b/17")));
    assert_eq!(
        asked,
        vec![
            locate("llvm-profdata"),
            locate("llvm-profdata-20"),
            locate("llvm-profdata-19"),
            locate("llvm-profdata-18"),
            locate("llvm-profdata-17"),
        ]
    );
}

#[test]
fn toolchains_are_tried_in_the_order_of_their_listing() {
    let mut world = World::empty();
    world.programs = vec![("rust-cov", "/cargo/rust-cov")];
    world.home = Some("/home/.rustup");
    world.listing = Some(vec![Some("beta"), None, Some("nightly"), Some("stable")]);
    let nightly = "/home/.rustup/toolchains/nightly/lib/rustlib/x86_64-unknown-linux-gnu/bin/llvm-cov";
    let stable = "/home/.rustup/toolchains/stable/lib/rustlib/x86_64-unknown-linux-gnu/bin/llvm-cov";
    world.files = vec![stable, nightly];
    let (asked, found) = search("llvm-cov", &world);
    assert_eq!(found, Ok(path(nightly)));
    assert_eq!(asked.len(), 8 + 3 + 2);
    assert_eq!(asked[7], locate("llvm-cov-14"));
}

#[test]
fn the_binutils_name_goes_last() {
    let mut world = World::empty();
    world.programs = vec![("rust-profdata", "/cargo/rust-profdata")];
    for (home, listing) in [
        (None, None),
        (Some("/home/.rustup"), None),
        (Some("/home/.rustup"), Some(Vec::new())),
        (Some("/home/.rustup"), Some(vec![None, Some("stable")])),
    ] {
        world.home = home;
        world.listing = listing;
        let (asked, found) = search("llvm-profdata", &world);
        assert_eq!(found, Ok(path("/cargo/rust-profdata")));
        assert_eq!(*asked.last().unwrap(), locate("rust-profdata"));
    }
}

#[test]
fn a_tool_that_is_nowhere_is_an_error() {
    let (asked, found) = search("llvm-cov", &World::empty());
    assert_eq!(
        found,
        Err(CoverageError::ToolNotFound(
            "Could not find 'llvm-cov'. Install LLVM tools or use `rustup component add \
             llvm-tools-preview` and `cargo install cargo-binutils`."
                .to_string()
        ))
    );
    assert_eq!(asked.len(), 10);
}

#[test]
fn a_reply_that_was_not_asked_for_changes_nothing() {
    let task = find_llvm_tool("llvm-cov").resume(Reply::Done).resume(Reply::Exists(true));
    assert_eq!(task, find_llvm_tool("llvm-cov"));
}
