use cargo_wasm::assets::{
    asset_path, find_script, is_script_name, member_path, route, ContentKind, Reply, Route,
};
use cargo_wasm::harness::{HARNESS_PAGE, LOADER_PATH, ROOT_PATH};

fn names(list: &[&str]) -> Vec<String> {
    list.iter().map(|name| name.to_string()).collect()
}

#[test]
fn the_root_path_is_the_harness_page() {
    assert_eq!(route("/"), Route::Harness);
    assert_eq!(route(ROOT_PATH), Route::Harness);
}

#[test]
fn the_loader_path_is_the_loader_script() {
    assert_eq!(route("/load.js"), Route::Loader);
    assert_eq!(route(LOADER_PATH), Route::Loader);
}

#[test]
fn every_other_path_is_an_asset() {
    assert_eq!(route("/program.wasm"), Route::Asset);
    assert_eq!(route(""), Route::Asset);
    assert_eq!(route("//"), Route::Asset);
    assert_eq!(route("/load.js?x=1"), Route::Asset);
    assert_eq!(route("/LOAD.JS"), Route::Asset);
    assert_eq!(route("/../secret"), Route::Asset);
}

#[test]
fn the_harness_reply_carries_the_page_as_html() {
    let reply = Reply::harness();
    assert_eq!(reply.status, 200);
    assert_eq!(reply.kind, ContentKind::Html);
    assert_eq!(reply.body, HARNESS_PAGE.as_bytes().to_vec());
}

#[test]
fn the_harness_page_buffers_the_console_and_loads_the_loader() {
    assert!(HARNESS_PAGE.contains("window.TEST_LOGS = [];"));
    assert!(HARNESS_PAGE.contains("window.TEST_LOGS.push(args.join(' '));"));
    assert!(HARNESS_PAGE.contains("<script src='/load.js'></script>"));
}

#[test]
fn a_missing_file_is_answered_softly() {
    assert_eq!(
        Reply::missing(),
        Reply { status: 200, kind: ContentKind::Plain, body: b"file not found".to_vec() }
    );
    assert_eq!(Reply::deliver(None), Reply::missing());
}

#[test]
fn a_file_is_answered_with_its_bytes() {
    let bytes = vec![0u8, 97, 115, 109, 1, 0, 0, 0, 255];
    assert_eq!(
        Reply::file(bytes.clone()),
        Reply { status: 200, kind: ContentKind::Raw, body: bytes.clone() }
    );
    assert_eq!(Reply::deliver(Some(bytes.clone())), Reply::file(bytes));
    assert_eq!(Reply::deliver(Some(vec![])).body, Vec::<u8>::new());
}

#[test]
fn script_names_end_in_the_script_suffix() {
    assert!(is_script_name("program.js"));
    assert!(is_script_name("a.js"));
    assert!(is_script_name("program.min.js"));
    assert!(is_script_name("..js"));
    assert!(is_script_name("\u{e9}t\u{e9}.js"));
}

#[test]
fn other_names_are_no_script_names() {
    assert!(!is_script_name(".js"));
    assert!(!is_script_name("js"));
    assert!(!is_script_name(""));
    assert!(!is_script_name("program.wasm"));
    assert!(!is_script_name("program.js.map"));
    assert!(!is_script_name("program.JS"));
    assert!(!is_script_name("programjs"));
    assert!(!is_script_name("program.js "));
}

#[test]
fn the_first_script_of_a_directory_is_found() {
    assert_eq!(find_script(&names(&["program.wasm", "program.js"])), Some(1));
    assert_eq!(find_script(&names(&["program.js", "program.wasm"])), Some(0));
    assert_eq!(find_script(&names(&["a.d", "b.js", "c.js", "d.rlib"])), Some(1));
}

#[test]
fn a_directory_without_script_has_none() {
    assert_eq!(find_script(&names(&[])), None);
    assert_eq!(find_script(&names(&["program.wasm", ".js", "readme"])), None);
}

#[test]
fn an_asset_path_is_the_directory_and_the_request_path() {
    assert_eq!(asset_path("./out", "/program.wasm"), "./out/program.wasm");
    assert_eq!(asset_path("./out", "/../etc/passwd"), "./out/../etc/passwd");
    assert_eq!(asset_path("./out", ""), "./out");
    assert_eq!(asset_path("", "/x"), "/x");
}

#[test]
fn a_member_path_joins_directory_and_name() {
    assert_eq!(member_path("./out", "program.js"), "./out/program.js");
    assert_eq!(member_path("", "a"), "/a");
}
