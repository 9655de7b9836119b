use phoenix::launch::{
    serve_args, server_output_matches, unpack_args, APP_DIR, ARCHIVE_PATH, DOWNLOAD_DIR,
    NODE_ARCHIVE_URL, NPM_PROGRAM, TAR_PROGRAM,
};

#[test]
fn unpack_args_for_runtime_archive() {
    assert_eq!(
        unpack_args(ARCHIVE_PATH, APP_DIR),
        vec![
            "-xvf",
            "/home/charly/node-v18.12.1-linux-x64.tar.xz",
            "-C",
            "/home/charly/repo/phoenix"
        ]
    );
}

#[test]
fn unpack_args_keep_given_paths() {
    assert_eq!(unpack_args("a b.tar", ""), vec!["-xvf", "a b.tar", "-C", ""]);
}

#[test]
fn serve_args_for_app_dir() {
    assert_eq!(
        serve_args(APP_DIR),
        vec!["run", "serve", "--prefix", "/home/charly/repo/phoenix"]
    );
    assert_eq!(serve_args("/x"), vec!["run", "serve", "--prefix", "/x"]);
}

#[test]
fn fixed_locations() {
    assert_eq!(
        NODE_ARCHIVE_URL,
        "https://nodejs.org/dist/v18.12.1/node-v18.12.1-linux-x64.tar.xz"
    );
    assert_eq!(DOWNLOAD_DIR, "/home/charly/");
    assert_eq!(TAR_PROGRAM, "tar");
    assert_eq!(
        NPM_PROGRAM,
        "/home/charly/repo/phoenix/node-v18.12.1-linux-x64/bin/npm"
    );
    assert!(ARCHIVE_PATH.starts_with(DOWNLOAD_DIR));
    assert!(NODE_ARCHIVE_URL.ends_with(&ARCHIVE_PATH[DOWNLOAD_DIR.len()..]));
}

#[test]
fn server_output_exact_match() {
    assert!(server_output_matches(b"hello world"));
}

#[test]
fn realistic_server_output_fails_check() {
    let out = b"\n> phoenix@0.1.0 serve\n> vue-cli-service serve\n\n DONE  Compiled successfully\n  App running at:\n  - Local:   http://localhost:8000/\n";
    assert!(!server_output_matches(out));
}

#[test]
fn near_miss_outputs_fail_check() {
    assert!(!server_output_matches(b""));
    assert!(!server_output_matches(b"hello world\n"));
    assert!(!server_output_matches(b"hello worl"));
    assert!(!server_output_matches(b"Hello world"));
    assert!(!server_output_matches(b"hello_world"));
}
