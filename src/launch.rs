//! Fetching and unpacking the Node.js runtime, and launching the bundled
//! development server: the fixed locations, the command lines, and the check
//! made on the server's output.
use vstd::prelude::*;

verus! {

/// The Node.js runtime archive that is downloaded.
pub const NODE_ARCHIVE_URL: &'static str = "https://nodejs.org/dist/v18.12.1/node-v18.12.1-linux-x64.tar.xz";

/// The directory the archive is downloaded into.
pub const DOWNLOAD_DIR: &'static str = "/home/charly/";

/// Where the downloaded archive lies.
pub const ARCHIVE_PATH: &'static str = "/home/charly/node-v18.12.1-linux-x64.tar.xz";

/// The application directory: the archive is unpacked here, and the server
/// runs from here.
pub const APP_DIR: &'static str = "/home/charly/repo/phoenix";

/// The archive tool.
pub const TAR_PROGRAM: &'static str = "tar";

/// The npm binary of the unpacked runtime.
pub const NPM_PROGRAM: &'static str = "/home/charly/repo/phoenix/node-v18.12.1-linux-x64/bin/npm";

/// The texts of a list of command arguments.
pub open spec fn arg_texts(args: Seq<String>) -> Seq<Seq<char>> {
    args.map_values(|a: String| a@)
}

/// `tar -xvf <archive> -C <dest>`: unpack `archive` into `dest`, listing the
/// files.
pub open spec fn unpack_arg_texts(archive: Seq<char>, dest: Seq<char>) -> Seq<Seq<char>> {
    seq!["-xvf"@, archive, "-C"@, dest]
}

/// `npm run serve --prefix <app_dir>`: run the `serve` script of the package
/// in `app_dir`.
pub open spec fn serve_arg_texts(app_dir: Seq<char>) -> Seq<Seq<char>> {
    seq!["run"@, "serve"@, "--prefix"@, app_dir]
}

/// The bytes `hello world`, which the server launcher expects as the
/// server's whole standard output.
pub open spec fn expected_server_output() -> Seq<u8> {
    seq![104u8, 101u8, 108u8, 108u8, 111u8, 32u8, 119u8, 111u8, 114u8, 108u8, 100u8]
}

/// The arguments given to the archive tool to unpack `archive` into `dest`.
pub fn unpack_args(archive: &str, dest: &str) -> (r: Vec<String>)
    ensures
        arg_texts(r@) == unpack_arg_texts(archive@, dest@),
{
    let mut r: Vec<String> = Vec::new();
    r.push(String::from_str("-xvf"));
    r.push(String::from_str(archive));
    r.push(String::from_str("-C"));
    r.push(String::from_str(dest));
    assert(arg_texts(r@) =~= unpack_arg_texts(archive@, dest@));
    r
}

/// The arguments given to npm to start the server of the package in
/// `app_dir`.
pub fn serve_args(app_dir: &str) -> (r: Vec<String>)
    ensures
        arg_texts(r@) == serve_arg_texts(app_dir@),
{
    let mut r: Vec<String> = Vec::new();
    r.push(String::from_str("run"));
    r.push(String::from_str("serve"));
    r.push(String::from_str("--prefix"));
    r.push(String::from_str(app_dir));
    assert(arg_texts(r@) =~= serve_arg_texts(app_dir@));
    r
}

/// Whether the server's captured standard output is exactly `hello world`,
/// as the launcher asserts. Any other output, a real server's included, fails.
pub fn server_output_matches(stdout: &[u8]) -> (r: bool)
    ensures
        r == (stdout@ == expected_server_output()),
{
    let expected: Vec<u8> = vec![104u8, 101u8, 108u8, 108u8, 111u8, 32u8, 119u8, 111u8, 114u8, 108u8, 100u8];
    assert(expected@ =~= expected_server_output());
    if stdout.len() != expected.len() {
        return false;
    }
    let mut i: usize = 0;
    while i < stdout.len()
        invariant
            expected@ == expected_server_output(),
            stdout@.len() == expected@.len(),
            i <= stdout@.len(),
            stdout@.subrange(0, i as int) == expected@.subrange(0, i as int),
        decreases stdout@.len() - i,
    {
        if stdout[i] != expected[i] {
            assert(stdout@[i as int] != expected@[i as int]);
            return false;
        }
        assert(stdout@.subrange(0, i + 1) =~= expected@.subrange(0, i + 1)) by {
            assert(stdout@.subrange(0, i as int) =~= expected@.subrange(0, i as int));
        }
        i = i + 1;
    }
    assert(stdout@ =~= stdout@.subrange(0, i as int));
    assert(expected@ =~= expected@.subrange(0, i as int));
    true
}

} // verus!
