//! Construction of the request URLs and the local target paths.
//!
//! All transport is plain HTTP against a fixed set of paths on the
//! configured host, and every local path is the output directory joined
//! with the remote names by `/`.

use vstd::prelude::*;
use vstd::string::StringExecFns;

verus! {

/// The availability probe endpoint on `host`.
pub open spec fn props_url_spec(host: Seq<char>) -> Seq<char> {
    "http://"@ + host + "/v1/props"@
}

/// The listing endpoint on `host`.
pub open spec fn photos_url_spec(host: Seq<char>) -> Seq<char> {
    "http://"@ + host + "/v1/photos"@
}

/// The download endpoint for file `file` of directory `dir` on `host`.
pub open spec fn photo_url_spec(host: Seq<char>, dir: Seq<char>, file: Seq<char>) -> Seq<char> {
    "http://"@ + host + "/v1/photos/"@ + dir + "/"@ + file
}

/// The local directory that mirrors remote directory `dir`.
pub open spec fn dir_path_spec(output_dir: Seq<char>, dir: Seq<char>) -> Seq<char> {
    output_dir + "/"@ + dir
}

/// The local file that mirrors file `file` of remote directory `dir`.
pub open spec fn file_path_spec(output_dir: Seq<char>, dir: Seq<char>, file: Seq<char>) -> Seq<
    char,
> {
    dir_path_spec(output_dir, dir) + "/"@ + file
}

/// Builds the availability probe URL.
pub fn props_url(host: &str) -> (r: String)
    ensures
        r@ == props_url_spec(host@),
{
    let mut s = String::new();
    s.append("http://");
    s.append(host);
    s.append("/v1/props");
    proof {
        assert(s@ =~= props_url_spec(host@));
    }
    s
}

/// Builds the listing URL.
pub fn photos_url(host: &str) -> (r: String)
    ensures
        r@ == photos_url_spec(host@),
{
    let mut s = String::new();
    s.append("http://");
    s.append(host);
    s.append("/v1/photos");
    proof {
        assert(s@ =~= photos_url_spec(host@));
    }
    s
}

/// Builds the download URL for one file.
pub fn photo_url(host: &str, dir: &str, file: &str) -> (r: String)
    ensures
        r@ == photo_url_spec(host@, dir@, file@),
{
    let mut s = String::new();
    s.append("http://");
    s.append(host);
    s.append("/v1/photos/");
    s.append(dir);
    s.append("/");
    s.append(file);
    proof {
        assert(s@ =~= photo_url_spec(host@, dir@, file@));
    }
    s
}

/// Builds the local path of the directory that mirrors `dir`.
pub fn dir_path(output_dir: &str, dir: &str) -> (r: String)
    ensures
        r@ == dir_path_spec(output_dir@, dir@),
{
    let mut s = String::new();
    s.append(output_dir);
    s.append("/");
    s.append(dir);
    proof {
        assert(s@ =~= dir_path_spec(output_dir@, dir@));
    }
    s
}

/// Builds the local path of the file that mirrors `file` of `dir`.
pub fn file_path(output_dir: &str, dir: &str, file: &str) -> (r: String)
    ensures
        r@ == file_path_spec(output_dir@, dir@, file@),
{
    let mut s = String::new();
    s.append(output_dir);
    s.append("/");
    s.append(dir);
    s.append("/");
    s.append(file);
    proof {
        assert(s@ =~= file_path_spec(output_dir@, dir@, file@));
    }
    s
}

} // verus!
