//! Uploaded files: the temporary name and path a file is written under, the
//! size limits, and the public link of a file stored in the bucket.
use crate::helpers::socket::{digits, natural_string};
use crate::types::{reply, Response};
use vstd::prelude::*;
use vstd::string::StringExecFns;

verus! {

/// Largest accepted logo or profile image, in bytes.
pub const IMAGE_MAX_BYTES: u64 = 5000000;

/// Largest accepted file of an asset folder, in bytes.
pub const FILE_MAX_BYTES: u64 = 10000000;

/// The name under which an upload is stored: `{micros}-{client file name}`,
/// `micros` being the microseconds since the Unix epoch at upload time.
pub open spec fn temp_file_name_of(micros: nat, name: Seq<char>) -> Seq<char> {
    digits(micros) + "-"@ + name
}

/// `{micros}-{name}`.
pub fn temp_file_name(micros: u128, name: &str) -> (s: String)
    ensures
        s@ == temp_file_name_of(micros as nat, name@),
{
    let mut s = natural_string(micros);
    s.append("-");
    s.append(name);
    s
}

/// What `sanitize_filename` makes of a file name: illegal, control and
/// reserved characters removed, cut to 255 bytes.
pub uninterp spec fn sanitized(name: Seq<char>) -> Seq<char>;

/// Makes a file name safe for the local file system with
/// `sanitize_filename::sanitize_with_options` (the options a Unix host takes
/// by default: no Windows rules, truncation on, illegal characters dropped).
/// Trusted: the result is `sanitized` of the name, and, since `/` is one of
/// the characters the crate removes, it holds no `/`.
#[verifier::external_body]
fn sanitize_name(name: &str) -> (r: String)
    ensures
        r@ == sanitized(name@),
        !r@.contains('/'),
{
    let options = sanitize_filename::Options { windows: false, truncate: true, replacement: "" };
    sanitize_filename::sanitize_with_options(name, options)
}

/// The temporary path an upload is written to.
pub open spec fn temp_file_path_of(name: Seq<char>) -> Seq<char> {
    "./tmp/"@ + sanitized(name)
}

/// `./tmp/{sanitized name}`: a path directly inside `./tmp`.
pub fn temp_file_path(name: &str) -> (s: String)
    ensures
        s@ == temp_file_path_of(name@),
        !sanitized(name@).contains('/'),
{
    let clean = sanitize_name(name);
    let mut s = String::from_str("./tmp/");
    s.append(clean.as_str());
    s
}

/// The public link of a file stored in the bucket.
pub open spec fn bucket_link_of(name: Seq<char>) -> Seq<char> {
    "https://val-mxo.s3.eu-central-1.amazonaws.com/"@ + name
}

/// `https://val-mxo.s3.eu-central-1.amazonaws.com/{name}`.
pub fn bucket_link(name: &str) -> (s: String)
    ensures
        s@ == bucket_link_of(name@),
{
    let mut s = String::from_str("https://val-mxo.s3.eu-central-1.amazonaws.com/");
    s.append(name);
    s
}

/// The refusal of a logo or profile image larger than 5 MB.
pub fn image_size_refusal(len: u64) -> (r: Option<Response<String>>)
    ensures
        len > IMAGE_MAX_BYTES ==> (r matches Some(resp) && resp@ == (false, "file should not be larger than 5 MB"@)),
        len <= IMAGE_MAX_BYTES ==> r is None,
{
    if len > IMAGE_MAX_BYTES {
        Some(reply(false, "file should not be larger than 5 MB"))
    } else {
        None
    }
}

/// The refusal of a folder file larger than 10 MB.
pub fn file_size_refusal(len: u64) -> (r: Option<Response<String>>)
    ensures
        len > FILE_MAX_BYTES ==> (r matches Some(resp) && resp@ == (false, "file should not be larger than 10 MB"@)),
        len <= FILE_MAX_BYTES ==> r is None,
{
    if len > FILE_MAX_BYTES {
        Some(reply(false, "file should not be larger than 10 MB"))
    } else {
        None
    }
}

} // verus!
