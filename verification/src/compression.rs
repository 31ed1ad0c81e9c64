//! Compressing a dump into a password-protected `7z` archive.
use crate::database::strings_view;
use crate::error::{Error, IoError, IoErrorKind};
use crate::storage::{final_component, final_component_end, file_name_of};
use crate::text::{concat2, last_index_of, rfind_char, spec_trim, trim};
use vstd::prelude::*;

verus! {

/// The message reported when the `7z` program is missing.
pub open spec fn missing_7z_message() -> Seq<char> {
    "7z executable not found. Please install p7zip-full first, for example: sudo apt install p7zip-full"@
}

/// The error reported when the `7z` program could not be started: a hint to
/// install it when it is missing, the failure itself otherwise.
pub fn explain_7z_spawn_error(error: IoError) -> (r: Error)
    ensures
        error.kind == IoErrorKind::NotFound ==> (r matches Error::Compression(m) && m@
            == missing_7z_message()),
        error.kind != IoErrorKind::NotFound ==> r == Error::Io(error),
{
    match error.kind {
        IoErrorKind::NotFound => Error::Compression(
            String::from_str(
                "7z executable not found. Please install p7zip-full first, for example: sudo apt install p7zip-full",
            ),
        ),
        _ => Error::Io(error),
    }
}

/// The length of the stem of the file name `name`, as `Path::file_stem`
/// finds it: the name up to its last `.`, or the whole name when it holds
/// no `.` or only a leading one.
pub open spec fn file_stem_len(name: Seq<char>) -> int {
    let i = last_index_of(name, '.');
    if i <= 0 {
        name.len() as int
    } else {
        i
    }
}

/// `Path::new(p).with_extension("7z")` on Unix: a path without a file name
/// is kept as it is; otherwise the path is cut right after the stem of its
/// file name (dropping the old extension and any trailing `/` and `.`
/// components) and `.7z` is appended.
pub open spec fn with_7z_extension(p: Seq<char>) -> Seq<char> {
    match file_name_of(p) {
        None => p,
        Some(name) => p.subrange(0, final_component_end(p) - name.len() + file_stem_len(name))
            + seq!['.', '7', 'z'],
    }
}

/// The path `p` with the extension of its file name replaced by `7z`, as
/// `Path::with_extension("7z")` gives it on Unix.
pub fn path_with_7z_extension(p: &str) -> (r: String)
    ensures
        r@ == with_7z_extension(p@),
{
    match final_component(p) {
        None => String::from_str(p),
        Some((start, end)) => {
            let name = p.substring_char(start, end);
            let stem = match rfind_char(name, '.') {
                Some(i) => if i == 0 {
                    end - start
                } else {
                    i
                },
                None => end - start,
            };
            let r = concat2(p.substring_char(0, start + stem), ".7z");
            proof {
                reveal_strlit(".7z");
                assert(".7z"@ =~= seq!['.', '7', 'z']);
            }
            r
        },
    }
}

/// The day that cleanup reads from the archive at `path`: the date in its
/// file name.
pub open spec fn archive_day(path: Seq<char>) -> Option<i32> {
    match file_name_of(path) {
        Some(name) => crate::date::spec_parse_backup_date(name),
        None => None,
    }
}

/// A run of the `7z` program with the archive password in the environment.
#[derive(Debug)]
pub struct CompressCommand {
    /// The program to run.
    pub program: String,
    /// Its arguments, in order.
    pub args: Vec<String>,
    /// The name of the environment variable that carries the password.
    pub env_name: String,
    /// The password.
    pub env_value: String,
    /// The archive that is written.
    pub output_path: String,
}

/// The arguments of `7z`: add to a 7z archive, LZMA2, encrypted headers,
/// then the archive and the input.
pub open spec fn compress_args(output: Seq<char>, input: Seq<char>) -> Seq<Seq<char>> {
    seq!["a"@, "-t7z"@, "-m0=lzma2"@, "-mhe=on"@, output, input]
}

/// The `7z` run that compresses `input_file` into `output_path`, the
/// password given as `7Z_PASSWORD`.
pub fn compress_command_to(input_file: &str, password: &str, output_path: String) -> (r:
    CompressCommand)
    ensures
        r.program@ == "7z"@,
        r.output_path == output_path,
        strings_view(r.args@) == compress_args(output_path@, input_file@),
        r.env_name@ == "7Z_PASSWORD"@,
        r.env_value@ == password@,
{
    let mut args: Vec<String> = Vec::new();
    args.push(String::from_str("a"));
    args.push(String::from_str("-t7z"));
    args.push(String::from_str("-m0=lzma2"));
    args.push(String::from_str("-mhe=on"));
    args.push(output_path.clone());
    args.push(String::from_str(input_file));
    proof {
        assert(strings_view(args@) =~= compress_args(output_path@, input_file@));
    }
    CompressCommand {
        program: String::from_str("7z"),
        args,
        env_name: String::from_str("7Z_PASSWORD"),
        env_value: String::from_str(password),
        output_path,
    }
}

/// The `7z` run that compresses `input_file` into the archive next to it
/// with the extension `7z`, the password given as `7Z_PASSWORD`.
pub fn compress_command(input_file: &str, password: &str) -> (r: CompressCommand)
    ensures
        r.program@ == "7z"@,
        r.output_path@ == with_7z_extension(input_file@),
        strings_view(r.args@) == compress_args(r.output_path@, input_file@),
        r.env_name@ == "7Z_PASSWORD"@,
        r.env_value@ == password@,
{
    compress_command_to(input_file, password, path_with_7z_extension(input_file))
}

/// The message reported when `7z` exits unsuccessfully and its standard
/// error, trimmed, is `trimmed`.
pub open spec fn compression_failure_text(trimmed: Seq<char>) -> Seq<char> {
    if trimmed.len() == 0 {
        "7z compression failed"@
    } else {
        "7z compression failed: "@ + trimmed
    }
}

/// The error reported when `7z` exits unsuccessfully with the trimmed
/// standard error `trimmed`.
pub fn compression_failure_trimmed(trimmed: &str) -> (r: Error)
    ensures
        r matches Error::Compression(m) && m@ == compression_failure_text(trimmed@),
{
    if trimmed.unicode_len() == 0 {
        Error::Compression(String::from_str("7z compression failed"))
    } else {
        Error::Compression(concat2("7z compression failed: ", trimmed))
    }
}

/// The error reported when `7z` exits unsuccessfully; `stderr` is its
/// standard error, decoded lossily.
pub fn compression_failure(stderr: &str) -> (r: Error)
    ensures
        r matches Error::Compression(m) && m@ == compression_failure_text(spec_trim(stderr@)),
{
    compression_failure_trimmed(trim(stderr))
}

} // verus!
