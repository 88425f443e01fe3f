//! The configuration of one mirroring process.

use vstd::prelude::*;

verus! {

/// What one process mirrors, loaded once and never changed.
pub struct WatchConfig {
    /// The folder whose changes are watched, recursively.
    pub source_folder: String,
    /// The folder that receives the copies.
    pub destination_folder: String,
    /// The name that every copy is written under.
    pub target_file_name: String,
    /// Only files whose name ends with this are copied; empty accepts all.
    pub extension_filter: String,
    /// A file copied back from the destination folder into the source folder
    /// at start-up; empty skips that copy.
    pub startup_copy_file: String,
}

/// A character of the Unicode property White_Space.
pub open spec fn is_white_space(c: char) -> bool {
    let u = c as u32;
    ||| 0x09 <= u <= 0x0d
    ||| u == 0x20
    ||| u == 0x85
    ||| u == 0xa0
    ||| u == 0x1680
    ||| 0x2000 <= u <= 0x200a
    ||| u == 0x2028
    ||| u == 0x2029
    ||| u == 0x202f
    ||| u == 0x205f
    ||| u == 0x3000
}

/// `s` without its leading white space.
pub open spec fn trimmed_start(s: Seq<char>) -> Seq<char>
    decreases s.len(),
{
    if s.len() > 0 && is_white_space(s[0]) {
        trimmed_start(s.drop_first())
    } else {
        s
    }
}

/// `s` without its trailing white space.
pub open spec fn trimmed_end(s: Seq<char>) -> Seq<char>
    decreases s.len(),
{
    if s.len() > 0 && is_white_space(s.last()) {
        trimmed_end(s.drop_last())
    } else {
        s
    }
}

/// `s` without its leading and trailing white space.
pub open spec fn trimmed(s: Seq<char>) -> Seq<char> {
    trimmed_end(trimmed_start(s))
}

/// Relies on `str::trim`: it removes the leading and trailing characters of
/// the Unicode property White_Space and keeps the rest.
#[verifier::external_body]
fn trim_white_space(s: &str) -> (r: &str)
    ensures
        r@ == trimmed(s@),
{
    s.trim()
}

impl WatchConfig {
    /// Assembles a configuration from the five answers of a first run, in the
    /// order source folder, destination folder, file name, extension filter,
    /// start-up copy; each answer loses its surrounding white space (the line
    /// break that ends it included).
    pub fn from_answers(
        source_folder: &str,
        destination_folder: &str,
        target_file_name: &str,
        extension_filter: &str,
        startup_copy_file: &str,
    ) -> (r: WatchConfig)
        ensures
            r.source_folder@ == trimmed(source_folder@),
            r.destination_folder@ == trimmed(destination_folder@),
            r.target_file_name@ == trimmed(target_file_name@),
            r.extension_filter@ == trimmed(extension_filter@),
            r.startup_copy_file@ == trimmed(startup_copy_file@),
    {
        WatchConfig {
            source_folder: String::from_str(trim_white_space(source_folder)),
            destination_folder: String::from_str(trim_white_space(destination_folder)),
            target_file_name: String::from_str(trim_white_space(target_file_name)),
            extension_filter: String::from_str(trim_white_space(extension_filter)),
            startup_copy_file: String::from_str(trim_white_space(startup_copy_file)),
        }
    }
}

} // verus!
