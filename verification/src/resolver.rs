//! Computes the destination file path of a conversion.
//!
//! The resolver is a pure path computation: no existence check, no directory
//! creation. In overwrite mode the destination is the source itself; into a
//! directory, the destination always carries the one fixed file name, whatever
//! the source file was called.

use vstd::prelude::*;
use vstd::string::StringExecFns;

verus! {

/// Where the converted bytes are to be written: over the source file itself,
/// or into a directory under the fixed output file name.
#[derive(Debug, PartialEq, Eq)]
pub enum DestinationSpec {
    Overwrite,
    Directory(String),
}

/// The fixed name of every file written into a directory.
pub open spec fn output_file_name() -> Seq<char> {
    "encoded_file.txt"@
}

/// The destination path of a conversion: the source path in overwrite mode,
/// and the directory joined with the fixed output file name otherwise.
pub open spec fn spec_resolve(source: Seq<char>, destination: DestinationSpec) -> Seq<char> {
    match destination {
        DestinationSpec::Overwrite => source,
        DestinationSpec::Directory(d) => d@ + "/"@ + output_file_name(),
    }
}

/// Computes the destination path for a source path and a destination choice.
///
/// Overwrite resolves to the source path itself, for every source path.
/// A directory resolves to that directory joined with the fixed output file
/// name, for every directory and every source path.
pub fn resolve(source: &str, destination: &DestinationSpec) -> (r: String)
    ensures
        r@ == spec_resolve(source@, *destination),
        *destination == DestinationSpec::Overwrite ==> r@ == source@,
        destination matches DestinationSpec::Directory(d) ==> r@ == d@ + "/"@
            + output_file_name(),
{
    match destination {
        DestinationSpec::Overwrite => source.to_owned(),
        DestinationSpec::Directory(d) => {
            let mut out = d.clone();
            out.append("/");
            out.append("encoded_file.txt");
            out
        },
    }
}

} // verus!
