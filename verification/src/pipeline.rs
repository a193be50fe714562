//! Drives one conversion: read the source in full, transcode, resolve the
//! destination, write.
//!
//! The pipeline itself performs no I/O. It hands the caller one command at a
//! time and is told how each came out; every decision between commands is made
//! here. A write command is only ever formed from the completely read source
//! content, so in overwrite mode the source file is never touched before it
//! has been read in full.

use crate::catalog::{EncodingSelector, MAX_CONTENT_LEN};
use crate::resolver::{resolve, spec_resolve, DestinationSpec};
use crate::transcoder::{spec_transcode, transcode};
use vstd::prelude::*;

verus! {

/// The ways a conversion can fail. Transcoding itself is total; only the two
/// I/O steps can fail.
#[derive(Clone, Copy, Debug, PartialEq, Eq, Structural)]
pub enum ConversionError {
    /// The source file could not be opened or read.
    ReadError,
    /// The destination file could not be created or written.
    WriteError,
}

/// Everything one conversion needs: the file to read, where to write the
/// result, and the target encoding. Constructed fresh per conversion and
/// never mutated.
#[derive(Debug, PartialEq, Eq)]
pub struct ConversionRequest {
    pub source_path: String,
    pub destination: DestinationSpec,
    pub target: EncodingSelector,
}

/// What a missing selection prevents a request from being built from.
#[derive(Clone, Copy, Debug, PartialEq, Eq, Structural)]
pub enum SelectionError {
    /// No source file was chosen.
    MissingSource,
    /// No output directory was chosen and overwriting was not asked for.
    MissingDirectory,
}

/// The next thing the caller is to do for the pipeline: read the whole file
/// at a path, write the given bytes to the file at a path, or stop and hand
/// the outcome on.
#[derive(Debug, PartialEq, Eq)]
pub enum Command {
    ReadSource(String),
    WriteOutput(String, Vec<u8>),
    Report(Result<String, ConversionError>),
}

impl ConversionRequest {
    /// The destination a request resolves to never equals its source path
    /// unless the destination is overwrite itself.
    pub open spec fn wf(&self) -> bool {
        self.destination matches DestinationSpec::Directory(_) ==> spec_resolve(
            self.source_path@,
            self.destination,
        ) != self.source_path@
    }

    /// Builds a request, refusing one whose resolved destination would
    /// collide with the source path without overwrite having been chosen.
    pub fn new(
        source_path: String,
        destination: DestinationSpec,
        target: EncodingSelector,
    ) -> (r: Option<ConversionRequest>)
        ensures
            r matches Some(req) ==> req.source_path == source_path && req.destination
                == destination && req.target == target && req.wf(),
            r is None <==> (destination matches DestinationSpec::Directory(_) && spec_resolve(
                source_path@,
                destination,
            ) == source_path@),
    {
        let resolved = resolve(source_path.as_str(), &destination);
        let collides = match &destination {
            DestinationSpec::Directory(_) => resolved == source_path,
            DestinationSpec::Overwrite => false,
        };
        if collides {
            None
        } else {
            Some(ConversionRequest { source_path, destination, target })
        }
    }
}

/// Builds a conversion request from the caller's current selections: a source
/// file is always required, and an output directory is required exactly when
/// the source file is not to be overwritten.
pub fn build_request(
    source_path: Option<String>,
    output_directory: Option<String>,
    overwrite: bool,
    target: EncodingSelector,
) -> (r: Result<ConversionRequest, SelectionError>)
    ensures
        match r {
            Ok(req) => {
                &&& source_path matches Some(s) && req.source_path == s
                &&& req.target == target
                &&& overwrite ==> req.destination == DestinationSpec::Overwrite
                &&& !overwrite ==> (output_directory matches Some(d) && req.destination
                    == DestinationSpec::Directory(d))
            },
            Err(SelectionError::MissingSource) => source_path is None,
            Err(SelectionError::MissingDirectory) => source_path is Some && !overwrite
                && output_directory is None,
        },
{
    match source_path {
        Option::None => Err(SelectionError::MissingSource),
        Option::Some(s) => {
            if overwrite {
                Ok(
                    ConversionRequest {
                        source_path: s,
                        destination: DestinationSpec::Overwrite,
                        target,
                    },
                )
            } else {
                match output_directory {
                    Option::Some(d) => Ok(
                        ConversionRequest {
                            source_path: s,
                            destination: DestinationSpec::Directory(d),
                            target,
                        },
                    ),
                    Option::None => Err(SelectionError::MissingDirectory),
                }
            }
        },
    }
}

/// Starts a conversion. The first command is always to read the source file
/// in full; nothing is written before that read has completed.
pub fn begin(request: &ConversionRequest) -> (c: Command)
    ensures
        c matches Command::ReadSource(p) && p@ == request.source_path@,
{
    Command::ReadSource(request.source_path.clone())
}

/// Continues a conversion once the read attempt has finished. A failed read
/// ends the conversion with a read error and commands no write at all. A
/// completed read yields the one write command: the transcoded content,
/// bound for the resolved destination path.
pub fn on_read(request: &ConversionRequest, read: Option<Vec<u8>>) -> (c: Command)
    requires
        read matches Some(bytes) ==> bytes@.len() <= MAX_CONTENT_LEN,
    ensures
        read is None ==> c == Command::Report(Err(ConversionError::ReadError)),
        read matches Some(bytes) ==> c matches Command::WriteOutput(p, out) && p@ == spec_resolve(
            request.source_path@,
            request.destination,
        ) && out@ == spec_transcode(bytes@, request.target),
{
    match read {
        Option::None => Command::Report(Err(ConversionError::ReadError)),
        Option::Some(bytes) => {
            let out = transcode(&bytes, request.target);
            let path = resolve(request.source_path.as_str(), &request.destination);
            Command::WriteOutput(path, out)
        },
    }
}

/// Ends a conversion once the write attempt has finished: the path actually
/// written on success, a write error otherwise.
pub fn on_write(output_path: String, written: bool) -> (c: Command)
    ensures
        written ==> (c matches Command::Report(Ok(p)) && p == output_path),
        !written ==> c == Command::Report(Err(ConversionError::WriteError)),
{
    if written {
        Command::Report(Ok(output_path))
    } else {
        Command::Report(Err(ConversionError::WriteError))
    }
}

} // verus!
