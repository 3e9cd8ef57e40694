//! The three operations that the server offers, as far as they are decided
//! rather than read or sent: who the device is, what the media folder holds,
//! and how a request for one file is answered.

use crate::content::content_type_of;
use crate::content::lacks_extension;
use crate::content::octet_stream;
use crate::content::registered_type;
use crate::media::listing_view;
use crate::media::no_failure;
use crate::media::records;
use crate::media::regular_files;
use crate::media::scan_media_files;
use crate::media::walk_view;
use crate::media::MediaFile;
use crate::media::Walked;
use crate::paths::joined_path;
use crate::state::AppState;
use crate::stream::leaves_root;
use crate::stream::open_for_streaming;
use crate::stream::StreamError;
use vstd::prelude::*;

verus! {

/// The status of an answer that carries what was asked for.
pub const STATUS_OK: u16 = 200;

/// The status of the answer to a request for a file that does not exist.
pub const STATUS_NOT_FOUND: u16 = 404;

/// The status of the answer to a request that failed on the server's side.
pub const STATUS_SERVER_ERROR: u16 = 500;

/// Who the device is: the name it was configured with and the operating
/// system it runs on.
#[derive(Debug, Clone, PartialEq, Eq)]
pub struct DeviceInfo {
    pub name: String,
    pub platform: String,
}

/// An answer that carries no content: a status and a line of text.
#[derive(Debug, Clone, PartialEq, Eq)]
pub struct ErrorReply {
    pub status: u16,
    pub message: String,
}

/// The head of an answer that streams a file: its status and the content
/// type of the bytes that follow.
#[derive(Debug, Clone, PartialEq, Eq)]
pub struct StreamReply {
    pub status: u16,
    pub content_type: String,
}

/// The identity of the device: the configured device name, and `platform`,
/// the name of the operating system that the server runs on. Always
/// succeeds.
pub fn get_device_info(state: &AppState, platform: &str) -> (info: DeviceInfo)
    ensures
        info.name@ == state@.device_name,
        info.platform@ == platform@,
{
    DeviceInfo { name: state.config.device_name.clone(), platform: platform.to_owned() }
}

/// Answers a request for the catalogue with the listing of what a walk of
/// the media folder reported.
///
/// Where the scan succeeds, the answer is its listing, with one record for
/// each regular file of the walk. Where it fails, as it does exactly when
/// the metadata of a regular file could not be read, the answer is a server
/// error that carries no part of the listing.
pub fn get_media_list(walk: Vec<Walked>) -> (reply: Result<Vec<MediaFile>, ErrorReply>)
    ensures
        reply is Ok <==> no_failure(walk_view(walk@)),
        match reply {
            Ok(files) => {
                &&& listing_view(files@) == records(walk_view(walk@))
                &&& files.len() == regular_files(walk_view(walk@)).len()
                &&& forall|k: int| 0 <= k < files.len() ==> (#[trigger] files[k])@.wf()
            },
            Err(e) => {
                &&& e.status == STATUS_SERVER_ERROR
                &&& e.message@ == "Failed to scan media directory"@
            },
        },
{
    match scan_media_files(walk) {
        Ok(files) => Ok(files),
        Err(_) => Err(
            ErrorReply {
                status: STATUS_SERVER_ERROR,
                message: "Failed to scan media directory".to_owned(),
            },
        ),
    }
}

/// Answers a request for the file `filename`, given what the probing of its
/// candidate path under the configured media folder found: whether something
/// exists there, and whether it could be opened.
///
/// A name that can lead out of the media folder is answered with status 404
/// whatever the probing found, and so is a file that does not exist. One
/// that exists but could not be opened is answered with status 500, and any
/// other with status 200 and the content type inferred from the extension of
/// its path, which is the generic binary type where the path shows no
/// extension.
pub fn stream_media(filename: &str, state: &AppState, exists: bool, opened: bool) -> (reply: Result<
    StreamReply,
    ErrorReply,
>)
    ensures
        leaves_root(filename@) || !exists ==> ({
            &&& reply matches Err(e)
            &&& e.status == STATUS_NOT_FOUND
            &&& e.message@ == "File not found"@
        }),
        !leaves_root(filename@) && exists && !opened ==> ({
            &&& reply matches Err(e)
            &&& e.status == STATUS_SERVER_ERROR
            &&& e.message@ == "Could not read media file"@
        }),
        !leaves_root(filename@) && exists && opened ==> ({
            &&& reply matches Ok(head)
            &&& head.status == STATUS_OK
            &&& head.content_type@ == content_type_of(
                registered_type(joined_path(state@.folder, filename@)),
            )
            &&& lacks_extension(joined_path(state@.folder, filename@)) ==> head.content_type@
                == octet_stream()
        }),
{
    match open_for_streaming(state.config.folder.as_str(), filename, exists, opened) {
        Ok(content_type) => Ok(StreamReply { status: STATUS_OK, content_type }),
        Err(StreamError::NotFound) => Err(
            ErrorReply { status: STATUS_NOT_FOUND, message: "File not found".to_owned() },
        ),
        Err(StreamError::OpenError) => Err(
            ErrorReply {
                status: STATUS_SERVER_ERROR,
                message: "Could not read media file".to_owned(),
            },
        ),
    }
}

} // verus!
