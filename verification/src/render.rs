//! The read side of the archive: the binary file endpoint and its decision
//! rules.
use vstd::prelude::*;

use crate::imagefmt::{format_of, mime_for, sniff_format, spec_mime_for};
use crate::keys::{build_file_chat_key, build_file_user_key, build_file_video_thumb_key,
    file_chat_key, file_user_key, file_video_thumb_key};
use crate::model::{LogItem, LogItemMediaType};
use crate::store::Store;
use crate::text::{push_str_chars, str_to_chars, string_from_chars};
use crate::views::{v_item, v_strings, LogItemMediaTypeV, LogItemV};

verus! {

/// The kind named in a binary file request.
#[derive(Debug, Clone, Copy, PartialEq, Eq, Structural)]
pub enum FileRequestType {
    User,
    Image,
    Document,
    Video,
    VideoThumb,
    Unknown,
}

/// The kind a request path names.
pub open spec fn file_request_type_of(s: Seq<char>) -> FileRequestType {
    if s == "user"@ {
        FileRequestType::User
    } else if s == "image"@ {
        FileRequestType::Image
    } else if s == "document"@ {
        FileRequestType::Document
    } else if s == "video"@ {
        FileRequestType::Video
    } else if s == "video_thumb"@ {
        FileRequestType::VideoThumb
    } else {
        FileRequestType::Unknown
    }
}

impl FileRequestType {
    /// Reads the kind from the request path.
    pub fn from_name(s: &str) -> (r: FileRequestType)
        ensures
            r == file_request_type_of(s@),
    {
        proof {
            reveal_strlit("user");
            reveal_strlit("image");
            reveal_strlit("document");
            reveal_strlit("video");
            reveal_strlit("video_thumb");
        }
        let chars = str_to_chars(s);
        if crate::text::chars_eq_str(&chars, "user") {
            FileRequestType::User
        } else if crate::text::chars_eq_str(&chars, "image") {
            FileRequestType::Image
        } else if crate::text::chars_eq_str(&chars, "document") {
            FileRequestType::Document
        } else if crate::text::chars_eq_str(&chars, "video") {
            FileRequestType::Video
        } else if crate::text::chars_eq_str(&chars, "video_thumb") {
            FileRequestType::VideoThumb
        } else {
            FileRequestType::Unknown
        }
    }
}

/// The store key a file request reads: profile pictures and thumbnails have
/// their own namespaces; everything else is a chat attachment.
pub open spec fn file_key_for(t: FileRequestType, id: Seq<char>) -> Seq<char> {
    match t {
        FileRequestType::User => file_user_key(id),
        FileRequestType::VideoThumb => file_video_thumb_key(id),
        _ => file_chat_key(id),
    }
}

/// The answer of the binary file endpoint.
pub enum FileResponse {
    UnknownKind,
    NotFound,
    Found { bytes: Vec<u8>, content_type: String },
}

/// The body served with an unknown file kind.
pub fn unknown_file_request_message() -> (r: String)
    ensures
        r@ == "Unknown file request type"@,
{
    let mut chars: Vec<char> = Vec::new();
    push_str_chars(&mut chars, "Unknown file request type");
    string_from_chars(&chars)
}

/// Serves one binary file request: an unknown kind is refused, a missing
/// blob is not found, and a stored blob is returned with its content type,
/// sniffed from the bytes for the picture kinds and a plain octet stream for
/// the rest.
pub fn get_file(store: &Store, kind_name: &str, file_id: &str) -> (r: FileResponse)
    requires
        store.wf(),
    ensures
        ({
            let t = file_request_type_of(kind_name@);
            match r {
                FileResponse::UnknownKind => t == FileRequestType::Unknown,
                FileResponse::NotFound => t != FileRequestType::Unknown
                    && !store.blob_map().contains_key(file_key_for(t, file_id@)),
                FileResponse::Found { bytes, content_type } => t != FileRequestType::Unknown
                    && store.blob_map().contains_key(file_key_for(t, file_id@)) && bytes@
                    == store.blob_map()[file_key_for(t, file_id@)] && content_type@ == (
                if t == FileRequestType::User || t == FileRequestType::Image || t
                    == FileRequestType::VideoThumb {
                    spec_mime_for(format_of(bytes@))
                } else {
                    "application/octet-stream"@
                }),
            }
        }),
{
    let t = FileRequestType::from_name(kind_name);
    if t == FileRequestType::Unknown {
        return FileResponse::UnknownKind;
    }
    let key: Vec<char> = match t {
        FileRequestType::User => build_file_user_key(file_id),
        FileRequestType::VideoThumb => build_file_video_thumb_key(file_id),
        _ => build_file_chat_key(file_id),
    };
    let bytes = match store.get_blob(&key) {
        Some(b) => b,
        None => {
            return FileResponse::NotFound;
        },
    };
    let content_type: String = if t == FileRequestType::User || t == FileRequestType::Image || t
        == FileRequestType::VideoThumb {
        let f = sniff_format(bytes.as_slice());
        let mime = mime_for(f);
        let mut chars: Vec<char> = Vec::new();
        push_str_chars(&mut chars, mime);
        string_from_chars(&chars)
    } else {
        let mut chars: Vec<char> = Vec::new();
        push_str_chars(&mut chars, "application/octet-stream");
        string_from_chars(&chars)
    };
    FileResponse::Found { bytes, content_type }
}


/// A record as the JSON endpoint answers it: for picture media — images and
/// stickers — each stored file id becomes the path it is served under;
/// every other record is unchanged.
pub open spec fn spec_rewrite_media_files(x: LogItemV) -> LogItemV {
    match x {
        LogItemV::Media { user_id, time, caption, media_type, files, source } => if media_type
            is Image || media_type is Sticker {
            LogItemV::Media {
                user_id,
                time,
                caption,
                media_type,
                files: Seq::new(files.len(), |i: int| "/file/image/"@ + files[i]),
                source,
            }
        } else {
            x
        },
        _ => x,
    }
}

/// Rewrites the stored file ids of a picture record to served paths.
pub fn rewrite_media_files(x: LogItem) -> (r: LogItem)
    ensures
        v_item(r) == spec_rewrite_media_files(v_item(x)),
{
    match x {
        LogItem::Media { user_id, time, caption, media_type, files, source } => {
            let picture = matches!(media_type, LogItemMediaType::Image { .. }) || matches!(
                media_type,
                LogItemMediaType::Sticker { .. },
            );
            if picture {
                let ghost old_files = files@;
                let mut rewritten: Vec<String> = Vec::new();
                let mut i: usize = 0;
                while i < files.len()
                    invariant
                        i <= files@.len(),
                        files@ == old_files,
                        rewritten@.len() == i,
                        forall|k: int|
                            0 <= k < i ==> (#[trigger] rewritten@[k])@ == "/file/image/"@
                                + old_files[k]@,
                    decreases files@.len() - i,
                {
                    let mut chars: Vec<char> = Vec::new();
                    push_str_chars(&mut chars, "/file/image/");
                    push_str_chars(&mut chars, files[i].as_str());
                    rewritten.push(string_from_chars(&chars));
                    i = i + 1;
                }
                let r = LogItem::Media {
                    user_id,
                    time,
                    caption,
                    media_type,
                    files: rewritten,
                    source,
                };
                proof {
                    assert(v_strings(r->Media_files@) =~= Seq::new(
                        v_strings(old_files).len(),
                        |k: int| "/file/image/"@ + v_strings(old_files)[k],
                    ));
                }
                r
            } else {
                LogItem::Media { user_id, time, caption, media_type, files, source }
            }
        },
        other => other,
    }
}

} // verus!
