//! The short table from file extension to MIME type.
use vstd::prelude::*;
use crate::text::same_text;

verus! {

/// The MIME type of files with this extension; `application/octet-stream`
/// for any extension the table does not know.
pub open spec fn mime_of(extension: Seq<char>) -> Seq<char> {
    if extension == "html"@ {
        "text/html"@
    } else if extension == "css"@ {
        "text/css"@
    } else if extension == "js"@ {
        "application/javascript"@
    } else if extension == "png"@ {
        "image/png"@
    } else if extension == "jpg"@ {
        "image/jpeg"@
    } else if extension == "jpeg"@ {
        "image/jpeg"@
    } else if extension == "gif"@ {
        "image/gif"@
    } else if extension == "svg"@ {
        "image/svg+xml"@
    } else if extension == "txt"@ {
        "text/plain"@
    } else if extension == "ico"@ {
        "image/x-icon"@
    } else if extension == "json"@ {
        "application/json"@
    } else if extension == "xml"@ {
        "application/xml"@
    } else if extension == "pdf"@ {
        "application/pdf"@
    } else if extension == "zip"@ {
        "application/zip"@
    } else if extension == "mp3"@ {
        "audio/mpeg"@
    } else if extension == "mp4"@ {
        "video/mp4"@
    } else if extension == "wav"@ {
        "audio/wav"@
    } else {
        "application/octet-stream"@
    }
}

/// Looks up the MIME type of files with this extension.
pub fn get_mime_type(extension: &str) -> (r: &str)
    ensures
        r@ == mime_of(extension@),
{
    if same_text(extension, "html") {
        return "text/html";
    }
    if same_text(extension, "css") {
        return "text/css";
    }
    if same_text(extension, "js") {
        return "application/javascript";
    }
    if same_text(extension, "png") {
        return "image/png";
    }
    if same_text(extension, "jpg") {
        return "image/jpeg";
    }
    if same_text(extension, "jpeg") {
        return "image/jpeg";
    }
    if same_text(extension, "gif") {
        return "image/gif";
    }
    if same_text(extension, "svg") {
        return "image/svg+xml";
    }
    if same_text(extension, "txt") {
        return "text/plain";
    }
    if same_text(extension, "ico") {
        return "image/x-icon";
    }
    if same_text(extension, "json") {
        return "application/json";
    }
    if same_text(extension, "xml") {
        return "application/xml";
    }
    if same_text(extension, "pdf") {
        return "application/pdf";
    }
    if same_text(extension, "zip") {
        return "application/zip";
    }
    if same_text(extension, "mp3") {
        return "audio/mpeg";
    }
    if same_text(extension, "mp4") {
        return "video/mp4";
    }
    if same_text(extension, "wav") {
        return "audio/wav";
    }
    "application/octet-stream"
}

} // verus!
