//! The full table of MIME types, and the lookup by extension and by path.
use vstd::prelude::*;
use crate::text::same_text;

verus! {

/// The MIME types the table knows.
#[derive(PartialEq, Eq, Structural, Clone, Copy, Debug)]
pub enum MimeType {
    TextHtml,
    TextCss,
    ApplicationJavaScript,
    ApplicationJson,
    ApplicationXml,
    ApplicationPdf,
    ApplicationZip,
    ApplicationXTar,
    ApplicationGzip,
    ApplicationXBzip2,
    ApplicationX7zCompressed,
    ApplicationVndRar,
    ApplicationVndMicrosoftPE,
    ApplicationXMsdownload,
    ApplicationOctetStream,
    ImagePng,
    ImageJpeg,
    ImageGif,
    ImageSvgXml,
    ImageBmp,
    ImageXIcon,
    ImageTiff,
    ImageWebp,
    AudioMpeg,
    AudioWav,
    AudioOgg,
    AudioFlac,
    AudioAac,
    VideoMp4,
    VideoXM4v,
    VideoXMatroska,
    VideoWebm,
    VideoXMsVideo,
    VideoQuicktime,
    VideoXMsWmv,
    TextPlain,
    TextCsv,
    TextMarkdown,
    ApplicationRtf,
    ApplicationVndOasisOdt,
    ApplicationVndOasisOds,
    ApplicationVndOasisOdp,
    ApplicationMsword,
    ApplicationVndOpenxmlWord,
    ApplicationVndMsExcel,
    ApplicationVndOpenxmlExcel,
    ApplicationVndMsPowerpoint,
    ApplicationVndOpenxmlPowerpoint,
    ApplicationWasm,
}

impl MimeType {
    /// The media-type text of `self`.
    pub open spec fn text(self) -> Seq<char> {
        match self {
            MimeType::TextHtml => "text/html"@,
            MimeType::TextCss => "text/css"@,
            MimeType::ApplicationJavaScript => "application/javascript"@,
            MimeType::ApplicationJson => "application/json"@,
            MimeType::ApplicationXml => "application/xml"@,
            MimeType::ApplicationPdf => "application/pdf"@,
            MimeType::ApplicationZip => "application/zip"@,
            MimeType::ApplicationXTar => "application/x-tar"@,
            MimeType::ApplicationGzip => "application/gzip"@,
            MimeType::ApplicationXBzip2 => "application/x-bzip2"@,
            MimeType::ApplicationX7zCompressed => "application/x-7z-compressed"@,
            MimeType::ApplicationVndRar => "application/vnd.rar"@,
            MimeType::ApplicationVndMicrosoftPE => "application/vnd.microsoft.portable-executable"@,
            MimeType::ApplicationXMsdownload => "application/x-msdownload"@,
            MimeType::ApplicationOctetStream => "application/octet-stream"@,
            MimeType::ImagePng => "image/png"@,
            MimeType::ImageJpeg => "image/jpeg"@,
            MimeType::ImageGif => "image/gif"@,
            MimeType::ImageSvgXml => "image/svg+xml"@,
            MimeType::ImageBmp => "image/bmp"@,
            MimeType::ImageXIcon => "image/x-icon"@,
            MimeType::ImageTiff => "image/tiff"@,
            MimeType::ImageWebp => "image/webp"@,
            MimeType::AudioMpeg => "audio/mpeg"@,
            MimeType::AudioWav => "audio/wav"@,
            MimeType::AudioOgg => "audio/ogg"@,
            MimeType::AudioFlac => "audio/flac"@,
            MimeType::AudioAac => "audio/aac"@,
            MimeType::VideoMp4 => "video/mp4"@,
            MimeType::VideoXM4v => "video/x-m4v"@,
            MimeType::VideoXMatroska => "video/x-matroska"@,
            MimeType::VideoWebm => "video/webm"@,
            MimeType::VideoXMsVideo => "video/x-msvideo"@,
            MimeType::VideoQuicktime => "video/quicktime"@,
            MimeType::VideoXMsWmv => "video/x-ms-wmv"@,
            MimeType::TextPlain => "text/plain"@,
            MimeType::TextCsv => "text/csv"@,
            MimeType::TextMarkdown => "text/markdown"@,
            MimeType::ApplicationRtf => "application/rtf"@,
            MimeType::ApplicationVndOasisOdt => "application/vnd.oasis.opendocument.text"@,
            MimeType::ApplicationVndOasisOds => "application/vnd.oasis.opendocument.spreadsheet"@,
            MimeType::ApplicationVndOasisOdp => "application/vnd.oasis.opendocument.presentation"@,
            MimeType::ApplicationMsword => "application/msword"@,
            MimeType::ApplicationVndOpenxmlWord => "application/vnd.openxmlformats-officedocument.wordprocessingml.document"@,
            MimeType::ApplicationVndMsExcel => "application/vnd.ms-excel"@,
            MimeType::ApplicationVndOpenxmlExcel => "application/vnd.openxmlformats-officedocument.spreadsheetml.sheet"@,
            MimeType::ApplicationVndMsPowerpoint => "application/vnd.ms-powerpoint"@,
            MimeType::ApplicationVndOpenxmlPowerpoint => "application/vnd.openxmlformats-officedocument.presentationml.presentation"@,
            MimeType::ApplicationWasm => "application/wasm"@,
        }
    }

    /// The media-type text of `self`.
    pub fn as_str(&self) -> (r: &str)
        ensures
            r@ == self.text(),
    {
        match self {
            MimeType::TextHtml => "text/html",
            MimeType::TextCss => "text/css",
            MimeType::ApplicationJavaScript => "application/javascript",
            MimeType::ApplicationJson => "application/json",
            MimeType::ApplicationXml => "application/xml",
            MimeType::ApplicationPdf => "application/pdf",
            MimeType::ApplicationZip => "application/zip",
            MimeType::ApplicationXTar => "application/x-tar",
            MimeType::ApplicationGzip => "application/gzip",
            MimeType::ApplicationXBzip2 => "application/x-bzip2",
            MimeType::ApplicationX7zCompressed => "application/x-7z-compressed",
            MimeType::ApplicationVndRar => "application/vnd.rar",
            MimeType::ApplicationVndMicrosoftPE => "application/vnd.microsoft.portable-executable",
            MimeType::ApplicationXMsdownload => "application/x-msdownload",
            MimeType::ApplicationOctetStream => "application/octet-stream",
            MimeType::ImagePng => "image/png",
            MimeType::ImageJpeg => "image/jpeg",
            MimeType::ImageGif => "image/gif",
            MimeType::ImageSvgXml => "image/svg+xml",
            MimeType::ImageBmp => "image/bmp",
            MimeType::ImageXIcon => "image/x-icon",
            MimeType::ImageTiff => "image/tiff",
            MimeType::ImageWebp => "image/webp",
            MimeType::AudioMpeg => "audio/mpeg",
            MimeType::AudioWav => "audio/wav",
            MimeType::AudioOgg => "audio/ogg",
            MimeType::AudioFlac => "audio/flac",
            MimeType::AudioAac => "audio/aac",
            MimeType::VideoMp4 => "video/mp4",
            MimeType::VideoXM4v => "video/x-m4v",
            MimeType::VideoXMatroska => "video/x-matroska",
            MimeType::VideoWebm => "video/webm",
            MimeType::VideoXMsVideo => "video/x-msvideo",
            MimeType::VideoQuicktime => "video/quicktime",
            MimeType::VideoXMsWmv => "video/x-ms-wmv",
            MimeType::TextPlain => "text/plain",
            MimeType::TextCsv => "text/csv",
            MimeType::TextMarkdown => "text/markdown",
            MimeType::ApplicationRtf => "application/rtf",
            MimeType::ApplicationVndOasisOdt => "application/vnd.oasis.opendocument.text",
            MimeType::ApplicationVndOasisOds => "application/vnd.oasis.opendocument.spreadsheet",
            MimeType::ApplicationVndOasisOdp => "application/vnd.oasis.opendocument.presentation",
            MimeType::ApplicationMsword => "application/msword",
            MimeType::ApplicationVndOpenxmlWord => "application/vnd.openxmlformats-officedocument.wordprocessingml.document",
            MimeType::ApplicationVndMsExcel => "application/vnd.ms-excel",
            MimeType::ApplicationVndOpenxmlExcel => "application/vnd.openxmlformats-officedocument.spreadsheetml.sheet",
            MimeType::ApplicationVndMsPowerpoint => "application/vnd.ms-powerpoint",
            MimeType::ApplicationVndOpenxmlPowerpoint => "application/vnd.openxmlformats-officedocument.presentationml.presentation",
            MimeType::ApplicationWasm => "application/wasm",
        }
    }
}

/// The MIME type of files with this extension; `ApplicationOctetStream` for
/// any extension the table does not know.
pub open spec fn mime_type_of(extension: Seq<char>) -> MimeType {
    if extension == "html"@ || extension == "htm"@ {
        MimeType::TextHtml
    } else if extension == "css"@ {
        MimeType::TextCss
    } else if extension == "js"@ || extension == "mjs"@ {
        MimeType::ApplicationJavaScript
    } else if extension == "json"@ {
        MimeType::ApplicationJson
    } else if extension == "xml"@ {
        MimeType::ApplicationXml
    } else if extension == "pdf"@ {
        MimeType::ApplicationPdf
    } else if extension == "zip"@ {
        MimeType::ApplicationZip
    } else if extension == "tar"@ {
        MimeType::ApplicationXTar
    } else if extension == "gz"@ {
        MimeType::ApplicationGzip
    } else if extension == "bz2"@ {
        MimeType::ApplicationXBzip2
    } else if extension == "7z"@ {
        MimeType::ApplicationX7zCompressed
    } else if extension == "rar"@ {
        MimeType::ApplicationVndRar
    } else if extension == "exe"@ {
        MimeType::ApplicationVndMicrosoftPE
    } else if extension == "msi"@ {
        MimeType::ApplicationXMsdownload
    } else if extension == "bin"@ || extension == "dll"@ || extension == "iso"@ || extension == "dmg"@ {
        MimeType::ApplicationOctetStream
    } else if extension == "png"@ {
        MimeType::ImagePng
    } else if extension == "jpg"@ || extension == "jpeg"@ {
        MimeType::ImageJpeg
    } else if extension == "gif"@ {
        MimeType::ImageGif
    } else if extension == "svg"@ {
        MimeType::ImageSvgXml
    } else if extension == "bmp"@ {
        MimeType::ImageBmp
    } else if extension == "ico"@ {
        MimeType::ImageXIcon
    } else if extension == "tiff"@ || extension == "tif"@ {
        MimeType::ImageTiff
    } else if extension == "webp"@ {
        MimeType::ImageWebp
    } else if extension == "mp3"@ {
        MimeType::AudioMpeg
    } else if extension == "wav"@ {
        MimeType::AudioWav
    } else if extension == "ogg"@ {
        MimeType::AudioOgg
    } else if extension == "flac"@ {
        MimeType::AudioFlac
    } else if extension == "aac"@ {
        MimeType::AudioAac
    } else if extension == "mp4"@ {
        MimeType::VideoMp4
    } else if extension == "m4v"@ {
        MimeType::VideoXM4v
    } else if extension == "mkv"@ {
        MimeType::VideoXMatroska
    } else if extension == "webm"@ {
        MimeType::VideoWebm
    } else if extension == "avi"@ {
        MimeType::VideoXMsVideo
    } else if extension == "mov"@ {
        MimeType::VideoQuicktime
    } else if extension == "wmv"@ {
        MimeType::VideoXMsWmv
    } else if extension == "txt"@ {
        MimeType::TextPlain
    } else if extension == "csv"@ {
        MimeType::TextCsv
    } else if extension == "md"@ {
        MimeType::TextMarkdown
    } else if extension == "rtf"@ {
        MimeType::ApplicationRtf
    } else if extension == "odt"@ {
        MimeType::ApplicationVndOasisOdt
    } else if extension == "ods"@ {
        MimeType::ApplicationVndOasisOds
    } else if extension == "odp"@ {
        MimeType::ApplicationVndOasisOdp
    } else if extension == "doc"@ {
        MimeType::ApplicationMsword
    } else if extension == "docx"@ {
        MimeType::ApplicationVndOpenxmlWord
    } else if extension == "xls"@ {
        MimeType::ApplicationVndMsExcel
    } else if extension == "xlsx"@ {
        MimeType::ApplicationVndOpenxmlExcel
    } else if extension == "ppt"@ {
        MimeType::ApplicationVndMsPowerpoint
    } else if extension == "pptx"@ {
        MimeType::ApplicationVndOpenxmlPowerpoint
    } else if extension == "wasm"@ {
        MimeType::ApplicationWasm
    } else {
        MimeType::ApplicationOctetStream
    }
}

/// Looks up the MIME type of files with this extension.
pub fn mime_type_for(extension: &str) -> (r: MimeType)
    ensures
        r == mime_type_of(extension@),
{
    if same_text(extension, "html") || same_text(extension, "htm") {
        return MimeType::TextHtml;
    }
    if same_text(extension, "css") {
        return MimeType::TextCss;
    }
    if same_text(extension, "js") || same_text(extension, "mjs") {
        return MimeType::ApplicationJavaScript;
    }
    if same_text(extension, "json") {
        return MimeType::ApplicationJson;
    }
    if same_text(extension, "xml") {
        return MimeType::ApplicationXml;
    }
    if same_text(extension, "pdf") {
        return MimeType::ApplicationPdf;
    }
    if same_text(extension, "zip") {
        return MimeType::ApplicationZip;
    }
    if same_text(extension, "tar") {
        return MimeType::ApplicationXTar;
    }
    if same_text(extension, "gz") {
        return MimeType::ApplicationGzip;
    }
    if same_text(extension, "bz2") {
        return MimeType::ApplicationXBzip2;
    }
    if same_text(extension, "7z") {
        return MimeType::ApplicationX7zCompressed;
    }
    if same_text(extension, "rar") {
        return MimeType::ApplicationVndRar;
    }
    if same_text(extension, "exe") {
        return MimeType::ApplicationVndMicrosoftPE;
    }
    if same_text(extension, "msi") {
        return MimeType::ApplicationXMsdownload;
    }
    if same_text(extension, "bin") || same_text(extension, "dll") || same_text(extension, "iso") || same_text(extension, "dmg") {
        return MimeType::ApplicationOctetStream;
    }
    if same_text(extension, "png") {
        return MimeType::ImagePng;
    }
    if same_text(extension, "jpg") || same_text(extension, "jpeg") {
        return MimeType::ImageJpeg;
    }
    if same_text(extension, "gif") {
        return MimeType::ImageGif;
    }
    if same_text(extension, "svg") {
        return MimeType::ImageSvgXml;
    }
    if same_text(extension, "bmp") {
        return MimeType::ImageBmp;
    }
    if same_text(extension, "ico") {
        return MimeType::ImageXIcon;
    }
    if same_text(extension, "tiff") || same_text(extension, "tif") {
        return MimeType::ImageTiff;
    }
    if same_text(extension, "webp") {
        return MimeType::ImageWebp;
    }
    if same_text(extension, "mp3") {
        return MimeType::AudioMpeg;
    }
    if same_text(extension, "wav") {
        return MimeType::AudioWav;
    }
    if same_text(extension, "ogg") {
        return MimeType::AudioOgg;
    }
    if same_text(extension, "flac") {
        return MimeType::AudioFlac;
    }
    if same_text(extension, "aac") {
        return MimeType::AudioAac;
    }
    if same_text(extension, "mp4") {
        return MimeType::VideoMp4;
    }
    if same_text(extension, "m4v") {
        return MimeType::VideoXM4v;
    }
    if same_text(extension, "mkv") {
        return MimeType::VideoXMatroska;
    }
    if same_text(extension, "webm") {
        return MimeType::VideoWebm;
    }
    if same_text(extension, "avi") {
        return MimeType::VideoXMsVideo;
    }
    if same_text(extension, "mov") {
        return MimeType::VideoQuicktime;
    }
    if same_text(extension, "wmv") {
        return MimeType::VideoXMsWmv;
    }
    if same_text(extension, "txt") {
        return MimeType::TextPlain;
    }
    if same_text(extension, "csv") {
        return MimeType::TextCsv;
    }
    if same_text(extension, "md") {
        return MimeType::TextMarkdown;
    }
    if same_text(extension, "rtf") {
        return MimeType::ApplicationRtf;
    }
    if same_text(extension, "odt") {
        return MimeType::ApplicationVndOasisOdt;
    }
    if same_text(extension, "ods") {
        return MimeType::ApplicationVndOasisOds;
    }
    if same_text(extension, "odp") {
        return MimeType::ApplicationVndOasisOdp;
    }
    if same_text(extension, "doc") {
        return MimeType::ApplicationMsword;
    }
    if same_text(extension, "docx") {
        return MimeType::ApplicationVndOpenxmlWord;
    }
    if same_text(extension, "xls") {
        return MimeType::ApplicationVndMsExcel;
    }
    if same_text(extension, "xlsx") {
        return MimeType::ApplicationVndOpenxmlExcel;
    }
    if same_text(extension, "ppt") {
        return MimeType::ApplicationVndMsPowerpoint;
    }
    if same_text(extension, "pptx") {
        return MimeType::ApplicationVndOpenxmlPowerpoint;
    }
    if same_text(extension, "wasm") {
        return MimeType::ApplicationWasm;
    }
    MimeType::ApplicationOctetStream
}

/// The media-type text for files with this extension.
pub fn get_mime_type(extension: &str) -> (r: String)
    ensures
        r@ == mime_type_of(extension@).text(),
{
    let m = mime_type_for(extension);
    String::from_str(m.as_str())
}

/// The extension of the last component of a path, as `std::path::Path`
/// finds it.
pub uninterp spec fn path_extension(path: Seq<char>) -> Option<Seq<char>>;

/// Relies on `std::path::Path::extension`, with `OsStr::to_str`: the
/// extension of the path's file name, if it has one; the result depends on
/// the path's text alone. A path made from a `str` is valid UTF-8, so
/// `to_str` only converts.
#[verifier::external_body]
fn extension_of(path: &str) -> (r: Option<String>)
    ensures
        r matches Some(e) ==> path_extension(path@) == Some(e@),
        r is None ==> path_extension(path@) is None,
{
    match std::path::Path::new(path).extension() {
        Some(ext) => match ext.to_str() {
            Some(e) => Some(e.to_string()),
            None => None,
        },
        None => None,
    }
}

/// The media-type text for the file at `path`, by its extension;
/// `application/octet-stream` when it has none.
pub open spec fn mime_text_of_path(path: Seq<char>) -> Seq<char> {
    match path_extension(path) {
        Some(e) => mime_type_of(e).text(),
        None => MimeType::ApplicationOctetStream.text(),
    }
}

/// Looks up the MIME type of the file at `path` by its extension.
pub fn get_mime_type_from_path(path: &str) -> (r: String)
    ensures
        r@ == mime_text_of_path(path@),
{
    match extension_of(path) {
        Some(e) => get_mime_type(e.as_str()),
        None => String::from_str(MimeType::ApplicationOctetStream.as_str()),
    }
}

} // verus!
