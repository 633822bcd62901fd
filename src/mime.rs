//! MIME resolver: file extension to content type, and the text/binary split.
use vstd::prelude::*;
use vstd::string::StringExecFns;

use crate::text::text_eq;

verus! {

/// The error of parsing a file extension that names no known content type.
#[derive(Debug, Clone, Copy, PartialEq, Eq)]
pub struct MimeTypeParseError;

impl MimeTypeParseError {
    /// What went wrong, in words.
    pub fn to_string(&self) -> (r: String)
        ensures
            r@ == "parse mime type from file extension failed"@,
    {
        String::from_str("parse mime type from file extension failed")
    }
}

/// A content type that the server can put in a `Content-Type` header.
#[derive(Debug, Clone, Copy, PartialEq, Eq, Structural)]
pub enum MimeType {
    TextHtml,
    TextCss,
    TextPlain,
    TextXml,
    TextMathml,
    TextJad,
    TextWml,
    TextHtc,
    ImageGif,
    ImageJpeg,
    ImagePng,
    ImageSvgXml,
    ImageTiff,
    ImageWebp,
    ImageVndWapWbmp,
    ImageXIcon,
    ImageXJng,
    ImageXMsBmp,
    FontWoff,
    FontWoff2,
    ApplicationJavaScript,
    ApplicationJson,
    ApplicationAtom,
    ApplicationRss,
    ApplicationJava,
    ApplicationHqx,
    ApplicationMsword,
    ApplicationPdf,
    ApplicationPostScript,
    ApplicationRtf,
    ApplicationM3u8,
    ApplicationKml,
    ApplicationKmz,
    ApplicationMsExcel,
    ApplicationMsFrontObj,
    ApplicationMsPpt,
    ApplicationOdg,
    ApplicationOdp,
    ApplicationOds,
    ApplicationOdt,
    ApplicationMsPptx,
    ApplicationMsXlsx,
    ApplicationMsDocx,
    ApplicationWmlc,
    Application7z,
    ApplicationCco,
    ApplicationJardiff,
    ApplicationJnlp,
    ApplicationRun,
    ApplicationPerl,
    ApplicationPilot,
    ApplicationRar,
    ApplicationRpm,
    ApplicationSea,
    ApplicationSwf,
    ApplicationSit,
    ApplicationTcl,
    ApplicationCert,
    ApplicationXpi,
    ApplicationXhtml,
    ApplicationXspf,
    ApplicationZip,
    ApplicationOctetStream,
    AudioMidi,
    AudioMpeg,
    AudioOgg,
    AudioM4a,
    AudioRa,
    Video3gpp,
    VideoMp2t,
    VideoMp4,
    VideoMpeg,
    VideoMov,
    VideoWebm,
    VideoFlv,
    VideoM4v,
    VideoMng,
    VideoAsf,
    VideoWmv,
    VideoAvi,
}

/// The content type that a file extension names, if any.
pub open spec fn mime_for_extension(ext: Seq<char>) -> Option<MimeType> {
    if ext == "html"@ || ext == "htm"@ || ext == "shtml"@ {
        Some(MimeType::TextHtml)
    } else if ext == "css"@ {
        Some(MimeType::TextCss)
    } else if ext == "xml"@ {
        Some(MimeType::TextXml)
    } else if ext == "mml"@ {
        Some(MimeType::TextMathml)
    } else if ext == "txt"@ {
        Some(MimeType::TextPlain)
    } else if ext == "jad"@ {
        Some(MimeType::TextJad)
    } else if ext == "wml"@ {
        Some(MimeType::TextWml)
    } else if ext == "htc"@ {
        Some(MimeType::TextHtc)
    } else if ext == "jpeg"@ || ext == "jpg"@ {
        Some(MimeType::ImageJpeg)
    } else if ext == "gif"@ {
        Some(MimeType::ImageGif)
    } else if ext == "png"@ {
        Some(MimeType::ImagePng)
    } else if ext == "svg"@ || ext == "svgz"@ {
        Some(MimeType::ImageSvgXml)
    } else if ext == "tif"@ || ext == "tiff"@ {
        Some(MimeType::ImageTiff)
    } else if ext == "webmp"@ {
        Some(MimeType::ImageVndWapWbmp)
    } else if ext == "webp"@ {
        Some(MimeType::ImageWebp)
    } else if ext == "ico"@ {
        Some(MimeType::ImageXIcon)
    } else if ext == "jng"@ {
        Some(MimeType::ImageXJng)
    } else if ext == "bmp"@ {
        Some(MimeType::ImageXMsBmp)
    } else if ext == "woff"@ {
        Some(MimeType::FontWoff)
    } else if ext == "woff2"@ {
        Some(MimeType::FontWoff2)
    } else if ext == "js"@ {
        Some(MimeType::ApplicationJavaScript)
    } else if ext == "atom"@ {
        Some(MimeType::ApplicationAtom)
    } else if ext == "rss"@ {
        Some(MimeType::ApplicationRss)
    } else if ext == "jar"@ || ext == "war"@ || ext == "ear"@ {
        Some(MimeType::ApplicationJava)
    } else if ext == "json"@ {
        Some(MimeType::ApplicationJson)
    } else if ext == "hqx"@ {
        Some(MimeType::ApplicationHqx)
    } else if ext == "doc"@ {
        Some(MimeType::ApplicationMsword)
    } else if ext == "pdf"@ {
        Some(MimeType::ApplicationPdf)
    } else if ext == "ps"@ || ext == "eps"@ || ext == "ai"@ {
        Some(MimeType::ApplicationPostScript)
    } else if ext == "rtf"@ {
        Some(MimeType::ApplicationRtf)
    } else if ext == "m3u8"@ {
        Some(MimeType::ApplicationM3u8)
    } else if ext == "kml"@ {
        Some(MimeType::ApplicationKml)
    } else if ext == "kmz"@ {
        Some(MimeType::ApplicationKmz)
    } else if ext == "xls"@ {
        Some(MimeType::ApplicationMsExcel)
    } else if ext == "eot"@ {
        Some(MimeType::ApplicationMsFrontObj)
    } else if ext == "ppt"@ {
        Some(MimeType::ApplicationMsPpt)
    } else if ext == "odg"@ {
        Some(MimeType::ApplicationOdg)
    } else if ext == "odp"@ {
        Some(MimeType::ApplicationOdp)
    } else if ext == "ods"@ {
        Some(MimeType::ApplicationOds)
    } else if ext == "odt"@ {
        Some(MimeType::ApplicationOdt)
    } else if ext == "pptx"@ {
        Some(MimeType::ApplicationMsPptx)
    } else if ext == "xlsx"@ {
        Some(MimeType::ApplicationMsXlsx)
    } else if ext == "docx"@ {
        Some(MimeType::ApplicationMsDocx)
    } else if ext == "wmlc"@ {
        Some(MimeType::ApplicationWmlc)
    } else if ext == "7z"@ {
        Some(MimeType::Application7z)
    } else if ext == "cco"@ {
        Some(MimeType::ApplicationCco)
    } else if ext == "jardiff"@ {
        Some(MimeType::ApplicationJardiff)
    } else if ext == "jnlp"@ {
        Some(MimeType::ApplicationJnlp)
    } else if ext == "run"@ {
        Some(MimeType::ApplicationRun)
    } else if ext == "pl"@ || ext == "pm"@ {
        Some(MimeType::ApplicationPerl)
    } else if ext == "prc"@ || ext == "pdb"@ {
        Some(MimeType::ApplicationPilot)
    } else if ext == "rar"@ {
        Some(MimeType::ApplicationRar)
    } else if ext == "rpm"@ {
        Some(MimeType::ApplicationRpm)
    } else if ext == "sea"@ {
        Some(MimeType::ApplicationSea)
    } else if ext == "swf"@ {
        Some(MimeType::ApplicationSwf)
    } else if ext == "sit"@ {
        Some(MimeType::ApplicationSit)
    } else if ext == "tcl"@ || ext == "tk"@ {
        Some(MimeType::ApplicationTcl)
    } else if ext == "der"@ || ext == "perm"@ || ext == "crt"@ {
        Some(MimeType::ApplicationCert)
    } else if ext == "xpi"@ {
        Some(MimeType::ApplicationXpi)
    } else if ext == "xhtml"@ {
        Some(MimeType::ApplicationXhtml)
    } else if ext == "xspf"@ {
        Some(MimeType::ApplicationXspf)
    } else if ext == "zip"@ {
        Some(MimeType::ApplicationZip)
    } else if ext == "bin"@ || ext == "exe"@ || ext == "dll"@ || ext == "deb"@ || ext == "dmg"@ || ext == "iso"@ || ext == "img"@ || ext == "msi"@ || ext == "msp"@ || ext == "msm"@ || ext == "gz"@ {
        Some(MimeType::ApplicationOctetStream)
    } else if ext == "mid"@ || ext == "midi"@ || ext == "kar"@ {
        Some(MimeType::AudioMidi)
    } else if ext == "mp3"@ {
        Some(MimeType::AudioMpeg)
    } else if ext == "ogg"@ {
        Some(MimeType::AudioOgg)
    } else if ext == "m4a"@ {
        Some(MimeType::AudioM4a)
    } else if ext == "ra"@ {
        Some(MimeType::AudioRa)
    } else if ext == "3gpp"@ || ext == "3gp"@ {
        Some(MimeType::Video3gpp)
    } else if ext == "ts"@ {
        Some(MimeType::VideoMp2t)
    } else if ext == "mp4"@ {
        Some(MimeType::VideoMp4)
    } else if ext == "mpeg"@ || ext == "mpg"@ {
        Some(MimeType::VideoMpeg)
    } else if ext == "mov"@ {
        Some(MimeType::VideoMov)
    } else if ext == "webm"@ {
        Some(MimeType::VideoWebm)
    } else if ext == "flv"@ {
        Some(MimeType::VideoFlv)
    } else if ext == "m4v"@ {
        Some(MimeType::VideoM4v)
    } else if ext == "mng"@ {
        Some(MimeType::VideoMng)
    } else if ext == "asx"@ || ext == "asf"@ {
        Some(MimeType::VideoAsf)
    } else if ext == "wmv"@ {
        Some(MimeType::VideoWmv)
    } else if ext == "avi"@ {
        Some(MimeType::VideoAvi)
    } else {
        None
    }
}

/// The content type of a file extension, `application/octet-stream` when it is unknown.
pub open spec fn resolve_spec(ext: Seq<char>) -> MimeType {
    match mime_for_extension(ext) {
        Some(m) => m,
        None => MimeType::ApplicationOctetStream,
    }
}

impl MimeType {
    /// Whether this type is text: html, css, xml, plain text, javascript, json and the like.
    pub open spec fn is_text_spec(self) -> bool {
        match self {
            MimeType::TextPlain | MimeType::TextXml | MimeType::TextHtml | MimeType::TextCss | MimeType::TextMathml | MimeType::TextJad | MimeType::TextWml | MimeType::TextHtc | MimeType::ApplicationJavaScript | MimeType::ApplicationXhtml | MimeType::ApplicationRss | MimeType::ApplicationJson => true,
            _ => false,
        }
    }

    /// The label of this type as it stands in a `Content-Type` header.
    pub open spec fn label(self) -> Seq<char> {
        match self {
            MimeType::TextHtml => "text/html"@,
            MimeType::TextCss => "text/css"@,
            MimeType::TextPlain => "text/plain"@,
            MimeType::TextXml => "text/xml"@,
            MimeType::TextMathml => "text/mathml"@,
            MimeType::TextJad => "text/vnd.sun.j2me.app-descriptor"@,
            MimeType::TextWml => "text/vnd.wap.wml"@,
            MimeType::TextHtc => "text/x-component"@,
            MimeType::ImageGif => "image/gif"@,
            MimeType::ImageJpeg => "image/jpeg"@,
            MimeType::ImagePng => "image/png"@,
            MimeType::ImageSvgXml => "image/svg+xml"@,
            MimeType::ImageTiff => "image/tiff"@,
            MimeType::ImageWebp => "image/webp"@,
            MimeType::ImageVndWapWbmp => "image/vnd.wap.wbmp"@,
            MimeType::ImageXIcon => "image/x-icon"@,
            MimeType::ImageXJng => "image/x-jng"@,
            MimeType::ImageXMsBmp => "image/x-ms-bmp"@,
            MimeType::FontWoff => "font/woff"@,
            MimeType::FontWoff2 => "font/woff2"@,
            MimeType::ApplicationJavaScript => "application/javascript"@,
            MimeType::ApplicationJson => "application/json"@,
            MimeType::ApplicationAtom => "application/atom+xml"@,
            MimeType::ApplicationRss => "application/rss+xml"@,
            MimeType::ApplicationJava => "application/java-archive"@,
            MimeType::ApplicationHqx => "application/mac-binhex40"@,
            MimeType::ApplicationMsword => "application/msword"@,
            MimeType::ApplicationPdf => "application/pdf"@,
            MimeType::ApplicationPostScript => "application/postscript"@,
            MimeType::ApplicationRtf => "application/rtf"@,
            MimeType::ApplicationM3u8 => "application/vnd.apple.mpegurl"@,
            MimeType::ApplicationKml => "application/vnd.google-earth.kml+xml"@,
            MimeType::ApplicationKmz => "application/vnd.google-earth.kmz"@,
            MimeType::ApplicationMsExcel => "application/vnd.ms-excel"@,
            MimeType::ApplicationMsFrontObj => "application/vnd.frontobject"@,
            MimeType::ApplicationMsPpt => "application/vnd.ms-powerpoint"@,
            MimeType::ApplicationOdg => "application/vnd.oasis.opendocument.graphics"@,
            MimeType::ApplicationOdp => "application/vnd.oasis.opendocument.presentation"@,
            MimeType::ApplicationOds => "application/vnd.oasis.opendocument.spreadsheet"@,
            MimeType::ApplicationOdt => "application/vnd.oasis.opendocument.text"@,
            MimeType::ApplicationMsPptx => "application/vnd.openxmlformats-officedocument.presentationml.presentation"@,
            MimeType::ApplicationMsXlsx => "application/vnd.openxmlformats-officedocument.spreadsheetml.sheet"@,
            MimeType::ApplicationMsDocx => "application/vnd.openxmlformats-officedocument.wordprocessingml.document"@,
            MimeType::ApplicationWmlc => "application/vnd.wap.wmlc"@,
            MimeType::Application7z => "application/x-7z-compressed"@,
            MimeType::ApplicationCco => "application/x-cocoa"@,
            MimeType::ApplicationJardiff => "application/x-java-archive-diff"@,
            MimeType::ApplicationJnlp => "application/x-java-jnlp-file"@,
            MimeType::ApplicationRun => "application/x-makeself"@,
            MimeType::ApplicationPerl => "application/x-perl"@,
            MimeType::ApplicationPilot => "application/x-pilot"@,
            MimeType::ApplicationRar => "application/x-rar-compressed"@,
            MimeType::ApplicationRpm => "application/x-redhat-package-manager"@,
            MimeType::ApplicationSea => "application/x-sea"@,
            MimeType::ApplicationSwf => "application/x-shockwave-flash"@,
            MimeType::ApplicationSit => "application/x-stuffit"@,
            MimeType::ApplicationTcl => "application/x-tcl"@,
            MimeType::ApplicationCert => "application/x-x509-ca-cert"@,
            MimeType::ApplicationXpi => "application/x-xpinstall"@,
            MimeType::ApplicationXhtml => "application/xhtml+xml"@,
            MimeType::ApplicationXspf => "application/xspf+xml"@,
            MimeType::ApplicationZip => "application/zip"@,
            MimeType::ApplicationOctetStream => "application/octet-stream"@,
            MimeType::AudioMidi => "audio/midi"@,
            MimeType::AudioMpeg => "audio/mpeg"@,
            MimeType::AudioOgg => "audio/ogg"@,
            MimeType::AudioM4a => "audio/x-m4a"@,
            MimeType::AudioRa => "audio/x-readaudio"@,
            MimeType::Video3gpp => "video/3gpp"@,
            MimeType::VideoMp2t => "video/mp2t"@,
            MimeType::VideoMp4 => "video/mp4"@,
            MimeType::VideoMpeg => "video/mpeg"@,
            MimeType::VideoMov => "video/quicktime"@,
            MimeType::VideoWebm => "video/webm"@,
            MimeType::VideoFlv => "video/x-flv"@,
            MimeType::VideoM4v => "video/x-m4v"@,
            MimeType::VideoMng => "video/x-mng"@,
            MimeType::VideoAsf => "video/x-ms-asf"@,
            MimeType::VideoWmv => "video/x-ms-wmv"@,
            MimeType::VideoAvi => "video/x-msvideo"@,
        }
    }

    /// Whether this type is text: html, css, xml, plain text, javascript, json and the like.
    pub fn is_text(&self) -> (r: bool)
        ensures
            r == self.is_text_spec(),
    {
        match self {
            MimeType::TextPlain | MimeType::TextXml | MimeType::TextHtml | MimeType::TextCss | MimeType::TextMathml | MimeType::TextJad | MimeType::TextWml | MimeType::TextHtc | MimeType::ApplicationJavaScript | MimeType::ApplicationXhtml | MimeType::ApplicationRss | MimeType::ApplicationJson => true,
            _ => false,
        }
    }

    /// The label of this type as it stands in a `Content-Type` header.
    pub fn as_str(&self) -> (r: &'static str)
        ensures
            r@ == self.label(),
    {
        match self {
            MimeType::TextHtml => "text/html",
            MimeType::TextCss => "text/css",
            MimeType::TextPlain => "text/plain",
            MimeType::TextXml => "text/xml",
            MimeType::TextMathml => "text/mathml",
            MimeType::TextJad => "text/vnd.sun.j2me.app-descriptor",
            MimeType::TextWml => "text/vnd.wap.wml",
            MimeType::TextHtc => "text/x-component",
            MimeType::ImageGif => "image/gif",
            MimeType::ImageJpeg => "image/jpeg",
            MimeType::ImagePng => "image/png",
            MimeType::ImageSvgXml => "image/svg+xml",
            MimeType::ImageTiff => "image/tiff",
            MimeType::ImageWebp => "image/webp",
            MimeType::ImageVndWapWbmp => "image/vnd.wap.wbmp",
            MimeType::ImageXIcon => "image/x-icon",
            MimeType::ImageXJng => "image/x-jng",
            MimeType::ImageXMsBmp => "image/x-ms-bmp",
            MimeType::FontWoff => "font/woff",
            MimeType::FontWoff2 => "font/woff2",
            MimeType::ApplicationJavaScript => "application/javascript",
            MimeType::ApplicationJson => "application/json",
            MimeType::ApplicationAtom => "application/atom+xml",
            MimeType::ApplicationRss => "application/rss+xml",
            MimeType::ApplicationJava => "application/java-archive",
            MimeType::ApplicationHqx => "application/mac-binhex40",
            MimeType::ApplicationMsword => "application/msword",
            MimeType::ApplicationPdf => "application/pdf",
            MimeType::ApplicationPostScript => "application/postscript",
            MimeType::ApplicationRtf => "application/rtf",
            MimeType::ApplicationM3u8 => "application/vnd.apple.mpegurl",
            MimeType::ApplicationKml => "application/vnd.google-earth.kml+xml",
            MimeType::ApplicationKmz => "application/vnd.google-earth.kmz",
            MimeType::ApplicationMsExcel => "application/vnd.ms-excel",
            MimeType::ApplicationMsFrontObj => "application/vnd.frontobject",
            MimeType::ApplicationMsPpt => "application/vnd.ms-powerpoint",
            MimeType::ApplicationOdg => "application/vnd.oasis.opendocument.graphics",
            MimeType::ApplicationOdp => "application/vnd.oasis.opendocument.presentation",
            MimeType::ApplicationOds => "application/vnd.oasis.opendocument.spreadsheet",
            MimeType::ApplicationOdt => "application/vnd.oasis.opendocument.text",
            MimeType::ApplicationMsPptx => "application/vnd.openxmlformats-officedocument.presentationml.presentation",
            MimeType::ApplicationMsXlsx => "application/vnd.openxmlformats-officedocument.spreadsheetml.sheet",
            MimeType::ApplicationMsDocx => "application/vnd.openxmlformats-officedocument.wordprocessingml.document",
            MimeType::ApplicationWmlc => "application/vnd.wap.wmlc",
            MimeType::Application7z => "application/x-7z-compressed",
            MimeType::ApplicationCco => "application/x-cocoa",
            MimeType::ApplicationJardiff => "application/x-java-archive-diff",
            MimeType::ApplicationJnlp => "application/x-java-jnlp-file",
            MimeType::ApplicationRun => "application/x-makeself",
            MimeType::ApplicationPerl => "application/x-perl",
            MimeType::ApplicationPilot => "application/x-pilot",
            MimeType::ApplicationRar => "application/x-rar-compressed",
            MimeType::ApplicationRpm => "application/x-redhat-package-manager",
            MimeType::ApplicationSea => "application/x-sea",
            MimeType::ApplicationSwf => "application/x-shockwave-flash",
            MimeType::ApplicationSit => "application/x-stuffit",
            MimeType::ApplicationTcl => "application/x-tcl",
            MimeType::ApplicationCert => "application/x-x509-ca-cert",
            MimeType::ApplicationXpi => "application/x-xpinstall",
            MimeType::ApplicationXhtml => "application/xhtml+xml",
            MimeType::ApplicationXspf => "application/xspf+xml",
            MimeType::ApplicationZip => "application/zip",
            MimeType::ApplicationOctetStream => "application/octet-stream",
            MimeType::AudioMidi => "audio/midi",
            MimeType::AudioMpeg => "audio/mpeg",
            MimeType::AudioOgg => "audio/ogg",
            MimeType::AudioM4a => "audio/x-m4a",
            MimeType::AudioRa => "audio/x-readaudio",
            MimeType::Video3gpp => "video/3gpp",
            MimeType::VideoMp2t => "video/mp2t",
            MimeType::VideoMp4 => "video/mp4",
            MimeType::VideoMpeg => "video/mpeg",
            MimeType::VideoMov => "video/quicktime",
            MimeType::VideoWebm => "video/webm",
            MimeType::VideoFlv => "video/x-flv",
            MimeType::VideoM4v => "video/x-m4v",
            MimeType::VideoMng => "video/x-mng",
            MimeType::VideoAsf => "video/x-ms-asf",
            MimeType::VideoWmv => "video/x-ms-wmv",
            MimeType::VideoAvi => "video/x-msvideo",
        }
    }

    /// The label of this type, owned.
    pub fn to_string(&self) -> (r: String)
        ensures
            r@ == self.label(),
    {
        String::from_str(self.as_str())
    }

    /// The content type named by a file extension (without its dot).
    pub fn from_str(ext: &str) -> (r: Result<MimeType, MimeTypeParseError>)
        ensures
            r.is_ok() <==> mime_for_extension(ext@).is_some(),
            r.is_ok() ==> r.unwrap() == mime_for_extension(ext@).unwrap(),
    {
        if text_eq(ext, "html") || text_eq(ext, "htm") || text_eq(ext, "shtml") {
            Ok(MimeType::TextHtml)
        } else if text_eq(ext, "css") {
            Ok(MimeType::TextCss)
        } else if text_eq(ext, "xml") {
            Ok(MimeType::TextXml)
        } else if text_eq(ext, "mml") {
            Ok(MimeType::TextMathml)
        } else if text_eq(ext, "txt") {
            Ok(MimeType::TextPlain)
        } else if text_eq(ext, "jad") {
            Ok(MimeType::TextJad)
        } else if text_eq(ext, "wml") {
            Ok(MimeType::TextWml)
        } else if text_eq(ext, "htc") {
            Ok(MimeType::TextHtc)
        } else if text_eq(ext, "jpeg") || text_eq(ext, "jpg") {
            Ok(MimeType::ImageJpeg)
        } else if text_eq(ext, "gif") {
            Ok(MimeType::ImageGif)
        } else if text_eq(ext, "png") {
            Ok(MimeType::ImagePng)
        } else if text_eq(ext, "svg") || text_eq(ext, "svgz") {
            Ok(MimeType::ImageSvgXml)
        } else if text_eq(ext, "tif") || text_eq(ext, "tiff") {
            Ok(MimeType::ImageTiff)
        } else if text_eq(ext, "webmp") {
            Ok(MimeType::ImageVndWapWbmp)
        } else if text_eq(ext, "webp") {
            Ok(MimeType::ImageWebp)
        } else if text_eq(ext, "ico") {
            Ok(MimeType::ImageXIcon)
        } else if text_eq(ext, "jng") {
            Ok(MimeType::ImageXJng)
        } else if text_eq(ext, "bmp") {
            Ok(MimeType::ImageXMsBmp)
        } else if text_eq(ext, "woff") {
            Ok(MimeType::FontWoff)
        } else if text_eq(ext, "woff2") {
            Ok(MimeType::FontWoff2)
        } else if text_eq(ext, "js") {
            Ok(MimeType::ApplicationJavaScript)
        } else if text_eq(ext, "atom") {
            Ok(MimeType::ApplicationAtom)
        } else if text_eq(ext, "rss") {
            Ok(MimeType::ApplicationRss)
        } else if text_eq(ext, "jar") || text_eq(ext, "war") || text_eq(ext, "ear") {
            Ok(MimeType::ApplicationJava)
        } else if text_eq(ext, "json") {
            Ok(MimeType::ApplicationJson)
        } else if text_eq(ext, "hqx") {
            Ok(MimeType::ApplicationHqx)
        } else if text_eq(ext, "doc") {
            Ok(MimeType::ApplicationMsword)
        } else if text_eq(ext, "pdf") {
            Ok(MimeType::ApplicationPdf)
        } else if text_eq(ext, "ps") || text_eq(ext, "eps") || text_eq(ext, "ai") {
            Ok(MimeType::ApplicationPostScript)
        } else if text_eq(ext, "rtf") {
            Ok(MimeType::ApplicationRtf)
        } else if text_eq(ext, "m3u8") {
            Ok(MimeType::ApplicationM3u8)
        } else if text_eq(ext, "kml") {
            Ok(MimeType::ApplicationKml)
        } else if text_eq(ext, "kmz") {
            Ok(MimeType::ApplicationKmz)
        } else if text_eq(ext, "xls") {
            Ok(MimeType::ApplicationMsExcel)
        } else if text_eq(ext, "eot") {
            Ok(MimeType::ApplicationMsFrontObj)
        } else if text_eq(ext, "ppt") {
            Ok(MimeType::ApplicationMsPpt)
        } else if text_eq(ext, "odg") {
            Ok(MimeType::ApplicationOdg)
        } else if text_eq(ext, "odp") {
            Ok(MimeType::ApplicationOdp)
        } else if text_eq(ext, "ods") {
            Ok(MimeType::ApplicationOds)
        } else if text_eq(ext, "odt") {
            Ok(MimeType::ApplicationOdt)
        } else if text_eq(ext, "pptx") {
            Ok(MimeType::ApplicationMsPptx)
        } else if text_eq(ext, "xlsx") {
            Ok(MimeType::ApplicationMsXlsx)
        } else if text_eq(ext, "docx") {
            Ok(MimeType::ApplicationMsDocx)
        } else if text_eq(ext, "wmlc") {
            Ok(MimeType::ApplicationWmlc)
        } else if text_eq(ext, "7z") {
            Ok(MimeType::Application7z)
        } else if text_eq(ext, "cco") {
            Ok(MimeType::ApplicationCco)
        } else if text_eq(ext, "jardiff") {
            Ok(MimeType::ApplicationJardiff)
        } else if text_eq(ext, "jnlp") {
            Ok(MimeType::ApplicationJnlp)
        } else if text_eq(ext, "run") {
            Ok(MimeType::ApplicationRun)
        } else if text_eq(ext, "pl") || text_eq(ext, "pm") {
            Ok(MimeType::ApplicationPerl)
        } else if text_eq(ext, "prc") || text_eq(ext, "pdb") {
            Ok(MimeType::ApplicationPilot)
        } else if text_eq(ext, "rar") {
            Ok(MimeType::ApplicationRar)
        } else if text_eq(ext, "rpm") {
            Ok(MimeType::ApplicationRpm)
        } else if text_eq(ext, "sea") {
            Ok(MimeType::ApplicationSea)
        } else if text_eq(ext, "swf") {
            Ok(MimeType::ApplicationSwf)
        } else if text_eq(ext, "sit") {
            Ok(MimeType::ApplicationSit)
        } else if text_eq(ext, "tcl") || text_eq(ext, "tk") {
            Ok(MimeType::ApplicationTcl)
        } else if text_eq(ext, "der") || text_eq(ext, "perm") || text_eq(ext, "crt") {
            Ok(MimeType::ApplicationCert)
        } else if text_eq(ext, "xpi") {
            Ok(MimeType::ApplicationXpi)
        } else if text_eq(ext, "xhtml") {
            Ok(MimeType::ApplicationXhtml)
        } else if text_eq(ext, "xspf") {
            Ok(MimeType::ApplicationXspf)
        } else if text_eq(ext, "zip") {
            Ok(MimeType::ApplicationZip)
        } else if text_eq(ext, "bin") || text_eq(ext, "exe") || text_eq(ext, "dll") || text_eq(ext, "deb") || text_eq(ext, "dmg") || text_eq(ext, "iso") || text_eq(ext, "img") || text_eq(ext, "msi") || text_eq(ext, "msp") || text_eq(ext, "msm") || text_eq(ext, "gz") {
            Ok(MimeType::ApplicationOctetStream)
        } else if text_eq(ext, "mid") || text_eq(ext, "midi") || text_eq(ext, "kar") {
            Ok(MimeType::AudioMidi)
        } else if text_eq(ext, "mp3") {
            Ok(MimeType::AudioMpeg)
        } else if text_eq(ext, "ogg") {
            Ok(MimeType::AudioOgg)
        } else if text_eq(ext, "m4a") {
            Ok(MimeType::AudioM4a)
        } else if text_eq(ext, "ra") {
            Ok(MimeType::AudioRa)
        } else if text_eq(ext, "3gpp") || text_eq(ext, "3gp") {
            Ok(MimeType::Video3gpp)
        } else if text_eq(ext, "ts") {
            Ok(MimeType::VideoMp2t)
        } else if text_eq(ext, "mp4") {
            Ok(MimeType::VideoMp4)
        } else if text_eq(ext, "mpeg") || text_eq(ext, "mpg") {
            Ok(MimeType::VideoMpeg)
        } else if text_eq(ext, "mov") {
            Ok(MimeType::VideoMov)
        } else if text_eq(ext, "webm") {
            Ok(MimeType::VideoWebm)
        } else if text_eq(ext, "flv") {
            Ok(MimeType::VideoFlv)
        } else if text_eq(ext, "m4v") {
            Ok(MimeType::VideoM4v)
        } else if text_eq(ext, "mng") {
            Ok(MimeType::VideoMng)
        } else if text_eq(ext, "asx") || text_eq(ext, "asf") {
            Ok(MimeType::VideoAsf)
        } else if text_eq(ext, "wmv") {
            Ok(MimeType::VideoWmv)
        } else if text_eq(ext, "avi") {
            Ok(MimeType::VideoAvi)
        } else {
            Err(MimeTypeParseError)
        }
    }

    /// The content type of a file extension, with `application/octet-stream`
    /// for an unknown one.
    pub fn resolve(ext: &str) -> (r: MimeType)
        ensures
            r == resolve_spec(ext@),
    {
        match MimeType::from_str(ext) {
            Ok(m) => m,
            Err(_) => MimeType::ApplicationOctetStream,
        }
    }
}

} // verus!
