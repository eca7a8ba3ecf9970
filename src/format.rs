//! Content-based image format sniffing.
use vstd::prelude::*;

verus! {

/// The image formats that sniffing recognizes.
#[derive(Clone, Copy, Debug, PartialEq, Eq, Structural)]
pub enum ImageFormat {
    Jpeg,
    Png,
    Gif,
    Webp,
}

/// Bytes `FF D8 FF` at the start.
pub open spec fn is_jpeg_signature(s: Seq<u8>) -> bool {
    s.len() >= 3 && s[0] == 0xFFu8 && s[1] == 0xD8u8 && s[2] == 0xFFu8
}

/// The eight-byte PNG signature `89 50 4E 47 0D 0A 1A 0A` at the start.
pub open spec fn is_png_signature(s: Seq<u8>) -> bool {
    s.len() >= 8 && s[0] == 0x89u8 && s[1] == 0x50u8 && s[2] == 0x4Eu8 && s[3] == 0x47u8
        && s[4] == 0x0Du8 && s[5] == 0x0Au8 && s[6] == 0x1Au8 && s[7] == 0x0Au8
}

/// ASCII `GIF87a` or `GIF89a` at the start.
pub open spec fn is_gif_signature(s: Seq<u8>) -> bool {
    s.len() >= 6 && s[0] == 0x47u8 && s[1] == 0x49u8 && s[2] == 0x46u8 && s[3] == 0x38u8
        && (s[4] == 0x37u8 || s[4] == 0x39u8) && s[5] == 0x61u8
}

/// ASCII `RIFF` in bytes 0 to 3 and `WEBP` in bytes 8 to 11.
pub open spec fn is_webp_signature(s: Seq<u8>) -> bool {
    s.len() >= 12 && s[0] == 0x52u8 && s[1] == 0x49u8 && s[2] == 0x46u8 && s[3] == 0x46u8
        && s[8] == 0x57u8 && s[9] == 0x45u8 && s[10] == 0x42u8 && s[11] == 0x50u8
}

/// The format that the first twelve bytes of `s` show, if any.
pub open spec fn detected_format(s: Seq<u8>) -> Option<ImageFormat> {
    if s.len() < 12 {
        None
    } else if is_jpeg_signature(s) {
        Some(ImageFormat::Jpeg)
    } else if is_png_signature(s) {
        Some(ImageFormat::Png)
    } else if is_gif_signature(s) {
        Some(ImageFormat::Gif)
    } else if is_webp_signature(s) {
        Some(ImageFormat::Webp)
    } else {
        None
    }
}

impl ImageFormat {
    /// The lower-case name of the format, as used in MIME types.
    pub open spec fn spec_name(self) -> Seq<char> {
        match self {
            ImageFormat::Jpeg => seq!['j', 'p', 'e', 'g'],
            ImageFormat::Png => seq!['p', 'n', 'g'],
            ImageFormat::Gif => seq!['g', 'i', 'f'],
            ImageFormat::Webp => seq!['w', 'e', 'b', 'p'],
        }
    }

    pub fn name(&self) -> (r: &'static str)
        ensures
            r@ == self.spec_name(),
    {
        match self {
            ImageFormat::Jpeg => {
                proof {
                    reveal_strlit("jpeg");
                }
                "jpeg"
            },
            ImageFormat::Png => {
                proof {
                    reveal_strlit("png");
                }
                "png"
            },
            ImageFormat::Gif => {
                proof {
                    reveal_strlit("gif");
                }
                "gif"
            },
            ImageFormat::Webp => {
                proof {
                    reveal_strlit("webp");
                }
                "webp"
            },
        }
    }
}

/// Classifies a byte buffer by its leading signature.
pub fn detect(data: &[u8]) -> (r: Option<ImageFormat>)
    ensures
        r == detected_format(data@),
{
    if data.len() < 12 {
        return None;
    }
    if data[0] == 0xFF && data[1] == 0xD8 && data[2] == 0xFF {
        return Some(ImageFormat::Jpeg);
    }
    if data[0] == 0x89 && data[1] == 0x50 && data[2] == 0x4E && data[3] == 0x47 && data[4] == 0x0D
        && data[5] == 0x0A && data[6] == 0x1A && data[7] == 0x0A {
        return Some(ImageFormat::Png);
    }
    if data[0] == 0x47 && data[1] == 0x49 && data[2] == 0x46 && data[3] == 0x38 && (data[4] == 0x37
        || data[4] == 0x39) && data[5] == 0x61 {
        return Some(ImageFormat::Gif);
    }
    if data[0] == 0x52 && data[1] == 0x49 && data[2] == 0x46 && data[3] == 0x46 && data[8] == 0x57
        && data[9] == 0x45 && data[10] == 0x42 && data[11] == 0x50 {
        return Some(ImageFormat::Webp);
    }
    None
}

/// Classifies a byte buffer and gives the format's lower-case name.
pub fn detect_image_format(data: &[u8]) -> (r: Option<&'static str>)
    ensures
        r.is_some() == detected_format(data@).is_some(),
        r.is_some() ==> r.unwrap()@ == detected_format(data@).unwrap().spec_name(),
{
    match detect(data) {
        Some(f) => Some(f.name()),
        None => None,
    }
}

/// A buffer shorter than twelve bytes is never classified.
pub proof fn lemma_short_buffer_undetected(s: Seq<u8>)
    requires
        s.len() < 12,
    ensures
        detected_format(s) is None,
{
}

/// Among buffers of at least twelve bytes, each of the four signatures gives
/// its own format, and a buffer that shows none of them gives none.
pub proof fn lemma_signatures_detected(s: Seq<u8>)
    requires
        s.len() >= 12,
    ensures
        is_jpeg_signature(s) ==> detected_format(s) == Some(ImageFormat::Jpeg),
        is_png_signature(s) ==> detected_format(s) == Some(ImageFormat::Png),
        is_gif_signature(s) ==> detected_format(s) == Some(ImageFormat::Gif),
        is_webp_signature(s) ==> detected_format(s) == Some(ImageFormat::Webp),
        !is_jpeg_signature(s) && !is_png_signature(s) && !is_gif_signature(s)
            && !is_webp_signature(s) ==> detected_format(s) is None,
{
}

} // verus!
