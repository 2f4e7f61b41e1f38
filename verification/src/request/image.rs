use vstd::prelude::*;
use vstd::string::StringExecFns;

verus! {

/// The image formats that a request can carry inline.
#[derive(Debug, Clone, Copy, PartialEq, Eq, Structural)]
pub enum ImageMime {
    Jpeg,
    Png,
    WebP,
    Heic,
    Heif,
}

/// The magic numbers by which an image format is recognised, over the first bytes of a file.
pub open spec fn detected_mime(b: Seq<u8>) -> Option<ImageMime> {
    if b.len() < 12 {
        None
    } else if b.take(3) == seq![0xFFu8, 0xD8u8, 0xFFu8] {
        Some(ImageMime::Jpeg)
    } else if b.take(8) == seq![0x89u8, 0x50u8, 0x4Eu8, 0x47u8, 0x0Du8, 0x0Au8, 0x1Au8, 0x0Au8] {
        Some(ImageMime::Png)
    } else if b.take(4) == seq![0x52u8, 0x49u8, 0x46u8, 0x46u8] && b.subrange(8, 12) == seq![0x57u8, 0x45u8, 0x42u8, 0x50u8] {
        Some(ImageMime::WebP)
    } else if b.subrange(4, 8) == seq![0x66u8, 0x74u8, 0x79u8, 0x70u8] {
        let brand = b.subrange(8, 12);
        if brand == seq![0x68u8, 0x65u8, 0x69u8, 0x63u8] || brand == seq![0x68u8, 0x65u8, 0x69u8, 0x78u8] {
            Some(ImageMime::Heic)
        } else if brand == seq![0x68u8, 0x65u8, 0x69u8, 0x66u8] || brand == seq![0x6Du8, 0x69u8, 0x66u8, 0x31u8]
            || brand == seq![0x6Du8, 0x73u8, 0x66u8, 0x31u8] {
            Some(ImageMime::Heif)
        } else {
            None
        }
    } else {
        None
    }
}

/// The signature of each format, byte by byte: JPEG starts `FF D8 FF` (whatever marker
/// follows: JFIF, EXIF or another); PNG starts with its eight-byte signature; WebP is a RIFF
/// file whose form type (bytes 8 to 11) is `WEBP`; HEIC and HEIF are ISO media files (`ftyp`
/// at bytes 4 to 7) with a `heic`/`heix` or a `heif`/`mif1`/`msf1` brand at bytes 8 to 11.
pub open spec fn has_signature(b: Seq<u8>, m: ImageMime) -> bool {
    match m {
        ImageMime::Jpeg => b[0] == 0xFF && b[1] == 0xD8 && b[2] == 0xFF,
        ImageMime::Png => b[0] == 0x89 && b[1] == 0x50 && b[2] == 0x4E && b[3] == 0x47 && b[4] == 0x0D
            && b[5] == 0x0A && b[6] == 0x1A && b[7] == 0x0A,
        ImageMime::WebP => b[0] == 0x52 && b[1] == 0x49 && b[2] == 0x46 && b[3] == 0x46 && b[8] == 0x57
            && b[9] == 0x45 && b[10] == 0x42 && b[11] == 0x50,
        ImageMime::Heic => b[4] == 0x66 && b[5] == 0x74 && b[6] == 0x79 && b[7] == 0x70 && b[8] == 0x68
            && b[9] == 0x65 && b[10] == 0x69 && (b[11] == 0x63 || b[11] == 0x78),
        ImageMime::Heif => b[4] == 0x66 && b[5] == 0x74 && b[6] == 0x79 && b[7] == 0x70 && (
        (b[8] == 0x68 && b[9] == 0x65 && b[10] == 0x69 && b[11] == 0x66) || (b[8] == 0x6D && b[9]
            == 0x69 && b[10] == 0x66 && b[11] == 0x31) || (b[8] == 0x6D && b[9] == 0x73 && b[10]
            == 0x66 && b[11] == 0x31)),
    }
}

/// Detection reads the signatures: an input of at least 12 bytes that carries the signature
/// of a format is detected as that format (JPEG first: an input that starts `FF D8 FF` is a
/// JPEG whatever else it holds), and whatever is detected carries its signature. Inputs
/// shorter than 12 bytes are detected as nothing.
pub proof fn lemma_detection_follows_signatures(b: Seq<u8>, m: ImageMime)
    ensures
        b.len() >= 12 && has_signature(b, m) && (m == ImageMime::Jpeg || !has_signature(
            b,
            ImageMime::Jpeg,
        )) ==> detected_mime(b) == Some(m),
        detected_mime(b) == Some(m) ==> b.len() >= 12 && has_signature(b, m),
        b.len() < 12 ==> detected_mime(b) is None,
{
    if b.len() >= 12 {
        assert(b.take(3) == seq![b[0], b[1], b[2]]);
        assert(b.take(4) == seq![b[0], b[1], b[2], b[3]]);
        assert(b.take(8) == seq![b[0], b[1], b[2], b[3], b[4], b[5], b[6], b[7]]);
        assert(b.subrange(4, 8) == seq![b[4], b[5], b[6], b[7]]);
        assert(b.subrange(8, 12) == seq![b[8], b[9], b[10], b[11]]);
        let s3 = seq![0xFFu8, 0xD8u8, 0xFFu8];
        assert(b.take(3) == s3 <==> (b[0] == 0xFF && b[1] == 0xD8 && b[2] == 0xFF)) by {
            if b.take(3) == s3 {
                assert(b.take(3)[0] == s3[0] && b.take(3)[1] == s3[1] && b.take(3)[2] == s3[2]);
            }
        }
        let s8 = seq![0x89u8, 0x50u8, 0x4Eu8, 0x47u8, 0x0Du8, 0x0Au8, 0x1Au8, 0x0Au8];
        assert(b.take(8) == s8 <==> (b[0] == 0x89 && b[1] == 0x50 && b[2] == 0x4E && b[3] == 0x47
            && b[4] == 0x0D && b[5] == 0x0A && b[6] == 0x1A && b[7] == 0x0A)) by {
            if b.take(8) == s8 {
                assert(forall|i: int| 0 <= i < 8 ==> b.take(8)[i] == #[trigger] s8[i]);
                assert(s8[0] == 0x89 && s8[1] == 0x50 && s8[2] == 0x4E && s8[3] == 0x47);
                assert(s8[4] == 0x0D && s8[5] == 0x0A && s8[6] == 0x1A && s8[7] == 0x0A);
            }
        }
        lemma_quad(b.take(4), 0x52, 0x49, 0x46, 0x46);
        lemma_quad(b.subrange(4, 8), 0x66, 0x74, 0x79, 0x70);
        lemma_quad(b.subrange(8, 12), 0x57, 0x45, 0x42, 0x50);
        lemma_quad(b.subrange(8, 12), 0x68, 0x65, 0x69, 0x63);
        lemma_quad(b.subrange(8, 12), 0x68, 0x65, 0x69, 0x78);
        lemma_quad(b.subrange(8, 12), 0x68, 0x65, 0x69, 0x66);
        lemma_quad(b.subrange(8, 12), 0x6D, 0x69, 0x66, 0x31);
        lemma_quad(b.subrange(8, 12), 0x6D, 0x73, 0x66, 0x31);
    }
}

/// Four bytes equal a given quadruple exactly when each of them does.
proof fn lemma_quad(s: Seq<u8>, c0: u8, c1: u8, c2: u8, c3: u8)
    requires
        s.len() == 4,
    ensures
        s == seq![c0, c1, c2, c3] <==> (s[0] == c0 && s[1] == c1 && s[2] == c2 && s[3] == c3),
{
    let q = seq![c0, c1, c2, c3];
    if s[0] == c0 && s[1] == c1 && s[2] == c2 && s[3] == c3 {
        assert(s =~= q);
    }
    if s == q {
        assert(s[0] == q[0] && s[1] == q[1] && s[2] == q[2] && s[3] == q[3]);
    }
}

/// Whether `b[at..at + 4]` holds the four bytes `c0 c1 c2 c3`.
fn quad_at(b: &[u8], at: usize, c0: u8, c1: u8, c2: u8, c3: u8) -> (r: bool)
    requires
        at + 4 <= b@.len(),
    ensures
        r == (b@.subrange(at as int, at + 4) == seq![c0, c1, c2, c3]),
{
    let r = b[at] == c0 && b[at + 1] == c1 && b[at + 2] == c2 && b[at + 3] == c3;
    proof {
        let s = b@.subrange(at as int, at + 4);
        if r {
            assert(s =~= seq![c0, c1, c2, c3]);
        } else {
            if s == seq![c0, c1, c2, c3] {
                assert(s[0] == c0 && s[1] == c1 && s[2] == c2 && s[3] == c3);
            }
        }
    }
    r
}

impl ImageMime {
    /// The MIME type name of the format.
    pub fn name(&self) -> (r: &'static str)
        ensures
            r@ == self.spec_name(),
    {
        match self {
            ImageMime::Jpeg => "image/jpeg",
            ImageMime::Png => "image/png",
            ImageMime::WebP => "image/webp",
            ImageMime::Heic => "image/heic",
            ImageMime::Heif => "image/heif",
        }
    }

    pub open spec fn spec_name(&self) -> Seq<char> {
        match self {
            ImageMime::Jpeg => "image/jpeg"@,
            ImageMime::Png => "image/png"@,
            ImageMime::WebP => "image/webp"@,
            ImageMime::Heic => "image/heic"@,
            ImageMime::Heif => "image/heif"@,
        }
    }

    /// Try to automatically detect what kind of image it is
    pub fn try_detect_image_mime(bytes: &[u8]) -> (r: Option<ImageMime>)
        ensures
            r == detected_mime(bytes@),
    {
        if bytes.len() < 12 {
            return None;
        }
        let b = bytes;
        // JPEG
        if b[0] == 0xFF && b[1] == 0xD8 && b[2] == 0xFF {
            assert(b@.take(3) =~= seq![0xFFu8, 0xD8u8, 0xFFu8]);
            return Some(ImageMime::Jpeg);
        }
        assert(b@.take(3) != seq![0xFFu8, 0xD8u8, 0xFFu8]) by {
            if b@.take(3) == seq![0xFFu8, 0xD8u8, 0xFFu8] {
                assert(b@.take(3)[0] == b@[0] && b@.take(3)[1] == b@[1] && b@.take(3)[2] == b@[2]);
            }
        }
        // PNG
        let png = quad_at(b, 0, 0x89, 0x50, 0x4E, 0x47) && quad_at(b, 4, 0x0D, 0x0A, 0x1A, 0x0A);
        assert(png == (b@.take(8) == seq![0x89u8, 0x50u8, 0x4Eu8, 0x47u8, 0x0Du8, 0x0Au8, 0x1Au8, 0x0Au8])) by {
            let t = b@.take(8);
            assert(t.subrange(0, 4) =~= b@.subrange(0, 4));
            assert(t.subrange(4, 8) =~= b@.subrange(4, 8));
            if t == seq![0x89u8, 0x50u8, 0x4Eu8, 0x47u8, 0x0Du8, 0x0Au8, 0x1Au8, 0x0Au8] {
                assert(b@.subrange(0, 4) =~= seq![0x89u8, 0x50u8, 0x4Eu8, 0x47u8]);
                assert(b@.subrange(4, 8) =~= seq![0x0Du8, 0x0Au8, 0x1Au8, 0x0Au8]);
            }
            if png {
                assert(t =~= seq![0x89u8, 0x50u8, 0x4Eu8, 0x47u8, 0x0Du8, 0x0Au8, 0x1Au8, 0x0Au8]);
            }
        }
        if png {
            return Some(ImageMime::Png);
        }
        // WebP: RIFF????WEBP
        let riff = quad_at(b, 0, 0x52u8, 0x49u8, 0x46u8, 0x46u8);
        assert(b@.take(4) =~= b@.subrange(0, 4));
        if riff && quad_at(b, 8, 0x57u8, 0x45u8, 0x42u8, 0x50u8) {
            return Some(ImageMime::WebP);
        }
        // HEIC / HEIF (ISO Base Media)
        if quad_at(b, 4, 0x66u8, 0x74u8, 0x79u8, 0x70u8) {
            if quad_at(b, 8, 0x68u8, 0x65u8, 0x69u8, 0x63u8) || quad_at(b, 8, 0x68u8, 0x65u8, 0x69u8, 0x78u8) {
                return Some(ImageMime::Heic);
            }
            if quad_at(b, 8, 0x68u8, 0x65u8, 0x69u8, 0x66u8) || quad_at(b, 8, 0x6Du8, 0x69u8, 0x66u8, 0x31u8)
                || quad_at(b, 8, 0x6Du8, 0x73u8, 0x66u8, 0x31u8) {
                return Some(ImageMime::Heif);
            }
        }
        None
    }
}

/// An image and its format.
pub struct Image {
    mime: ImageMime,
    data: Vec<u8>,
}

impl Image {
    /// The format of the image.
    pub closed spec fn spec_mime(&self) -> ImageMime {
        self.mime
    }

    /// The bytes of the image.
    pub closed spec fn spec_data(&self) -> Seq<u8> {
        self.data@
    }

    ///Returns none if the image mime cant be established
    pub fn new(data: Vec<u8>) -> (r: Result<Self, Vec<u8>>)
        ensures
            detected_mime(data@) matches Some(m) ==> r matches Ok(img) && img.spec_mime() == m
                && img.spec_data() == data@,
            detected_mime(data@) is None ==> r == Err::<Self, Vec<u8>>(data),
    {
        if let Some(mime) = ImageMime::try_detect_image_mime(data.as_slice()) {
            Ok(Self { mime, data })
        } else {
            Err(data)
        }
    }

    /// An image of a format the caller knows.
    pub fn new_known(data: Vec<u8>, mime: ImageMime) -> (r: Self)
        ensures
            r.spec_mime() == mime,
            r.spec_data() == data@,
    {
        Image { mime, data }
    }
}

impl From<Image> for crate::gemini_types::Blob {
    /// The image as inline media with its MIME type.
    fn from(value: Image) -> (r: Self)
        ensures
            r.mime_type@ == value.spec_mime().spec_name(),
            r.data@ == value.spec_data(),
    {
        crate::gemini_types::Blob { mime_type: String::from_str(value.mime.name()), data: value.data }
    }
}

impl vstd::std_specs::convert::FromSpecImpl<Image> for crate::gemini_types::Blob {
    /// The conversion is stated on `from` itself.
    open spec fn obeys_from_spec() -> bool {
        false
    }

    open spec fn from_spec(v: Image) -> crate::gemini_types::Blob {
        arbitrary()
    }
}

impl From<Image> for crate::vertex_types::Blob {
    /// The image as inline media with its MIME type.
    fn from(value: Image) -> (r: Self)
        ensures
            r.mime_type@ == value.spec_mime().spec_name(),
            r.data@ == value.spec_data(),
    {
        crate::vertex_types::Blob { mime_type: String::from_str(value.mime.name()), data: value.data }
    }
}

impl vstd::std_specs::convert::FromSpecImpl<Image> for crate::vertex_types::Blob {
    /// The conversion is stated on `from` itself.
    open spec fn obeys_from_spec() -> bool {
        false
    }

    open spec fn from_spec(v: Image) -> crate::vertex_types::Blob {
        arbitrary()
    }
}

} // verus!
