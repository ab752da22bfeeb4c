//! Window icons.

use crate::error::Error;
use crate::text::{decimal, decimal_string, str_eq};
use vstd::prelude::*;
use vstd::string::*;

verus! {

/// An icon as the application names it: a file to read, or the bytes of one.
#[derive(Clone, Debug, PartialEq, Eq)]
pub enum Icon {
    /// Icon from file path.
    File(String),
    /// Icon from raw bytes.
    Raw(Vec<u8>),
}

/// Why pixel data was refused as an icon.
#[derive(Clone, Copy, Debug, PartialEq, Eq, Structural)]
pub enum BadIcon {
    /// The pixel data is not a whole number of four-byte pixels.
    ByteCountNotDivisibleBy4 { byte_count: usize },
    /// The pixel data does not hold `width * height` pixels.
    DimensionsVsPixelCount { width: u32, height: u32, pixel_count: usize },
}

/// An icon in the form the native toolkit takes: `width * height` pixels of
/// four bytes each (red, green, blue, alpha), row by row.
#[derive(Clone, Debug, PartialEq, Eq)]
pub struct WindowIcon {
    rgba: Vec<u8>,
    width: u32,
    height: u32,
}

/// Whether `byte_count` bytes are exactly `width * height` four-byte pixels.
pub open spec fn rgba_fits(byte_count: nat, width: u32, height: u32) -> bool {
    byte_count % 4 == 0 && byte_count / 4 == (width as nat) * (height as nat)
}

impl WindowIcon {
    /// The pixel data.
    pub closed spec fn rgba_spec(&self) -> Seq<u8> {
        self.rgba@
    }

    /// The width in pixels.
    pub closed spec fn width_spec(&self) -> u32 {
        self.width
    }

    /// The height in pixels.
    pub closed spec fn height_spec(&self) -> u32 {
        self.height
    }

    /// The pixel data fills the icon's area exactly.
    pub open spec fn wf(&self) -> bool {
        rgba_fits(self.rgba_spec().len(), self.width_spec(), self.height_spec())
    }

    /// Makes an icon of pixel data.
    ///
    /// The number of bytes must be divisible by four and the number of
    /// pixels must be `width * height`; otherwise the data is refused, and
    /// the error says which of the two failed (the byte count is tested
    /// first).
    pub fn from_rgba(rgba: Vec<u8>, width: u32, height: u32) -> (r: Result<WindowIcon, BadIcon>)
        ensures
            match r {
                Ok(icon) => icon.wf() && icon.rgba_spec() == rgba@ && icon.width_spec() == width
                    && icon.height_spec() == height,
                Err(BadIcon::ByteCountNotDivisibleBy4 { byte_count }) => byte_count == rgba@.len()
                    && rgba@.len() % 4 != 0,
                Err(BadIcon::DimensionsVsPixelCount { width: w, height: h, pixel_count }) => w
                    == width && h == height && rgba@.len() % 4 == 0 && pixel_count == rgba@.len()
                    / 4 && pixel_count != (width as nat) * (height as nat),
            },
            r is Ok <==> rgba_fits(rgba@.len(), width, height),
    {
        let byte_count: usize = rgba.len();
        if byte_count % 4 != 0 {
            return Err(BadIcon::ByteCountNotDivisibleBy4 { byte_count });
        }
        let pixel_count: usize = byte_count / 4;
        assert((width as u64) * (height as u64) <= 0xffff_ffff * 0xffff_ffff) by (nonlinear_arith)
            requires
                width <= 0xffff_ffff,
                height <= 0xffff_ffff,
        ;
        let area: u64 = (width as u64) * (height as u64);
        if pixel_count as u64 != area {
            return Err(BadIcon::DimensionsVsPixelCount { width, height, pixel_count });
        }
        Ok(WindowIcon { rgba, width, height })
    }

    /// The pixel data.
    pub fn rgba(&self) -> (rgba: &Vec<u8>)
        ensures
            rgba@ == self.rgba_spec(),
    {
        &self.rgba
    }

    /// The width in pixels.
    pub fn width(&self) -> (width: u32)
        ensures
            width == self.width_spec(),
    {
        self.width
    }

    /// The height in pixels.
    pub fn height(&self) -> (height: u32)
        ensures
            height == self.height_spec(),
    {
        self.height
    }
}

/// Why pixel data was refused, in words.
pub open spec fn bad_icon_text(e: BadIcon) -> Seq<char> {
    match e {
        BadIcon::ByteCountNotDivisibleBy4 { byte_count } => "The length of the `rgba` argument ("@
            + decimal(byte_count as nat)
            + ") isn't divisible by 4, making it impossible to interpret as 32bpp RGBA pixels."@,
        BadIcon::DimensionsVsPixelCount { width, height, pixel_count } =>
            "The specified dimensions ("@ + decimal(width as nat) + "x"@ + decimal(height as nat)
            + ") don't match the number of pixels supplied by the `rgba` argument ("@ + decimal(
            pixel_count as nat,
        ) + "). For those dimensions, the expected pixel count is "@ + decimal(
            (width as nat) * (height as nat),
        ) + "."@,
    }
}

impl BadIcon {
    /// The refusal in words.
    pub fn message(&self) -> (text: String)
        ensures
            text@ == bad_icon_text(*self),
    {
        match *self {
            BadIcon::ByteCountNotDivisibleBy4 { byte_count } => {
                let mut text = String::from_str("The length of the `rgba` argument (");
                text.append(decimal_string(byte_count as u64).as_str());
                text.append(
                    ") isn't divisible by 4, making it impossible to interpret as 32bpp RGBA pixels.",
                );
                text
            },
            BadIcon::DimensionsVsPixelCount { width, height, pixel_count } => {
                assert((width as u64) * (height as u64) <= 0xffff_ffff * 0xffff_ffff)
                    by (nonlinear_arith)
                    requires
                        width <= 0xffff_ffff,
                        height <= 0xffff_ffff,
                ;
                let area: u64 = (width as u64) * (height as u64);
                let mut text = String::from_str("The specified dimensions (");
                text.append(decimal_string(width as u64).as_str());
                text.append("x");
                text.append(decimal_string(height as u64).as_str());
                text.append(
                    ") don't match the number of pixels supplied by the `rgba` argument (",
                );
                text.append(decimal_string(pixel_count as u64).as_str());
                text.append("). For those dimensions, the expected pixel count is ");
                text.append(decimal_string(area).as_str());
                text.append(".");
                text
            },
        }
    }
}

/// The first image of an icon file, decoded.
#[derive(Clone, Debug, PartialEq, Eq)]
pub struct IcoImage {
    /// The pixels, four bytes each.
    pub rgba: Vec<u8>,
    /// The width that the file declares for the image.
    pub width: u32,
    /// The height that the file declares for the image.
    pub height: u32,
}

/// The extension of the file type that `infer` takes bytes for, if it
/// knows their type.
pub uninterp spec fn inferred_extension(bytes: Seq<u8>) -> Option<Seq<char>>;

/// What `ico` makes of the bytes of an icon file: the reason why it cannot
/// read the file or decode its first image, or that image with the size
/// that the file declares for it, or `None` for a file without images.
pub uninterp spec fn ico_first_image(bytes: Seq<u8>) -> Result<Option<(Seq<u8>, u32, u32)>, Seq<char>>;

/// Whether the bytes begin as an archive or a compound file does: the
/// forms in which office documents are stored. To tell such documents apart
/// `infer` follows lengths that it reads from the bytes, so these bytes are
/// never handed to it; none of them is an image.
pub open spec fn is_document_like(bytes: Seq<u8>) -> bool {
    ||| bytes.len() >= 4 && bytes[0] == 0x50 && bytes[1] == 0x4b && bytes[2] == 0x03 && bytes[3]
        == 0x04
    ||| bytes.len() >= 8 && bytes[0] == 0xd0 && bytes[1] == 0xcf && bytes[2] == 0x11 && bytes[3]
        == 0xe0 && bytes[4] == 0xa1 && bytes[5] == 0xb1 && bytes[6] == 0x1a && bytes[7] == 0xe1
}

/// Whether the bytes are the header of a raw image of a camera, cut off
/// before the version that `infer` looks for behind it.
pub open spec fn is_cut_raw_image(bytes: Seq<u8>) -> bool {
    &&& bytes.len() == 10
    &&& (bytes[0] == 0x49 && bytes[1] == 0x49 && bytes[2] == 0x2a && bytes[3] == 0x00) || (bytes[0]
        == 0x4d && bytes[1] == 0x4d && bytes[2] == 0x00 && bytes[3] == 0x2a)
    &&& bytes[8] == 0x43
    &&& bytes[9] == 0x52
}

/// Whether bytes are known at sight to be no icon, and are handed to no
/// matcher: an office document, or the cut header of a raw image.
pub open spec fn is_no_icon_at_sight(bytes: Seq<u8>) -> bool {
    is_document_like(bytes) || is_cut_raw_image(bytes)
}

/// The number that four bytes from `at` on spell, lowest byte first.
pub open spec fn le_u32(bytes: Seq<u8>, at: int) -> nat
    recommends
        0 <= at,
        at + 4 <= bytes.len(),
{
    (bytes[at] as nat) + 0x100 * (bytes[at + 1] as nat) + 0x1_0000 * (bytes[at + 2] as nat)
        + 0x100_0000 * (bytes[at + 3] as nat)
}

/// Whether the first image of an icon file is stored as PNG: the directory
/// names at least one image, and the data of the first one lies within the
/// file and begins as a PNG file does. Such an image is decoded by the
/// caller of the library, not by the library.
pub open spec fn first_image_is_png(bytes: Seq<u8>) -> bool {
    let size = le_u32(bytes, 14);
    let offset = le_u32(bytes, 18) as int;
    &&& bytes.len() >= 22
    &&& (bytes[4] != 0 || bytes[5] != 0)
    &&& size >= 4
    &&& offset + size <= bytes.len()
    &&& bytes[offset] == 0x89
    &&& bytes[offset + 1] == 0x50
    &&& bytes[offset + 2] == 0x4e
    &&& bytes[offset + 3] == 0x47
}

/// Whether the bytes begin as an archive or a compound file does.
pub fn document_like(bytes: &[u8]) -> (b: bool)
    ensures
        b == is_document_like(bytes@),
{
    let zip = bytes.len() >= 4 && bytes[0] == 0x50 && bytes[1] == 0x4b && bytes[2] == 0x03
        && bytes[3] == 0x04;
    let compound = bytes.len() >= 8 && bytes[0] == 0xd0 && bytes[1] == 0xcf && bytes[2] == 0x11
        && bytes[3] == 0xe0 && bytes[4] == 0xa1 && bytes[5] == 0xb1 && bytes[6] == 0x1a
        && bytes[7] == 0xe1;
    zip || compound
}

/// Whether the bytes are the header of a raw image of a camera, cut off
/// before its version.
pub fn cut_raw_image(bytes: &[u8]) -> (b: bool)
    ensures
        b == is_cut_raw_image(bytes@),
{
    bytes.len() == 10 && ((bytes[0] == 0x49 && bytes[1] == 0x49 && bytes[2] == 0x2a && bytes[3]
        == 0x00) || (bytes[0] == 0x4d && bytes[1] == 0x4d && bytes[2] == 0x00 && bytes[3] == 0x2a))
        && bytes[8] == 0x43 && bytes[9] == 0x52
}

/// The number that four bytes from `at` on spell, lowest byte first.
fn read_le_u32(bytes: &[u8], at: usize) -> (n: u64)
    requires
        at + 4 <= bytes@.len(),
    ensures
        n == le_u32(bytes@, at as int),
        n <= 0xffff_ffff,
{
    (bytes[at] as u64) + 0x100 * (bytes[at + 1] as u64) + 0x1_0000 * (bytes[at + 2] as u64)
        + 0x100_0000 * (bytes[at + 3] as u64)
}

/// Whether the first image of an icon file is stored as PNG.
pub fn png_encoded(bytes: &[u8]) -> (b: bool)
    ensures
        b == first_image_is_png(bytes@),
{
    if bytes.len() < 22 || (bytes[4] == 0 && bytes[5] == 0) {
        return false;
    }
    let size: u64 = read_le_u32(bytes, 14);
    let offset: u64 = read_le_u32(bytes, 18);
    if size < 4 || offset + size > bytes.len() as u64 {
        return false;
    }
    let at: usize = offset as usize;
    bytes[at] == 0x89 && bytes[at + 1] == 0x50 && bytes[at + 2] == 0x4e && bytes[at + 3] == 0x47
}

/// Tells the type of a file from its first bytes: `infer::get`, and of
/// the type found `infer::Type::extension`.
///
/// Trusted: the outcome is a function of the bytes alone, named
/// [`inferred_extension`]. Bytes that begin as an office document does are
/// left out: on those alone `infer` computes with lengths read from the
/// bytes, or hands them to a reader of compound files. So is the cut
/// header of a raw image, behind which it reads one byte more.
#[verifier::external_body]
pub(crate) fn infer_extension(bytes: &[u8]) -> (extension: Option<&'static str>)
    requires
        !is_no_icon_at_sight(bytes@),
    ensures
        match extension {
            Some(e) => inferred_extension(bytes@) == Some(e@),
            None => inferred_extension(bytes@) is None,
        },
{
    infer::get(bytes).map(|kind| kind.extension())
}

/// Decodes the first image of an icon file: `ico::IconDir::read`, and of
/// the first of its `entries` `ico::IconDirEntry::decode`, the pixels of
/// the decoded image and the `width` and `height` of the entry.
///
/// Trusted: the outcome is a function of the bytes alone, named
/// [`ico_first_image`]; an error of the crate is passed on in its own
/// words. A file whose first image is stored as PNG is left out: `ico`
/// hands such an image to a PNG decoder that does not return on every
/// input, where its own decoder of bitmaps checks all it reads.
#[verifier::external_body]
pub(crate) fn decode_ico(bytes: &[u8]) -> (r: Result<Option<IcoImage>, String>)
    requires
        !first_image_is_png(bytes@),
    ensures
        match r {
            Ok(Some(image)) => ico_first_image(bytes@) == Ok::<
                Option<(Seq<u8>, u32, u32)>,
                Seq<char>,
            >(Some((image.rgba@, image.width, image.height))),
            Ok(None) => ico_first_image(bytes@) == Ok::<Option<(Seq<u8>, u32, u32)>, Seq<char>>(
                None,
            ),
            Err(cause) => ico_first_image(bytes@) == Err::<
                Option<(Seq<u8>, u32, u32)>,
                Seq<char>,
            >(cause@),
        },
{
    let icon_dir = ico::IconDir::read(std::io::Cursor::new(bytes)).map_err(|e| e.to_string())?;
    match icon_dir.entries().first() {
        Some(entry) => {
            let image = entry.decode().map_err(|e| e.to_string())?;
            let rgba = image.rgba_data().to_vec();
            Ok(Some(IcoImage { rgba, width: entry.width(), height: entry.height() }))
        },
        None => Ok(None),
    }
}

/// A window icon made from what the application names as its icon.
#[derive(Clone, Debug, PartialEq, Eq)]
pub struct WryIcon(pub WindowIcon);

/// The bytes of an icon: those that the application gave, or those of the
/// file that it named, or why that file could not be read.
pub open spec fn icon_bytes_read(icon: Icon, file: Option<Result<Vec<u8>, String>>) -> Result<
    Seq<u8>,
    Seq<char>,
> {
    match icon {
        Icon::Raw(raw) => Ok(raw@),
        Icon::File(_) => match file {
            Some(Ok(bytes)) => Ok(bytes@),
            Some(Err(cause)) => Err(cause@),
            None => Ok(Seq::empty()),
        },
    }
}

/// The bytes of an icon: those that the application gave, or those of the
/// file that it named. `file` is the outcome of reading that file.
pub fn icon_bytes(icon: Icon, file: Option<Result<Vec<u8>, String>>) -> (r: Result<Vec<u8>, Error>)
    requires
        icon is File ==> file is Some,
    ensures
        match icon {
            Icon::Raw(raw) => r == Ok::<Vec<u8>, Error>(raw),
            Icon::File(_) => match file->0 {
                Ok(bytes) => r == Ok::<Vec<u8>, Error>(bytes),
                Err(cause) => r == Err::<Vec<u8>, Error>(Error::InvalidIcon(cause)),
            },
        },
{
    match icon {
        Icon::Raw(raw) => Ok(raw),
        Icon::File(_) => match file {
            Some(Ok(bytes)) => Ok(bytes),
            Some(Err(cause)) => Err(Error::InvalidIcon(cause)),
            None => Ok(Vec::new()),
        },
    }
}

/// Why bytes are refused as an icon before any image is decoded, if they
/// are: they are no icon at sight, their type is unknown, or their type is
/// none that the platform decodes (icon files are decoded on Windows
/// alone).
pub open spec fn icon_refusal(image_bytes: Seq<u8>, windows: bool) -> Option<Seq<char>> {
    if is_no_icon_at_sight(image_bytes) {
        Some("image type not supported"@)
    } else {
        match inferred_extension(image_bytes) {
            None => Some("could not determine icon extension"@),
            Some(extension) => if !(windows && extension == "ico"@) {
                Some(
                    "image `"@ + extension
                        + "` extension not supported; please file a Tauri feature request"@,
                )
            } else {
                None
            },
        }
    }
}

/// Whether `r` is the text `cause` as an invalid icon.
pub open spec fn is_invalid_icon(r: Result<WryIcon, Error>, cause: Seq<char>) -> bool {
    r matches Err(Error::InvalidIcon(text)) && text@ == cause
}

/// What decoding the first image of an icon file came to. A bitmap is
/// decoded by the library, through `ico`. An image that is stored as PNG is
/// decoded by the caller, who hands over what came of it as
/// `stored_as_png`: the decoder of such images does not return on every
/// input, and only the caller can say what is to happen then.
pub open spec fn first_image(
    image_bytes: Seq<u8>,
    stored_as_png: Option<Result<Option<IcoImage>, String>>,
) -> Result<Option<(Seq<u8>, u32, u32)>, Seq<char>> {
    if first_image_is_png(image_bytes) {
        match stored_as_png {
            Some(Ok(Some(image))) => Ok(Some((image.rgba@, image.width, image.height))),
            Some(Ok(None)) => Ok(None),
            Some(Err(cause)) => Err(cause@),
            None => Ok(None),
        }
    } else {
        ico_first_image(image_bytes)
    }
}

/// Whether `r` is what is made of the bytes of an icon: the first image of
/// the icon file as a window icon, or as an invalid icon the reason why
/// there is none. The bytes may be refused at sight (see [`icon_refusal`]),
/// the file may be unreadable or its first image undecodable (in the words
/// of the decoder), it may hold no image, or the decoded pixels may not
/// fill the size that the file declares.
pub open spec fn icon_made(
    image_bytes: Seq<u8>,
    windows: bool,
    stored_as_png: Option<Result<Option<IcoImage>, String>>,
    r: Result<WryIcon, Error>,
) -> bool {
    match icon_refusal(image_bytes, windows) {
        Some(cause) => is_invalid_icon(r, cause),
        None => match first_image(image_bytes, stored_as_png) {
            Ok(Some((rgba, width, height))) => icon_of_image(rgba, width, height, r),
            Ok(None) => is_invalid_icon(r, "icon file holds no image"@),
            Err(cause) => is_invalid_icon(r, cause),
        },
    }
}

/// Whether a window icon can be made of the bytes.
pub open spec fn is_valid_icon(
    image_bytes: Seq<u8>,
    windows: bool,
    stored_as_png: Option<Result<Option<IcoImage>, String>>,
) -> bool {
    &&& icon_refusal(image_bytes, windows) is None
    &&& first_image(image_bytes, stored_as_png) matches Ok(Some((rgba, width, height)))
    &&& rgba_fits(rgba.len(), width, height)
}

/// Whether `r` is the icon of a decoded image: the image as an icon, or the
/// refusal of its pixel data as an invalid icon.
pub open spec fn icon_of_image(
    rgba: Seq<u8>,
    width: u32,
    height: u32,
    r: Result<WryIcon, Error>,
) -> bool {
    if rgba_fits(rgba.len(), width, height) {
        r matches Ok(icon) && icon.0.wf() && icon.0.rgba_spec() == rgba && icon.0.width_spec()
            == width && icon.0.height_spec() == height
    } else {
        r matches Err(Error::InvalidIcon(cause)) && (rgba.len() % 4 != 0 ==> cause@
            == bad_icon_text(BadIcon::ByteCountNotDivisibleBy4 { byte_count: rgba.len() as usize }))
            && (rgba.len() % 4 == 0 ==> cause@ == bad_icon_text(
            BadIcon::DimensionsVsPixelCount {
                width,
                height,
                pixel_count: (rgba.len() / 4) as usize,
            },
        ))
    }
}

impl WryIcon {
    /// Makes the icon of a decoded image.
    pub fn from_image(image: IcoImage) -> (r: Result<WryIcon, Error>)
        ensures
            icon_of_image(image.rgba@, image.width, image.height, r),
    {
        match WindowIcon::from_rgba(image.rgba, image.width, image.height) {
            Ok(icon) => Ok(WryIcon(icon)),
            Err(e) => Err(Error::InvalidIcon(e.message())),
        }
    }

    /// Makes a window icon of the bytes of an icon file: of its first
    /// image. Bytes of which no icon can be made give an invalid icon, with
    /// the cause in words: see [`icon_made`].
    ///
    /// Where the first image of an icon file is stored as PNG (see
    /// [`png_encoded`]), the caller decodes it and hands over what came of
    /// that as `stored_as_png`; it is read in no other case.
    pub fn try_from(
        image_bytes: &Vec<u8>,
        windows: bool,
        stored_as_png: Option<Result<Option<IcoImage>, String>>,
    ) -> (r: Result<WryIcon, Error>)
        requires
            windows && first_image_is_png(image_bytes@) ==> stored_as_png is Some,
        ensures
            icon_made(image_bytes@, windows, stored_as_png, r),
            r is Ok <==> is_valid_icon(image_bytes@, windows, stored_as_png),
    {
        let bytes = image_bytes.as_slice();
        if document_like(bytes) || cut_raw_image(bytes) {
            return Err(Error::InvalidIcon(String::from_str("image type not supported")));
        }
        let extension = match infer_extension(bytes) {
            Some(extension) => extension,
            None => {
                return Err(
                    Error::InvalidIcon(String::from_str("could not determine icon extension")),
                );
            },
        };
        if !(windows && str_eq(extension, "ico")) {
            let mut text = String::from_str("image `");
            text.append(extension);
            text.append("` extension not supported; please file a Tauri feature request");
            return Err(Error::InvalidIcon(text));
        }
        let decoded = if png_encoded(bytes) {
            match stored_as_png {
                Some(decoded) => decoded,
                None => Ok(None),
            }
        } else {
            decode_ico(bytes)
        };
        match decoded {
            Ok(Some(image)) => WryIcon::from_image(image),
            Ok(None) => Err(Error::InvalidIcon(String::from_str("icon file holds no image"))),
            Err(cause) => Err(Error::InvalidIcon(cause)),
        }
    }
}

} // verus!
