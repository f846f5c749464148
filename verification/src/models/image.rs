use crate::db::{current_timestamp, fresh_object_id, key_text, object_id_hex, timestamp_text};
use crate::db::{timestamp_to_string, StoreKey, Timestamp};
use crate::models::{DocumentConvertable, ObjectConvertable};
use image::io::Reader;
use std::io::Cursor;
use vstd::prelude::*;

verus! {

/// The file part of an upload form: the client's file name, if it sent a
/// usable one, and the bytes as they were persisted.
#[derive(Debug, PartialEq, Eq)]
pub struct UploadedFile {
    pub name: Option<String>,
    pub data: Vec<u8>,
}

/// A multipart upload: a title and a file.
#[derive(Debug, PartialEq, Eq)]
pub struct UploadImage {
    pub title: String,
    pub file: UploadedFile,
}

/// Pixel width and height of the image that `data` encodes, where it encodes one.
pub uninterp spec fn decoded_dimensions(data: Seq<u8>) -> Option<(u32, u32)>;

/// Reads `data` with `image::io::Reader`: guesses the format from the leading
/// bytes, decodes the whole image and reports its width and height. `None`
/// where the format is unknown or decoding fails. The outcome depends on the
/// bytes alone.
#[verifier::external_body]
fn decode_dimensions(data: &Vec<u8>) -> (r: Option<(u32, u32)>)
    ensures
        r == decoded_dimensions(data@),
{
    let reader = Reader::new(Cursor::new(data)).with_guessed_format().ok()?;
    let decoded = reader.decode().ok()?;
    Some((decoded.width(), decoded.height()))
}

/// Whether `data` can be read as an image whose sides both fit a signed
/// 32-bit number.
pub open spec fn readable_image(data: Seq<u8>) -> bool {
    fitting_dimensions(decoded_dimensions(data))
}

/// Whether dimensions were probed and both sides fit a signed 32-bit number.
pub open spec fn fitting_dimensions(probed: Option<(u32, u32)>) -> bool {
    match probed {
        Some((w, h)) => w <= i32::MAX && h <= i32::MAX,
        None => false,
    }
}

/// Why uploaded bytes cannot be taken as an image.
#[derive(Clone, Copy, Debug, PartialEq, Eq, Structural)]
pub enum UnreadableUpload {
    /// The bytes are in no known format, or do not decode.
    NotAnImage,
    /// The image decodes, but a side does not fit a signed 32-bit number.
    TooLarge,
}

/// An image file held in memory, with the dimensions probed from its bytes.
#[derive(Debug, PartialEq, Eq)]
pub struct ImageFile {
    pub width: i32,
    pub height: i32,
    pub data: Vec<u8>,
}

impl ImageFile {
    /// Pairs dimensions that were probed from `data` with the bytes, unless
    /// none were probed or a side is too large for a signed 32-bit number.
    pub fn with_dimensions(probed: Option<(u32, u32)>, data: Vec<u8>) -> (r: Result<
        ImageFile,
        UnreadableUpload,
    >)
        ensures
            match r {
                Ok(file) => {
                    &&& fitting_dimensions(probed)
                    &&& probed matches Some((w, h))
                    &&& file.width == w
                    &&& file.height == h
                    &&& file.data@ == data@
                },
                Err(UnreadableUpload::NotAnImage) => probed is None,
                Err(UnreadableUpload::TooLarge) => probed is Some && !fitting_dimensions(probed),
            },
    {
        match probed {
            Some((w, h)) => {
                if w <= 0x7fff_ffff && h <= 0x7fff_ffff {
                    Ok(ImageFile { width: w as i32, height: h as i32, data })
                } else {
                    Err(UnreadableUpload::TooLarge)
                }
            },
            None => Err(UnreadableUpload::NotAnImage),
        }
    }

    /// Reads an image file from its bytes: decodes them to learn width and
    /// height.
    pub fn read(data: Vec<u8>) -> (r: Result<ImageFile, UnreadableUpload>)
        ensures
            match r {
                Ok(file) => {
                    &&& readable_image(data@)
                    &&& decoded_dimensions(data@) matches Some((w, h))
                    &&& file.width == w
                    &&& file.height == h
                    &&& file.data@ == data@
                },
                Err(UnreadableUpload::NotAnImage) => decoded_dimensions(data@) is None,
                Err(UnreadableUpload::TooLarge) => decoded_dimensions(data@) is Some
                    && !readable_image(data@),
            },
    {
        let probed = decode_dimensions(&data);
        ImageFile::with_dimensions(probed, data)
    }
}

/// An image as clients see it.
#[derive(Debug, PartialEq, Eq)]
pub struct Image {
    pub _id: String,
    pub path: String,
    pub width: i32,
    pub height: i32,
    pub title: String,
    pub created_at: String,
}

pub struct ImageView {
    pub id: Seq<char>,
    pub path: Seq<char>,
    pub width: int,
    pub height: int,
    pub title: Seq<char>,
    pub created_at: Seq<char>,
}

impl View for Image {
    type V = ImageView;

    open spec fn view(&self) -> ImageView {
        ImageView {
            id: self._id@,
            path: self.path@,
            width: self.width as int,
            height: self.height as int,
            title: self.title@,
            created_at: self.created_at@,
        }
    }
}

impl Clone for Image {
    fn clone(&self) -> (r: Self)
        ensures
            r == *self,
    {
        Image {
            _id: self._id.clone(),
            path: self.path.clone(),
            width: self.width,
            height: self.height,
            title: self.title.clone(),
            created_at: self.created_at.clone(),
        }
    }
}

/// An image as the store keeps it.
#[derive(Debug, PartialEq, Eq)]
pub struct ImageDocument {
    pub _id: Option<StoreKey>,
    pub path: String,
    pub width: i32,
    pub height: i32,
    pub title: String,
    pub created_at: Timestamp,
}

pub struct ImageDocumentView {
    pub id: Option<Seq<u8>>,
    pub path: Seq<char>,
    pub width: int,
    pub height: int,
    pub title: Seq<char>,
    pub created_at: int,
}

impl View for ImageDocument {
    type V = ImageDocumentView;

    open spec fn view(&self) -> ImageDocumentView {
        ImageDocumentView {
            id: match self._id {
                Some(k) => Some(k@),
                None => None,
            },
            path: self.path@,
            width: self.width as int,
            height: self.height as int,
            title: self.title@,
            created_at: self.created_at@,
        }
    }
}

impl Clone for ImageDocument {
    fn clone(&self) -> (r: Self)
        ensures
            r == *self,
    {
        ImageDocument {
            _id: self._id,
            path: self.path.clone(),
            width: self.width,
            height: self.height,
            title: self.title.clone(),
            created_at: self.created_at,
        }
    }
}

impl ImageView {
    /// The document for an image created at `at`: no identifier yet, the rest as given.
    pub open spec fn document_at(self, at: int) -> ImageDocumentView {
        ImageDocumentView {
            id: None,
            path: self.path,
            width: self.width,
            height: self.height,
            title: self.title,
            created_at: at,
        }
    }
}

impl ImageDocumentView {
    /// The image handed to clients: the identifier (or `fallback` where the
    /// document has none) in text form, the creation time printed, the rest
    /// as stored.
    pub open spec fn object_with(self, fallback: Seq<u8>) -> ImageView {
        ImageView {
            id: key_text(
                match self.id {
                    Some(k) => k,
                    None => fallback,
                },
            ),
            path: self.path,
            width: self.width,
            height: self.height,
            title: self.title,
            created_at: timestamp_text(self.created_at),
        }
    }
}

impl Image {
    /// The document that stands for this image when it was created at `created_at`.
    pub fn to_document_at(&self, created_at: Timestamp) -> (d: ImageDocument)
        ensures
            d@ == self@.document_at(created_at@),
    {
        ImageDocument {
            _id: None,
            path: self.path.clone(),
            width: self.width,
            height: self.height,
            title: self.title.clone(),
            created_at,
        }
    }
}

impl DocumentConvertable<ImageDocument> for Image {
    /// The document for this image, stamped with the current time.
    open spec fn documented_as(&self, document: ImageDocument) -> bool {
        document@ == self@.document_at(document.created_at@)
    }

    fn to_document(&self) -> (d: ImageDocument) {
        let now = current_timestamp();
        self.to_document_at(now)
    }
}

impl ImageDocument {
    /// The image for this document, with `fallback` standing in for a missing identifier.
    pub fn to_object_with(&self, fallback: StoreKey) -> (image: Image)
        ensures
            image@ == self@.object_with(fallback@),
    {
        let key = match self._id {
            Some(k) => k,
            None => fallback,
        };
        Image {
            _id: object_id_hex(&key),
            path: self.path.clone(),
            width: self.width,
            height: self.height,
            title: self.title.clone(),
            created_at: timestamp_to_string(&self.created_at),
        }
    }
}

impl ObjectConvertable<Image> for ImageDocument {
    /// The image for this document; a document without an identifier gets a
    /// freshly generated one.
    open spec fn converted_to(&self, object: Image) -> bool {
        exists|fallback: Seq<u8>|
            fallback.len() == 12 && object@ == #[trigger] self@.object_with(fallback)
    }

    fn to_object(&self) -> (image: Image) {
        let fallback = match self._id {
            Some(key) => key,
            None => fresh_object_id(),
        };
        let image = self.to_object_with(fallback);
        assert(fallback@.len() == 12);
        image
    }
}

} // verus!
