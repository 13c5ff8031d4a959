//! The kinds of image file the editor opens, and how a file's kind is found
//! from the bytes it starts with.

use vstd::prelude::*;

verus! {

/// The kind of an image file. `Unsupported` stands for every file that is not
/// one of the three kinds that can be opened.
#[derive(Clone, Copy, Debug, PartialEq, Eq, Structural)]
pub enum ImageType {
    Jpeg,
    Png,
    Webp,
    Unsupported,
}

/// The kind that a media type names.
pub open spec fn spec_from_mime(mime: Seq<char>) -> ImageType {
    if mime == "image/jpeg"@ || mime == "image/jpg"@ {
        ImageType::Jpeg
    } else if mime == "image/png"@ {
        ImageType::Png
    } else if mime == "image/webp"@ {
        ImageType::Webp
    } else {
        ImageType::Unsupported
    }
}

/// The file extension under which a kind is written.
pub open spec fn spec_extension(kind: ImageType) -> Seq<char> {
    match kind {
        ImageType::Jpeg => "jpg"@,
        ImageType::Png => "png"@,
        ImageType::Webp => "webp"@,
        ImageType::Unsupported => "none"@,
    }
}

impl ImageType {
    /// The kind named by the media type `v`; `Unsupported` for any other text.
    pub fn from_mime(v: &str) -> (r: ImageType)
        ensures
            r == spec_from_mime(v@),
    {
        if v.eq("image/jpeg") || v.eq("image/jpg") {
            ImageType::Jpeg
        } else if v.eq("image/png") {
            ImageType::Png
        } else if v.eq("image/webp") {
            ImageType::Webp
        } else {
            ImageType::Unsupported
        }
    }

    /// The file extension of this kind, without a dot.
    pub fn as_extension(&self) -> (r: String)
        ensures
            r@ == spec_extension(*self),
    {
        match self {
            ImageType::Jpeg => "jpg".to_owned(),
            ImageType::Png => "png".to_owned(),
            ImageType::Webp => "webp".to_owned(),
            ImageType::Unsupported => "none".to_owned(),
        }
    }

    /// Whether a file of this kind can be opened.
    pub fn is_supported(&self) -> (r: bool)
        ensures
            r == (*self != ImageType::Unsupported),
    {
        match self {
            ImageType::Unsupported => false,
            _ => true,
        }
    }
}

/// The media type that the `infer` crate finds in the first bytes of a file,
/// if it knows the format.
pub uninterp spec fn sniffed_mime(head: Seq<u8>) -> Option<Seq<char>>;

/// `infer::get`, followed by `Type::mime_type`: the media type of the format
/// whose signature `head` carries. The result depends on the bytes alone.
#[verifier::external_body]
fn sniff_mime(head: &[u8]) -> (r: Option<String>)
    ensures
        r is Some == sniffed_mime(head@) is Some,
        r is Some ==> r->0@ == sniffed_mime(head@)->0,
{
    match infer::get(head) {
        Some(kind) => Some(kind.mime_type().to_owned()),
        None => None,
    }
}

/// The kind that follows from what was found in a file's first bytes.
pub open spec fn spec_kind_of(found: Option<Seq<char>>) -> ImageType {
    match found {
        Some(mime) => spec_from_mime(mime),
        None => ImageType::Unsupported,
    }
}

/// The kind of a file, read from its content and never from its name. `head`
/// holds the first bytes of the file.
pub fn detect(head: &[u8]) -> (r: ImageType)
    ensures
        r == spec_kind_of(sniffed_mime(head@)),
{
    match sniff_mime(head) {
        Some(mime) => ImageType::from_mime(mime.as_str()),
        None => ImageType::Unsupported,
    }
}

/// An image file of the open folder: the name of the file and the kind that
/// was found in its content. Both are fixed once the file has been resolved.
#[derive(Debug, PartialEq, Eq)]
pub struct ImageInfo {
    file_name: String,
    image_type: ImageType,
}

impl Clone for ImageInfo {
    fn clone(&self) -> (r: ImageInfo)
        ensures
            r.spec_file_name() == self.spec_file_name(),
            r.spec_image_type() == self.spec_image_type(),
    {
        ImageInfo { file_name: self.file_name.clone(), image_type: self.image_type }
    }
}

impl ImageInfo {
    /// The file's name inside its folder.
    pub closed spec fn spec_file_name(&self) -> Seq<char> {
        self.file_name@
    }

    /// The kind found in the file's content.
    pub closed spec fn spec_image_type(&self) -> ImageType {
        self.image_type
    }

    /// An image file whose kind is already known.
    pub fn new(file_name: String, image_type: ImageType) -> (r: ImageInfo)
        ensures
            r.spec_file_name() == file_name@,
            r.spec_image_type() == image_type,
    {
        ImageInfo { file_name, image_type }
    }

    /// Resolves a file from its content: the file is an image exactly when its
    /// first bytes show one of the three kinds that can be opened.
    pub fn resolve(file_name: String, head: &[u8]) -> (r: Option<ImageInfo>)
        ensures
            r is Some == (spec_kind_of(sniffed_mime(head@)) != ImageType::Unsupported),
            r is Some ==> r->0.spec_file_name() == file_name@ && r->0.spec_image_type()
                == spec_kind_of(sniffed_mime(head@)),
    {
        let kind = detect(head);
        if kind.is_supported() {
            Some(ImageInfo { file_name, image_type: kind })
        } else {
            None
        }
    }

    /// The file's name inside its folder.
    pub fn file_name(&self) -> (r: &str)
        ensures
            r@ == self.spec_file_name(),
    {
        self.file_name.as_str()
    }

    /// The kind found in the file's content.
    pub fn image_type(&self) -> (r: ImageType)
        ensures
            r == self.spec_image_type(),
    {
        self.image_type
    }
}

} // verus!
