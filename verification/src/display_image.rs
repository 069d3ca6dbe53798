//! The three images of the badge by name.

use vstd::prelude::*;
use crate::display::Point;
use crate::image::ImageIndex;

verus! {

/// How many images there are.
pub const NUMBER_OF_IMAGES: u8 = 3;

/// One of the stored images.
#[derive(Clone, Copy, PartialEq, Eq, Structural, Debug)]
pub enum DisplayImage {
    Ferris,
    Repo,
    MtrasLogo,
}

/// The stored bitmaps, one for each image.
#[derive(Clone, Copy, Debug)]
pub struct Bitmaps<'a> {
    pub ferris: &'a [u8],
    pub repo: &'a [u8],
    pub mtras_logo: &'a [u8],
}

/// The number of an image.
pub open spec fn code_of(image: DisplayImage) -> u8 {
    match image {
        DisplayImage::Ferris => 0,
        DisplayImage::Repo => 1,
        DisplayImage::MtrasLogo => 2,
    }
}

/// The image with a number, where there is one.
pub open spec fn image_of(code: u8) -> Option<DisplayImage> {
    if code == 0 {
        Some(DisplayImage::Ferris)
    } else if code == 1 {
        Some(DisplayImage::Repo)
    } else if code == 2 {
        Some(DisplayImage::MtrasLogo)
    } else {
        None
    }
}

/// The image that is selected.
pub fn get_current_image(index: &ImageIndex) -> (image: DisplayImage)
    requires
        index.current < NUMBER_OF_IMAGES,
    ensures
        Some(image) == image_of(index.current as u8),
{
    if index.current == 0 {
        DisplayImage::Ferris
    } else if index.current == 1 {
        DisplayImage::Repo
    } else {
        DisplayImage::MtrasLogo
    }
}

impl DisplayImage {
    /// The image with number `value`; `None` for a number of no image.
    pub fn from_u8(value: u8) -> (image: Option<Self>)
        ensures
            image == image_of(value),
    {
        match value {
            0 => Some(Self::Ferris),
            1 => Some(Self::Repo),
            2 => Some(Self::MtrasLogo),
            _ => None,
        }
    }

    /// The number of the image.
    pub fn as_u8(&self) -> (code: u8)
        ensures
            code == code_of(*self),
            image_of(code) == Some(*self),
    {
        match self {
            Self::Ferris => 0,
            Self::Repo => 1,
            Self::MtrasLogo => 2,
        }
    }

    /// The bitmap of the image.
    pub fn image<'a>(&self, bitmaps: &Bitmaps<'a>) -> (bitmap: &'a [u8])
        ensures
            bitmap == (match *self {
                DisplayImage::Ferris => bitmaps.ferris,
                DisplayImage::Repo => bitmaps.repo,
                DisplayImage::MtrasLogo => bitmaps.mtras_logo,
            }),
    {
        match self {
            Self::Ferris => bitmaps.ferris,
            Self::Repo => bitmaps.repo,
            Self::MtrasLogo => bitmaps.mtras_logo,
        }
    }

    /// The image that follows this one; the last is followed by the first.
    pub fn next(&self) -> (following: Self)
        ensures
            code_of(following) == (code_of(*self) + 1) % (NUMBER_OF_IMAGES as int),
    {
        match self {
            Self::Ferris => Self::Repo,
            Self::Repo => Self::MtrasLogo,
            Self::MtrasLogo => Self::Ferris,
        }
    }

    /// Where the image is placed on the panel.
    pub fn image_location(&self) -> (at: Point)
        ensures
            at == (match *self {
                DisplayImage::Ferris => Point { x: 0, y: 24 },
                DisplayImage::Repo => Point { x: 190, y: 26 },
                DisplayImage::MtrasLogo => Point { x: 190, y: 26 },
            }),
    {
        match self {
            Self::Ferris => Point { x: 0, y: 24 },
            Self::Repo => Point { x: 190, y: 26 },
            Self::MtrasLogo => Point { x: 190, y: 26 },
        }
    }
}

} // verus!
