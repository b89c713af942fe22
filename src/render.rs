use vstd::prelude::*;
use crate::ppm::{header_text, ppm_header};

verus! {

/// Why a render configuration was refused before any pixel was traced.
#[derive(Clone, Copy, Debug, PartialEq, Eq, Structural)]
pub enum ConfigError {
    /// The image width is zero or negative.
    BadWidth,
    /// The image height is zero or negative.
    BadHeight,
    /// The number of samples per pixel is zero or negative.
    NoSamples,
}

/// The size of the image and the sampling budget of one render.
#[derive(Clone, Copy, Debug, PartialEq, Eq, Structural)]
pub struct RenderConfig {
    pub image_width: u64,
    pub image_height: u64,
    pub samples_per_pixel: u64,
    /// The bounce budget of each camera sample; zero or less renders black.
    pub max_depth: i64,
}

impl RenderConfig {
    /// A configuration fit to render: a non-empty image and at least one
    /// sample per pixel.
    pub open spec fn wf(&self) -> bool {
        &&& self.image_width > 0
        &&& self.image_height > 0
        &&& self.samples_per_pixel > 0
    }

    /// Checks a configuration before rendering: the width, then the height,
    /// then the sample count must be positive.
    pub fn new(image_width: i64, image_height: i64, samples_per_pixel: i64, max_depth: i64) -> (r:
        Result<RenderConfig, ConfigError>)
        ensures
            image_width <= 0 ==> r == Err::<RenderConfig, ConfigError>(ConfigError::BadWidth),
            image_width > 0 && image_height <= 0 ==> r == Err::<RenderConfig, ConfigError>(
                ConfigError::BadHeight,
            ),
            image_width > 0 && image_height > 0 && samples_per_pixel <= 0 ==> r == Err::<
                RenderConfig,
                ConfigError,
            >(ConfigError::NoSamples),
            image_width > 0 && image_height > 0 && samples_per_pixel > 0 ==> (r matches Ok(c)
                && c.wf() && c.image_width == image_width && c.image_height == image_height
                && c.samples_per_pixel == samples_per_pixel && c.max_depth == max_depth),
    {
        if image_width <= 0 {
            return Err(ConfigError::BadWidth);
        }
        if image_height <= 0 {
            return Err(ConfigError::BadHeight);
        }
        if samples_per_pixel <= 0 {
            return Err(ConfigError::NoSamples);
        }
        Ok(
            RenderConfig {
                image_width: image_width as u64,
                image_height: image_height as u64,
                samples_per_pixel: samples_per_pixel as u64,
                max_depth,
            },
        )
    }

    /// The image is written from the top row down, while the camera's
    /// vertical plane coordinate grows upwards: the `line`-th row of output is
    /// the row this many steps above the bottom edge.
    pub fn plane_row(&self, line: u64) -> (r: u64)
        requires
            line < self.image_height,
        ensures
            r == self.image_height - 1 - line,
    {
        self.image_height - 1 - line
    }

    /// The PPM header for an image of this size.
    pub fn header(&self) -> (r: Vec<u8>)
        ensures
            r@ == header_text(self.image_width as nat, self.image_height as nat),
    {
        ppm_header(self.image_width, self.image_height)
    }
}

} // verus!
