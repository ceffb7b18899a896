use vstd::prelude::*;

verus! {

/// An RGBA color, one byte per channel.
#[derive(PartialEq, Eq, Structural, Clone, Copy, Debug)]
pub struct Rgba {
    pub r: u8,
    pub g: u8,
    pub b: u8,
    pub a: u8,
}

impl Rgba {
    /// A fully opaque color from its three color channels.
    pub fn from_rgb(r: u8, g: u8, b: u8) -> (c: Rgba)
        ensures
            c == (Rgba { r, g, b, a: 255 }),
    {
        Rgba { r, g, b, a: 255 }
    }

    pub open spec fn is_opaque(self) -> bool {
        self.a == 255
    }
}

/// Why a window configuration was rejected.
#[derive(PartialEq, Eq, Structural, Clone, Copy, Debug)]
pub enum ConfigError {
    /// Width or height is zero.
    EmptySize,
    /// The background color is not fully opaque.
    TranslucentBackground,
}

/// What the application supplies at construction: a title, a positive
/// logical size and an opaque background color.
#[derive(Clone, Debug)]
pub struct WindowOptions {
    pub title: String,
    pub width: u32,
    pub height: u32,
    pub background: Rgba,
}

impl WindowOptions {
    /// The options are acceptable: a positive size and an opaque background.
    pub open spec fn valid(&self) -> bool {
        self.width > 0 && self.height > 0 && self.background.is_opaque()
    }

    /// Checks the configuration; the size is checked before the color.
    pub fn new(title: String, width: u32, height: u32, background: Rgba) -> (r: Result<
        WindowOptions,
        ConfigError,
    >)
        ensures
            (width == 0 || height == 0) ==> r == Err::<WindowOptions, ConfigError>(
                ConfigError::EmptySize,
            ),
            (width > 0 && height > 0 && !background.is_opaque()) ==> r == Err::<
                WindowOptions,
                ConfigError,
            >(ConfigError::TranslucentBackground),
            r is Ok <==> (width > 0 && height > 0 && background.is_opaque()),
            r matches Ok(o) ==> o.title@ == title@ && o.width == width && o.height == height
                && o.background == background && o.valid(),
    {
        if width == 0 || height == 0 {
            return Err(ConfigError::EmptySize);
        }
        if background.a != 255 {
            return Err(ConfigError::TranslucentBackground);
        }
        Ok(WindowOptions { title, width, height, background })
    }
}

} // verus!
