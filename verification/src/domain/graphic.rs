use vstd::prelude::*;
use vstd::string::StringExecFns;
use crate::error::{Failure, PrinterError};

verus! {

/// The scale at which a raster image is printed.
#[derive(Clone, Copy, Debug, PartialEq, Eq)]
pub enum GraphicSize {
    Normal,
    DoubleWidth,
    DoubleHeight,
    DoubleWidthAndHeight,
}

/// The size-mode byte of the image command.
pub open spec fn size_code(size: GraphicSize) -> u8 {
    match size {
        GraphicSize::Normal => 0x00,
        GraphicSize::DoubleWidth => 0x01,
        GraphicSize::DoubleHeight => 0x02,
        GraphicSize::DoubleWidthAndHeight => 0x03,
    }
}

/// The name of a size mode.
pub open spec fn size_text(size: GraphicSize) -> Seq<char> {
    match size {
        GraphicSize::Normal => "Normal"@,
        GraphicSize::DoubleWidth => "DoubleWidth"@,
        GraphicSize::DoubleHeight => "DoubleHeight"@,
        GraphicSize::DoubleWidthAndHeight => "DoubleWidthAndHeight"@,
    }
}

impl From<&GraphicSize> for u8 {
    fn from(size: &GraphicSize) -> (code: u8) {
        match size {
            GraphicSize::Normal => 0x00,
            GraphicSize::DoubleWidth => 0x01,
            GraphicSize::DoubleHeight => 0x02,
            GraphicSize::DoubleWidthAndHeight => 0x03,
        }
    }
}

impl vstd::std_specs::convert::FromSpecImpl<&GraphicSize> for u8 {
    open spec fn obeys_from_spec() -> bool {
        true
    }

    open spec fn from_spec(size: &GraphicSize) -> u8 {
        size_code(*size)
    }
}

impl GraphicSize {
    pub fn describe(&self) -> (text: String)
        ensures
            text@ == size_text(*self),
    {
        match self {
            GraphicSize::Normal => String::from_str("Normal"),
            GraphicSize::DoubleWidth => String::from_str("DoubleWidth"),
            GraphicSize::DoubleHeight => String::from_str("DoubleHeight"),
            GraphicSize::DoubleWidthAndHeight => String::from_str("DoubleWidthAndHeight"),
        }
    }
}

/// The number of bytes that hold `n` bits.
pub open spec fn bytes_for(n: int) -> int {
    (n + 7) / 8
}

/// The mathematical value of a [`Graphic`]: a grid of luminances, row by
/// row from the top, and how to print it.
pub struct GraphicModel {
    pub path: Seq<char>,
    pub width: int,
    pub height: int,
    pub pixels: Seq<u8>,
    pub density: u8,
    pub max_width: u32,
    pub size: GraphicSize,
}

impl GraphicModel {
    /// What every graphic satisfies: the grid is complete, its sides fit
    /// the sixteen-bit fields of the image command, it is no wider than
    /// the maximum it was scaled to, and the sampling stride is positive.
    pub open spec fn wf(self) -> bool {
        &&& 0 <= self.width <= u16::MAX
        &&& 0 <= self.height <= u16::MAX
        &&& self.width <= self.max_width
        &&& self.pixels.len() == self.width * self.height
        &&& self.density > 0
    }

    /// The luminance at column `x` of row `y`.
    pub open spec fn luminance(self, x: int, y: int) -> u8 {
        self.pixels[y * self.width + x]
    }
}

/// Whether an image of this width has to be scaled down before it can
/// become a graphic of this maximum width.
pub open spec fn too_wide(width: u32, max_width: u32) -> bool {
    width > max_width
}

/// Why a grid cannot become a graphic, if it cannot: the first of the
/// conditions of `wf` that fails.
pub open spec fn graphic_refusal(
    width: u32,
    height: u32,
    pixel_count: nat,
    density: u8,
    max_width: u32,
) -> Option<Seq<char>> {
    if density == 0 {
        Some("Invalid density"@)
    } else if width > u16::MAX || height > u16::MAX {
        Some("Image too large"@)
    } else if too_wide(width, max_width) {
        Some("Image wider than the maximum width"@)
    } else if pixel_count != width * height {
        Some("Pixel count does not match the dimensions"@)
    } else {
        None
    }
}

/// A raster image to print, already scaled and reduced to luminance.
#[derive(Debug, PartialEq)]
pub struct Graphic {
    path: String,
    width: u16,
    height: u16,
    pixels: Vec<u8>,
    density: u8,
    max_width: u32,
    size: GraphicSize,
}

impl View for Graphic {
    type V = GraphicModel;

    closed spec fn view(&self) -> GraphicModel {
        GraphicModel {
            path: self.path@,
            width: self.width as int,
            height: self.height as int,
            pixels: self.pixels@,
            density: self.density,
            max_width: self.max_width,
            size: self.size,
        }
    }
}

impl Clone for Graphic {
    fn clone(&self) -> (copy: Self)
        ensures
            copy@ == self@,
    {
        proof {
            use_type_invariant(self);
        }
        let pixels = self.pixels.clone();
        assert(pixels@ =~= self.pixels@);
        Self {
            path: self.path.clone(),
            width: self.width,
            height: self.height,
            pixels,
            density: self.density,
            max_width: self.max_width,
            size: self.size,
        }
    }
}

impl Graphic {
    #[verifier::type_invariant]
    closed spec fn valid(self) -> bool {
        self@.wf()
    }

    /// Makes a graphic of a grid of `width` by `height` luminances.
    pub fn new(
        path: String,
        width: u32,
        height: u32,
        pixels: Vec<u8>,
        density: u8,
        max_width: u32,
        size: GraphicSize,
    ) -> (r: Result<Self, PrinterError>)
        ensures
            match r {
                Ok(graphic) => graphic_refusal(width, height, pixels@.len(), density, max_width)
                    is None && graphic@ == (GraphicModel {
                    path: path@,
                    width: width as int,
                    height: height as int,
                    pixels: pixels@,
                    density,
                    max_width,
                    size,
                }) && graphic@.wf(),
                Err(e) => graphic_refusal(width, height, pixels@.len(), density, max_width)
                    matches Some(reason) && e@ == Failure::Input(reason),
            },
    {
        if density == 0 {
            return Err(PrinterError::input("Invalid density"));
        }
        if width > 0xFFFF || height > 0xFFFF {
            return Err(PrinterError::input("Image too large"));
        }
        if Self::must_scale(width, max_width) {
            return Err(PrinterError::input("Image wider than the maximum width"));
        }
        assert(width * height <= 0xFFFF * 0xFFFF) by (nonlinear_arith)
            requires
                width <= 0xFFFF,
                height <= 0xFFFF,
        ;
        if pixels.len() as u64 != (width as u64) * (height as u64) {
            return Err(PrinterError::input("Pixel count does not match the dimensions"));
        }
        Ok(Self { path, width: width as u16, height: height as u16, pixels, density, max_width, size })
    }

    /// Tells whether an image of this width must be scaled down to
    /// `max_width` before it is handed to `new`.
    pub fn must_scale(width: u32, max_width: u32) -> (scale: bool)
        ensures
            scale == too_wide(width, max_width),
    {
        width > max_width
    }

    /// States what every graphic satisfies.
    pub fn validate(&self)
        ensures
            self@.wf(),
    {
        proof {
            use_type_invariant(self);
        }
    }

    pub fn width(&self) -> (width: u16)
        ensures
            width == self@.width,
    {
        self.width
    }

    pub fn height(&self) -> (height: u16)
        ensures
            height == self@.height,
    {
        self.height
    }

    /// The bytes one row of the image takes at one bit a pixel.
    pub fn width_bytes(&self) -> (count: u16)
        ensures
            count == bytes_for(self@.width),
    {
        ((self.width as u32 + 7) / 8) as u16
    }

    pub fn height_bytes(&self) -> (count: u16)
        ensures
            count == bytes_for(self@.height),
    {
        ((self.height as u32 + 7) / 8) as u16
    }

    pub fn dimensions(&self) -> (sides: (u16, u16))
        ensures
            sides.0 == self@.width,
            sides.1 == self@.height,
    {
        (self.width, self.height)
    }

    /// The luminance of one pixel.
    pub fn pixel(&self, x: u32, y: u32) -> (luminance: u8)
        requires
            x < self@.width,
            y < self@.height,
        ensures
            luminance == self@.luminance(x as int, y as int),
    {
        proof {
            use_type_invariant(self);
            assert(y * self.width + x < self.width * self.height) by (nonlinear_arith)
                requires
                    0 <= x < self.width,
                    0 <= y < self.height,
            ;
            assert(self.width * self.height <= 0xFFFF * 0xFFFF) by (nonlinear_arith)
                requires
                    self.width <= 0xFFFF,
                    self.height <= 0xFFFF,
            ;
        }
        let at: u64 = (y as u64) * (self.width as u64) + (x as u64);
        self.pixels[at as usize]
    }

    pub fn density(&self) -> (density: u8)
        ensures
            density == self@.density,
    {
        self.density
    }

    pub fn path(&self) -> (path: &str)
        ensures
            path@ == self@.path,
    {
        self.path.as_str()
    }

    pub fn size(&self) -> (size: &GraphicSize)
        ensures
            *size == self@.size,
    {
        &self.size
    }

    pub fn max_width(&self) -> (max_width: u32)
        ensures
            max_width == self@.max_width,
    {
        self.max_width
    }

    pub fn builder() -> (builder: GraphicBuilder)
        ensures
            builder@ == default_graphic(),
    {
        GraphicBuilder::default()
    }
}

/// Collects the fields of a [`Graphic`].
pub struct GraphicBuilder {
    path: Option<String>,
    raster: Option<(u32, u32, Vec<u8>)>,
    density: u8,
    max_width: u32,
    size: GraphicSize,
}

/// The mathematical value of a [`GraphicBuilder`].
pub struct GraphicDraft {
    pub path: Option<Seq<char>>,
    pub raster: Option<(u32, u32, Seq<u8>)>,
    pub density: u8,
    pub max_width: u32,
    pub size: GraphicSize,
}

/// The draft a builder starts from: density 8, at most 512 dots wide,
/// normal size, no path and no image yet.
pub open spec fn default_graphic() -> GraphicDraft {
    GraphicDraft { path: None, raster: None, density: 8, max_width: 512, size: GraphicSize::Normal }
}

/// What `build` makes of a draft: the graphic's value, or the reason it
/// has none.
pub open spec fn built(draft: GraphicDraft) -> Result<GraphicModel, Failure> {
    match (draft.path, draft.raster) {
        (None, _) => Err(Failure::Input("No path provided"@)),
        (Some(_), None) => Err(Failure::Input("No image provided"@)),
        (Some(path), Some((width, height, pixels))) => match graphic_refusal(
            width,
            height,
            pixels.len(),
            draft.density,
            draft.max_width,
        ) {
            Some(reason) => Err(Failure::Input(reason)),
            None => Ok(
                GraphicModel {
                    path,
                    width: width as int,
                    height: height as int,
                    pixels,
                    density: draft.density,
                    max_width: draft.max_width,
                    size: draft.size,
                },
            ),
        },
    }
}

impl View for GraphicBuilder {
    type V = GraphicDraft;

    closed spec fn view(&self) -> GraphicDraft {
        GraphicDraft {
            path: match self.path {
                Some(path) => Some(path@),
                None => None,
            },
            raster: match self.raster {
                Some((width, height, pixels)) => Some((width, height, pixels@)),
                None => None,
            },
            density: self.density,
            max_width: self.max_width,
            size: self.size,
        }
    }
}

impl Default for GraphicBuilder {
    fn default() -> (builder: Self)
        ensures
            builder@ == default_graphic(),
    {
        Self { path: None, raster: None, density: 8, max_width: 512, size: GraphicSize::Normal }
    }
}

impl GraphicBuilder {
    pub fn path(self, path: &str) -> (builder: Self)
        ensures
            builder@ == (GraphicDraft { path: Some(path@), ..self@ }),
    {
        let mut builder = self;
        builder.path = Some(String::from_str(path));
        builder
    }

    /// Supplies the decoded image: `width` by `height` luminances, row by
    /// row from the top.
    pub fn raster(self, width: u32, height: u32, pixels: Vec<u8>) -> (builder: Self)
        ensures
            builder@ == (GraphicDraft { raster: Some((width, height, pixels@)), ..self@ }),
    {
        let mut builder = self;
        builder.raster = Some((width, height, pixels));
        builder
    }

    pub fn density(self, density: u8) -> (builder: Self)
        ensures
            builder@ == (GraphicDraft { density, ..self@ }),
    {
        let mut builder = self;
        builder.density = density;
        builder
    }

    pub fn size(self, size: GraphicSize) -> (builder: Self)
        ensures
            builder@ == (GraphicDraft { size, ..self@ }),
    {
        let mut builder = self;
        builder.size = size;
        builder
    }

    pub fn max_width(self, max_width: u32) -> (builder: Self)
        ensures
            builder@ == (GraphicDraft { max_width, ..self@ }),
    {
        let mut builder = self;
        builder.max_width = max_width;
        builder
    }

    pub fn build(self) -> (r: Result<Graphic, PrinterError>)
        ensures
            match r {
                Ok(graphic) => built(self@) == Ok::<GraphicModel, Failure>(graphic@)
                    && graphic@.wf(),
                Err(e) => built(self@) == Err::<GraphicModel, Failure>(e@),
            },
    {
        let path = match self.path {
            Some(path) => path,
            None => {
                return Err(PrinterError::input("No path provided"));
            },
        };
        let (width, height, pixels) = match self.raster {
            Some(raster) => raster,
            None => {
                return Err(PrinterError::input("No image provided"));
            },
        };
        Graphic::new(path, width, height, pixels, self.density, self.max_width, self.size)
    }
}

} // verus!
