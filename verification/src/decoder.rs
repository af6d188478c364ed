//! The decoder: from what a search found in a picture to the payload that
//! the symbol carries.
//!
//! Reading has three steps. A picture is read from an image file and
//! searched for finder patterns, and the grid between them is sampled: that
//! is the work of the crates `image` and `quircs`, and the caller has it
//! done. What the search found is handed in here as plain values. The grid
//! is then read by `quircs`, and each outcome is told as a payload, a text
//! or one error.

use vstd::prelude::*;
use vstd::utf8::{decode_utf8, valid_utf8};
use crate::bitstream::BYTE_MODE;
use crate::error::QrError;
use quircs::{Code, DecodeError};

verus! {

/// The number of bytes in the bitmap of a sampled grid: one bit for each of
/// the 177 by 177 modules of the largest version.
pub const GRID_BYTES: usize = 3917;

/// The smallest number of modules along one side of a symbol.
pub const MIN_GRID_SIZE: i32 = 21;

/// The largest number of modules along one side of a symbol.
pub const MAX_GRID_SIZE: i32 = 177;

/// The number of finder patterns of a symbol.
pub const FINDERS: usize = 3;

/// What a picture is, as plain values.
pub struct LumaView {
    pub width: int,
    pub height: int,
    /// The brightness of the pixels row by row from the top, each row from
    /// the left.
    pub pixels: Seq<u8>,
}

impl LumaView {
    /// The invariant of a picture: it has one value for each pixel.
    pub open spec fn is_picture(self) -> bool {
        &&& 0 <= self.width
        &&& 0 <= self.height
        &&& self.pixels.len() == self.width * self.height
    }
}

/// A picture in shades of grey, one byte for each pixel: what is handed to
/// a search.
pub struct LumaImage {
    width: usize,
    height: usize,
    pixels: Vec<u8>,
}

impl View for LumaImage {
    type V = LumaView;

    closed spec fn view(&self) -> LumaView {
        LumaView { width: self.width as int, height: self.height as int, pixels: self.pixels@ }
    }
}

impl LumaImage {
    #[verifier::type_invariant]
    spec fn well_formed(&self) -> bool {
        self@.is_picture()
    }

    /// A picture of the given width and height from the brightness of its
    /// pixels, row by row; none where `pixels` has not one value for each
    /// pixel.
    pub fn new(width: usize, height: usize, pixels: Vec<u8>) -> (image: Option<LumaImage>)
        ensures
            image is Some <==> pixels.len() == width * height,
            image matches Some(picture) ==> picture@ == (LumaView {
                width: width as int,
                height: height as int,
                pixels: pixels@,
            }),
    {
        match width.checked_mul(height) {
            Some(count) => {
                if pixels.len() == count {
                    Some(LumaImage { width, height, pixels })
                } else {
                    None
                }
            },
            None => None,
        }
    }

    /// The width in pixels.
    pub fn width(&self) -> (width: usize)
        ensures
            width == self@.width,
    {
        self.width
    }

    /// The height in pixels.
    pub fn height(&self) -> (height: usize)
        ensures
            height == self@.height,
    {
        self.height
    }

    /// The brightness of the pixels row by row from the top.
    pub fn pixels(&self) -> (pixels: &Vec<u8>)
        ensures
            pixels@ == self@.pixels,
            pixels.len() == self@.width * self@.height,
    {
        proof {
            use_type_invariant(self);
        }
        &self.pixels
    }
}

/// What a sampled grid is, as plain values.
pub struct GridView {
    pub size: int,
    pub cells: Seq<u8>,
}

/// The modules of a symbol as they were sampled from a picture: `size`
/// modules a side, and a bitmap in which bit `i % 8` of byte `i / 8` is set
/// where module `i` is dark, the modules counted row by row.
pub struct SampledGrid {
    size: i32,
    cells: Vec<u8>,
}

impl View for SampledGrid {
    type V = GridView;

    closed spec fn view(&self) -> GridView {
        GridView { size: self.size as int, cells: self.cells@ }
    }
}

impl SampledGrid {
    #[verifier::type_invariant]
    spec fn well_formed(&self) -> bool {
        self.cells.len() == GRID_BYTES
    }

    /// A grid of `size` modules a side with the given bitmap; none where the
    /// bitmap has not 3917 bytes.
    pub fn new(size: i32, cells: Vec<u8>) -> (grid: Option<SampledGrid>)
        ensures
            grid is Some <==> cells.len() == GRID_BYTES,
            grid matches Some(sampled) ==> sampled@ == (GridView {
                size: size as int,
                cells: cells@,
            }),
    {
        if cells.len() == GRID_BYTES {
            Some(SampledGrid { size, cells })
        } else {
            None
        }
    }

    /// The number of modules along one side.
    pub fn size(&self) -> (size: i32)
        ensures
            size == self@.size,
    {
        self.size
    }

    /// The bitmap of the modules.
    pub fn cells(&self) -> (cells: &Vec<u8>)
        ensures
            cells@ == self@.cells,
            cells.len() == GRID_BYTES,
    {
        proof {
            use_type_invariant(self);
        }
        &self.cells
    }
}

/// What a search made of the first symbol that it found.
pub enum Sampled {
    /// No finder patterns that belong together.
    Nothing,
    /// Finder patterns that belong together, but no grid could be sampled
    /// between them.
    Failed,
    /// The grid that was sampled.
    Grid { size: i32, cells: Vec<u8> },
}

/// What a search made of the first symbol, as plain values.
pub enum SampledView {
    Nothing,
    Failed,
    Grid { size: int, cells: Seq<u8> },
}

impl View for Sampled {
    type V = SampledView;

    open spec fn view(&self) -> SampledView {
        match *self {
            Sampled::Nothing => SampledView::Nothing,
            Sampled::Failed => SampledView::Failed,
            Sampled::Grid { size, cells } => SampledView::Grid { size: size as int, cells: cells@ },
        }
    }
}

/// What the search for a symbol in a picture came to.
pub struct Search {
    /// The number of finder patterns that were seen in the picture.
    pub finders: usize,
    /// What became of the first symbol.
    pub first: Sampled,
}

/// What a search came to, as plain values.
pub struct SearchView {
    pub finders: int,
    pub first: SampledView,
}

impl View for Search {
    type V = SearchView;

    open spec fn view(&self) -> SearchView {
        SearchView { finders: self.finders as int, first: self.first@ }
    }
}

/// What was read from a grid.
pub struct Decoded {
    /// The mode indicator of the segments that were read: the largest of
    /// those for numbers (1), letters (2), bytes (4) and kanji (8); none
    /// where no such segment was read.
    pub mode: Option<i32>,
    /// The payload of all segments, one after the other.
    pub payload: Vec<u8>,
}

/// What was read from a grid, as plain values.
pub struct DecodedView {
    pub mode: Option<int>,
    pub payload: Seq<u8>,
}

impl View for Decoded {
    type V = DecodedView;

    open spec fn view(&self) -> DecodedView {
        DecodedView {
            mode: match self.mode {
                Some(mode) => Some(mode as int),
                None => None,
            },
            payload: self.payload@,
        }
    }
}

/// Why a grid could not be read.
#[derive(Clone, Copy, Debug, PartialEq, Eq, Structural)]
pub enum DecodeFailure {
    /// The size of the grid is that of no symbol.
    InvalidGridSize,
    /// The version that the size gives is not one of 1 to 40.
    InvalidVersion,
    /// A block of codewords has more errors than can be corrected.
    DataEcc,
    /// Neither copy of the format information can be corrected.
    FormatEcc,
    /// A segment of an unknown kind.
    UnknownDataType,
    /// A segment announces more than a symbol can hold.
    DataOverflow,
    /// The bit stream ends before a segment does.
    DataUnderflow,
}

/// What reading a grid came to, as plain values.
pub open spec fn reading_view(
    reading: Result<Decoded, DecodeFailure>,
) -> Result<DecodedView, DecodeFailure> {
    match reading {
        Ok(decoded) => Ok(decoded@),
        Err(failure) => Err(failure),
    }
}

/// Whether a symbol can have `size` modules along one side: 21 for version
/// 1, four more for each further version, 177 for version 40.
pub open spec fn is_symbol_size(size: int) -> bool {
    MIN_GRID_SIZE <= size <= MAX_GRID_SIZE && (size - 17) % 4 == 0
}

/// What reading the grid of `size` modules a side with the bitmap `cells`
/// comes to: what `quircs::Code::decode` returns for it.
pub uninterp spec fn reading_of(size: int, cells: Seq<u8>) -> Result<DecodedView, DecodeFailure>;

/// Reads a sampled grid: the format information, the codewords with their
/// errors corrected, and the segments of the bit stream.
///
/// Calls `quircs::Code::decode` on a code of the given size and bitmap. The
/// contract names the result. `requires` keeps to what the source needs:
/// the bitmap of a code has 3917 bytes, and the source takes 17 from the
/// size in `i32` and reads the modules of a grid of that size from the
/// bitmap, which holds those of 177 by 177.
#[verifier::external_body]
fn read_cells(size: i32, cells: &Vec<u8>) -> (reading: Result<Decoded, DecodeFailure>)
    requires
        cells.len() == GRID_BYTES,
        is_symbol_size(size as int),
    ensures
        reading_view(reading) == reading_of(size as int, cells@),
{
    let mut code = Code::default();
    code.size = size;
    code.cell_bitmap.copy_from_slice(cells);
    match code.decode() {
        Ok(data) => Ok(Decoded { mode: data.data_type.map(|m| m as i32), payload: data.payload }),
        Err(DecodeError::InvalidGridSize) => Err(DecodeFailure::InvalidGridSize),
        Err(DecodeError::InvalidVersion) => Err(DecodeFailure::InvalidVersion),
        Err(DecodeError::DataEcc) => Err(DecodeFailure::DataEcc),
        Err(DecodeError::FormatEcc) => Err(DecodeFailure::FormatEcc),
        Err(DecodeError::UnkownDataType) => Err(DecodeFailure::UnknownDataType),
        Err(DecodeError::DataOverflow) => Err(DecodeFailure::DataOverflow),
        Err(DecodeError::DataUnderflow) => Err(DecodeFailure::DataUnderflow),
    }
}

/// Turns bytes into text.
///
/// Calls `String::from_utf8`, which succeeds exactly on valid UTF-8 and then
/// gives the text that the bytes encode.
#[verifier::external_body]
fn text_from_utf8(bytes: Vec<u8>) -> (text: Option<String>)
    ensures
        text is Some <==> valid_utf8(bytes@),
        text matches Some(string) ==> string@ == decode_utf8(bytes@),
{
    String::from_utf8(bytes).ok()
}

/// The picture or the error that what was read from an image file stands
/// for: `ImageUnreadable` where nothing was read or where there is not one
/// value for each pixel.
pub open spec fn picture_read(
    picture: Option<(usize, usize, Vec<u8>)>,
) -> Result<LumaView, QrError> {
    match picture {
        Some((width, height, pixels)) => if pixels.len() == width * height {
            Ok(LumaView { width: width as int, height: height as int, pixels: pixels@ })
        } else {
            Err(QrError::ImageUnreadable)
        },
        None => Err(QrError::ImageUnreadable),
    }
}

/// The grid or the error that a search stands for. With fewer than three
/// finder patterns there is no symbol to be found; with three or more and
/// no grid, the patterns give no usable geometry.
pub open spec fn grid_found(search: SearchView) -> Result<GridView, QrError> {
    match search.first {
        SampledView::Nothing => if search.finders < FINDERS {
            Err(QrError::NoFinderPatternsFound)
        } else {
            Err(QrError::PerspectiveEstimationFailed)
        },
        SampledView::Failed => Err(QrError::PerspectiveEstimationFailed),
        SampledView::Grid { size, cells } => if cells.len() == GRID_BYTES {
            Ok(GridView { size, cells })
        } else {
            Err(QrError::PerspectiveEstimationFailed)
        },
    }
}

/// The error of the library that a failure to read a grid stands for.
pub open spec fn error_of(failure: DecodeFailure) -> QrError {
    match failure {
        DecodeFailure::InvalidGridSize => QrError::PerspectiveEstimationFailed,
        DecodeFailure::InvalidVersion => QrError::PerspectiveEstimationFailed,
        DecodeFailure::FormatEcc => QrError::FormatInfoUnrecoverable,
        DecodeFailure::DataEcc => QrError::EccUncorrectable,
        DecodeFailure::UnknownDataType => QrError::UnsupportedMode,
        DecodeFailure::DataOverflow => QrError::BitstreamMalformed,
        DecodeFailure::DataUnderflow => QrError::BitstreamMalformed,
    }
}

/// The payload or the error that a reading stands for: the payload where
/// the mode of the reading is that of bytes. The mode of a reading is the
/// largest of its segments, so that segments of digits or letters beside
/// one of bytes pass, and their characters stand in the payload. What
/// follows the last segment in the bit stream is not looked at.
pub open spec fn payload_read(reading: Result<DecodedView, DecodeFailure>) -> Result<Seq<u8>, QrError> {
    match reading {
        Ok(decoded) => if decoded.mode == Some(BYTE_MODE as int) {
            Ok(decoded.payload)
        } else {
            Err(QrError::UnsupportedMode)
        },
        Err(failure) => Err(error_of(failure)),
    }
}

/// The payload of a grid, or why none was read: a grid of a size that no
/// symbol has gives `PerspectiveEstimationFailed`, any other is read.
pub open spec fn grid_read(grid: GridView) -> Result<Seq<u8>, QrError> {
    if is_symbol_size(grid.size) {
        payload_read(reading_of(grid.size, grid.cells))
    } else {
        Err(QrError::PerspectiveEstimationFailed)
    }
}

/// The text or the error that a payload stands for.
pub open spec fn text_read(payload: Seq<u8>) -> Result<Seq<char>, QrError> {
    if valid_utf8(payload) {
        Ok(decode_utf8(payload))
    } else {
        Err(QrError::PayloadNotText)
    }
}

/// The payload of the symbol that a search found, or why none was read.
pub open spec fn decoded(search: SearchView) -> Result<Seq<u8>, QrError> {
    match grid_found(search) {
        Ok(grid) => grid_read(grid),
        Err(error) => Err(error),
    }
}

/// The text of the symbol that a search found, or why none was read.
pub open spec fn scanned(search: SearchView) -> Result<Seq<char>, QrError> {
    match decoded(search) {
        Ok(payload) => text_read(payload),
        Err(error) => Err(error),
    }
}

/// A payload or an error, as plain values.
pub open spec fn payload_view(payload: Result<Vec<u8>, QrError>) -> Result<Seq<u8>, QrError> {
    match payload {
        Ok(bytes) => Ok(bytes@),
        Err(error) => Err(error),
    }
}

/// A text or an error, as plain values.
pub open spec fn text_view(text: Result<String, QrError>) -> Result<Seq<char>, QrError> {
    match text {
        Ok(string) => Ok(string@),
        Err(error) => Err(error),
    }
}

/// A picture or an error, as plain values.
pub open spec fn picture_view(picture: Result<LumaImage, QrError>) -> Result<LumaView, QrError> {
    match picture {
        Ok(image) => Ok(image@),
        Err(error) => Err(error),
    }
}

/// A grid or an error, as plain values.
pub open spec fn grid_view(grid: Result<SampledGrid, QrError>) -> Result<GridView, QrError> {
    match grid {
        Ok(sampled) => Ok(sampled@),
        Err(error) => Err(error),
    }
}

/// Says what reading an image file came to: the picture (from its width,
/// its height and the brightness of its pixels), or `ImageUnreadable` where
/// the file could not be read.
pub fn picture_of(picture: Option<(usize, usize, Vec<u8>)>) -> (image: Result<LumaImage, QrError>)
    ensures
        picture_view(image) == picture_read(picture),
{
    match picture {
        Some((width, height, pixels)) => match LumaImage::new(width, height, pixels) {
            Some(image) => Ok(image),
            None => Err(QrError::ImageUnreadable),
        },
        None => Err(QrError::ImageUnreadable),
    }
}

/// Says what a search came to: the grid that was found, or the error that
/// tells why none was.
pub fn grid_of(search: Search) -> (grid: Result<SampledGrid, QrError>)
    ensures
        grid_view(grid) == grid_found(search@),
{
    match search.first {
        Sampled::Nothing => if search.finders < FINDERS {
            Err(QrError::NoFinderPatternsFound)
        } else {
            Err(QrError::PerspectiveEstimationFailed)
        },
        Sampled::Failed => Err(QrError::PerspectiveEstimationFailed),
        Sampled::Grid { size, cells } => match SampledGrid::new(size, cells) {
            Some(sampled) => Ok(sampled),
            None => Err(QrError::PerspectiveEstimationFailed),
        },
    }
}

/// Says what a reading came to: the payload where bytes were read, or the
/// error that tells why not.
pub fn payload_of(reading: Result<Decoded, DecodeFailure>) -> (payload: Result<Vec<u8>, QrError>)
    ensures
        payload_view(payload) == payload_read(reading_view(reading)),
{
    match reading {
        Ok(decoded) => match decoded.mode {
            Some(mode) => if mode == BYTE_MODE as i32 {
                Ok(decoded.payload)
            } else {
                Err(QrError::UnsupportedMode)
            },
            None => Err(QrError::UnsupportedMode),
        },
        Err(failure) => Err(
            match failure {
                DecodeFailure::InvalidGridSize => QrError::PerspectiveEstimationFailed,
                DecodeFailure::InvalidVersion => QrError::PerspectiveEstimationFailed,
                DecodeFailure::FormatEcc => QrError::FormatInfoUnrecoverable,
                DecodeFailure::DataEcc => QrError::EccUncorrectable,
                DecodeFailure::UnknownDataType => QrError::UnsupportedMode,
                DecodeFailure::DataOverflow => QrError::BitstreamMalformed,
                DecodeFailure::DataUnderflow => QrError::BitstreamMalformed,
            },
        ),
    }
}

/// Turns a payload into text; `PayloadNotText` where it is not UTF-8.
pub fn text_of(payload: Vec<u8>) -> (text: Result<String, QrError>)
    ensures
        text_view(text) == text_read(payload@),
{
    match text_from_utf8(payload) {
        Some(string) => Ok(string),
        None => Err(QrError::PayloadNotText),
    }
}

/// Whether a symbol can have `size` modules along one side.
pub fn symbol_size(size: i32) -> (fits: bool)
    ensures
        fits == is_symbol_size(size as int),
{
    MIN_GRID_SIZE <= size && size <= MAX_GRID_SIZE && (size - 17) % 4 == 0
}

/// Reads the payload of a sampled grid. A grid of a size that no symbol has
/// is not read: it gives `PerspectiveEstimationFailed`.
pub fn read_grid(grid: &SampledGrid) -> (payload: Result<Vec<u8>, QrError>)
    ensures
        payload_view(payload) == grid_read(grid@),
{
    if symbol_size(grid.size()) {
        payload_of(read_cells(grid.size(), grid.cells()))
    } else {
        Err(QrError::PerspectiveEstimationFailed)
    }
}

/// Decodes the symbol that a search found: says which grid it is and reads
/// its payload.
pub fn decode(search: Search) -> (payload: Result<Vec<u8>, QrError>)
    ensures
        payload_view(payload) == decoded(search@),
{
    match grid_of(search) {
        Ok(grid) => read_grid(&grid),
        Err(error) => Err(error),
    }
}

/// Scans the symbol that a search found for its text.
pub fn scan(search: Search) -> (text: Result<String, QrError>)
    ensures
        text_view(text) == scanned(search@),
{
    match decode(search) {
        Ok(payload) => text_of(payload),
        Err(error) => Err(error),
    }
}

} // verus!
