//! Parameters of the frame source: the size of the screen that is captured
//! and the square region of it that is looked at.

use vstd::prelude::*;

verus! {

/// Why a capture parameter was refused.
#[derive(Clone, Copy, Debug, PartialEq, Eq, Structural)]
pub enum CaptureError {
    /// A width or a height is zero or negative.
    NonPositiveSize,
}

/// Capture resolution, in pixels.
#[derive(Clone, Copy, Debug, PartialEq, Eq, Structural)]
pub struct ScreenSize {
    pub width: i32,
    pub height: i32,
}

impl ScreenSize {
    /// A size is made of a positive width and a positive height.
    pub fn new(width: i32, height: i32) -> (r: Result<Self, CaptureError>)
        ensures
            r == if width > 0 && height > 0 {
                Ok::<ScreenSize, CaptureError>(ScreenSize { width, height })
            } else {
                Err::<ScreenSize, CaptureError>(CaptureError::NonPositiveSize)
            },
    {
        if width > 0 && height > 0 {
            Ok(ScreenSize { width, height })
        } else {
            Err(CaptureError::NonPositiveSize)
        }
    }
}

/// Half of `v`, rounded toward zero.
pub open spec fn half(v: i32) -> int {
    if v >= 0 {
        v / 2
    } else {
        -((-v) / 2)
    }
}

fn half_of(v: i32) -> (h: i32)
    ensures
        h == half(v),
{
    if v >= 0 {
        v / 2
    } else if v == i32::MIN {
        -1073741824
    } else {
        -((-v) / 2)
    }
}

/// A rectangle within a frame.
#[derive(Clone, Copy, Debug, PartialEq, Eq, Structural)]
pub struct Roi {
    pub x: i32,
    pub y: i32,
    pub width: i32,
    pub height: i32,
}

impl Roi {
    /// The square of side `region` whose centre is the centre of the screen.
    pub open spec fn spec_centered(region: i32, screen: ScreenSize) -> Roi {
        Roi {
            x: (half(screen.width) - half(region)) as i32,
            y: (half(screen.height) - half(region)) as i32,
            width: region,
            height: region,
        }
    }

    pub fn centered(region: i32, screen: ScreenSize) -> (roi: Roi)
        ensures
            roi == Self::spec_centered(region, screen),
            roi.x == half(screen.width) - half(region),
            roi.y == half(screen.height) - half(region),
    {
        let h = half_of(region);
        Roi { x: half_of(screen.width) - h, y: half_of(screen.height) - h, width: region, height: region }
    }
}

/// What a capture card is asked for: which device, at which resolution, and
/// which part of each frame is kept.
#[derive(Clone, Copy, Debug, PartialEq, Eq, Structural)]
pub struct CardCapture {
    /// Index of the capture device.
    pub index: i32,
    /// Resolution asked of the device.
    pub screen: ScreenSize,
    /// Region of interest inside each frame.
    pub roi: Roi,
}

impl CardCapture {
    /// - `index`: index of the capture device.
    /// - `region`: side of the square region of interest, which lies in the
    ///   middle of the screen.
    /// - `screen`: resolution asked of the device.
    pub fn new(index: i32, region: i32, screen: ScreenSize) -> (card: Self)
        ensures
            card == (CardCapture { index, screen, roi: Roi::spec_centered(region, screen) }),
    {
        CardCapture { index, screen, roi: Roi::centered(region, screen) }
    }
}

/// Capture of a monitor's screen.
#[derive(Clone, Copy, Debug, PartialEq, Eq, Structural)]
pub struct ScreenCapture;

impl ScreenCapture {
    /// A capture of the monitor `index` (0 is the primary one), for the
    /// region and the screen size given.
    pub fn new(index: i32, region: i32, screen: ScreenSize) -> (r: Self)
        ensures
            r == ScreenCapture,
    {
        ScreenCapture
    }
}

/// The text without the white space at its two ends, as `str::trim` of the
/// standard library gives it.
pub uninterp spec fn trimmed(s: Seq<char>) -> Seq<char>;

/// The number that `str::parse::<i32>` of the standard library reads from the
/// text, or `None` where it reports an error.
pub uninterp spec fn parsed_i32(s: Seq<char>) -> Option<i32>;

/// Calls `str::trim`. The slice returned is the one named `trimmed`.
#[verifier::external_body]
fn trim(s: &str) -> (t: &str)
    ensures
        t@ == trimmed(s@),
{
    s.trim()
}

/// Calls `str::parse::<i32>` and drops the error's detail. The result is the
/// one named `parsed_i32`.
#[verifier::external_body]
fn parse_i32(s: &str) -> (r: Option<i32>)
    ensures
        r == parsed_i32(s@),
{
    s.parse::<i32>().ok()
}

/// The capture device that was asked for: the number read, or the first
/// device where none was.
pub open spec fn spec_index_or_first(parsed: Option<i32>) -> i32 {
    match parsed {
        Some(v) => v,
        None => 0,
    }
}

#[verifier::when_used_as_spec(spec_index_or_first)]
pub fn index_or_first(parsed: Option<i32>) -> (index: i32)
    ensures
        index == spec_index_or_first(parsed),
{
    match parsed {
        Some(v) => v,
        None => 0,
    }
}

/// Reads the index of a capture device from a line of input: the number
/// that the line holds between white space, or 0 where it holds none.
pub fn card_index(line: &str) -> (index: i32)
    ensures
        index == spec_index_or_first(parsed_i32(trimmed(line@))),
{
    index_or_first(parse_i32(trim(line)))
}

} // verus!
