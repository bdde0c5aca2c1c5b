//! What the library knows of the screens and of what was captured from them.
//!
//! Enumerating the screens and grabbing their pixels is the caller's part.
//! The library keeps the list, answers questions about it, checks a request
//! against it, and turns the raw pixels of a capture into an image.

use vstd::prelude::*;
use vstd::string::*;
use crate::error::{AppError, AppErrorView};
use crate::image_processing::{image_height, image_width};
use crate::text::{append_decimal, decimal_digits};

verus! {

/// What is reported where the list of screens is empty.
pub const NO_SCREENS_MESSAGE: &'static str = "No screens detected";

/// What is reported where the pixels of a capture do not fill its size.
pub const BAD_BUFFER_MESSAGE: &'static str = "Failed to create image buffer";

/// One screen, as the system describes it.
#[derive(Debug)]
pub struct ScreenInfo {
    /// The width in pixels.
    pub width: u32,
    /// The height in pixels.
    pub height: u32,
    /// The scale factor, in the system's own notation.
    pub scale: String,
}

/// The pixels of one capture: rows of RGBA, four bytes a pixel.
#[derive(Debug)]
pub struct CapturedFrame {
    pub width: u32,
    pub height: u32,
    pub rgba: Vec<u8>,
}

/// What was to be captured.
#[derive(Clone, Copy, Debug, PartialEq, Eq, Structural)]
pub enum CaptureTarget {
    /// A whole screen.
    Screen,
    /// A region of the primary screen.
    Region,
}

impl CaptureTarget {
    /// What the report of a failed capture begins with.
    pub open spec fn failure_prefix(self) -> Seq<char> {
        match self {
            CaptureTarget::Screen => "Failed to capture screen: "@,
            CaptureTarget::Region => "Failed to capture region: "@,
        }
    }
}

/// The screens that can be captured.
pub struct ScreenCapturer {
    pub screens: Vec<ScreenInfo>,
}

/// The line that describes the screen with the given index.
pub open spec fn screen_line(index: nat, width: u32, height: u32, scale: Seq<char>) -> Seq<char> {
    "Monitor "@ + decimal_digits(index) + ": "@ + decimal_digits(width as nat) + "x"@
        + decimal_digits(height as nat) + " (scale: "@ + scale + ")"@
}

/// The error with which setting up fails for an outcome of enumerating the
/// screens, if it fails: the cause where enumerating failed, and a message
/// of its own where no screen was found.
pub open spec fn enumeration_error(enumerated: Result<Vec<ScreenInfo>, String>) -> Option<
    AppErrorView,
> {
    match enumerated {
        Ok(screens) => if screens@.len() > 0 {
            None
        } else {
            Some(AppErrorView::ScreenCapture(NO_SCREENS_MESSAGE@))
        },
        Err(reason) => Some(
            AppErrorView::ScreenCapture("Failed to enumerate screens: "@ + reason@),
        ),
    }
}

/// `ImageBuffer::from_raw` for pixels of four 8-bit channels, wrapped as
/// `DynamicImage::ImageRgba8`: an image of the given size over the buffer,
/// or nothing where the buffer holds fewer than `4 * width * height` bytes.
#[verifier::external_body]
fn rgba_image(width: u32, height: u32, rgba: Vec<u8>) -> (r: Option<image::DynamicImage>)
    ensures
        r is Some <==> 4 * width * height <= rgba@.len(),
        r matches Some(img) ==> image_width(&img) == width && image_height(&img) == height,
{
    match image::RgbaImage::from_raw(width, height, rgba) {
        Some(buffer) => Some(image::DynamicImage::ImageRgba8(buffer)),
        None => None,
    }
}

fn describe(index: usize, info: &ScreenInfo) -> (line: String)
    ensures
        line@ == screen_line(index as nat, info.width, info.height, info.scale@),
{
    let mut line = "Monitor ".to_owned();
    append_decimal(&mut line, index as u64);
    line.append(": ");
    append_decimal(&mut line, info.width as u64);
    line.append("x");
    append_decimal(&mut line, info.height as u64);
    line.append(" (scale: ");
    line.append(info.scale.as_str());
    line.append(")");
    line
}

impl ScreenCapturer {
    /// Whether there is a screen to capture.
    pub open spec fn wf(self) -> bool {
        self.screens@.len() > 0
    }

    /// Takes over the outcome of enumerating the screens: the list, or the
    /// reason why there is none. An empty list is an error too.
    pub fn new(enumerated: Result<Vec<ScreenInfo>, String>) -> (r: Result<ScreenCapturer, AppError>)
        ensures
            match enumeration_error(enumerated) {
                None => r matches Ok(c) && c.screens == enumerated->Ok_0 && c.wf(),
                Some(error) => r matches Err(e) && e@ == error,
            },
    {
        match enumerated {
            Ok(screens) => {
                if screens.len() == 0 {
                    Err(AppError::capture(NO_SCREENS_MESSAGE))
                } else {
                    Ok(ScreenCapturer { screens })
                }
            },
            Err(reason) => Err(
                AppError::ScreenCapture(
                    "Failed to enumerate screens: ".to_owned().concat(reason.as_str()),
                ),
            ),
        }
    }

    /// One line for each screen, in order: index, size and scale.
    pub fn list_screen(&self) -> (lines: Vec<String>)
        ensures
            lines@.len() == self.screens@.len(),
            forall|i: int|
                0 <= i < lines@.len() ==> (#[trigger] lines@[i])@ == screen_line(
                    i as nat,
                    self.screens@[i].width,
                    self.screens@[i].height,
                    self.screens@[i].scale@,
                ),
    {
        let mut lines: Vec<String> = Vec::new();
        let mut i: usize = 0;
        while i < self.screens.len()
            invariant
                i <= self.screens@.len(),
                lines@.len() == i,
                forall|j: int|
                    0 <= j < i ==> (#[trigger] lines@[j])@ == screen_line(
                        j as nat,
                        self.screens@[j].width,
                        self.screens@[j].height,
                        self.screens@[j].scale@,
                    ),
            decreases self.screens@.len() - i,
        {
            lines.push(describe(i, &self.screens[i]));
            i += 1;
        }
        lines
    }

    /// The number of screens.
    pub fn screen_count(&self) -> (n: usize)
        ensures
            n == self.screens@.len(),
    {
        self.screens.len()
    }

    /// The size of the primary screen, which is the first.
    pub fn primary_screen_dimensions(&self) -> (d: Option<(u32, u32)>)
        ensures
            d == if self.screens@.len() > 0 {
                Some((self.screens@[0].width, self.screens@[0].height))
            } else {
                None
            },
    {
        if self.screens.len() > 0 {
            Some((self.screens[0].width, self.screens[0].height))
        } else {
            None
        }
    }

    /// Checks that there is a screen with the given index.
    pub fn check_index(&self, index: usize) -> (r: Result<(), AppError>)
        ensures
            index < self.screens@.len() ==> r is Ok,
            index >= self.screens@.len() ==> (r matches Err(e) && e@
                == AppErrorView::ScreenNotFound(index)),
    {
        if index < self.screens.len() {
            Ok(())
        } else {
            Err(AppError::ScreenNotFound(index))
        }
    }

    /// Turns the outcome of a capture into an image: an image of the frame's
    /// size where the frame holds enough bytes for it, and an error where it
    /// does not or where the capture itself failed.
    pub fn image_from_capture(target: CaptureTarget, captured: Result<CapturedFrame, String>) -> (r:
        Result<image::DynamicImage, AppError>)
        ensures
            match captured {
                Ok(frame) => if 4 * frame.width * frame.height <= frame.rgba@.len() {
                    r matches Ok(img) && image_width(&img) == frame.width && image_height(&img)
                        == frame.height
                } else {
                    r matches Err(e) && e@ == AppErrorView::ScreenCapture(BAD_BUFFER_MESSAGE@)
                },
                Err(reason) => r matches Err(e) && e@ == AppErrorView::ScreenCapture(
                    target.failure_prefix() + reason@,
                ),
            },
    {
        match captured {
            Ok(frame) => {
                match rgba_image(frame.width, frame.height, frame.rgba) {
                    Some(img) => Ok(img),
                    None => Err(AppError::capture(BAD_BUFFER_MESSAGE)),
                }
            },
            Err(reason) => {
                let prefix = match target {
                    CaptureTarget::Screen => "Failed to capture screen: ",
                    CaptureTarget::Region => "Failed to capture region: ",
                };
                Err(AppError::ScreenCapture(prefix.to_owned().concat(reason.as_str())))
            },
        }
    }
}

} // verus!
