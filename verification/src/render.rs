//! What a rendered banner can look like, and how failures of the
//! rendering steps are reported.

use vstd::prelude::*;
use vstd::string::*;
use crate::error::TimeBannerError;
use crate::text::{chars_of, slice_is};

verus! {

/// Output format of a rendered banner.
#[derive(Debug, Clone, Copy, PartialEq, Eq, Structural)]
pub enum OutputFormat {
    Svg,
    Png,
}

/// The format that a file extension asks for: PNG for `png`, SVG for
/// anything else.
pub open spec fn format_of_extension(ext: Seq<char>) -> OutputFormat {
    if ext == "png"@ {
        OutputFormat::Png
    } else {
        OutputFormat::Svg
    }
}

/// The format that a MIME type asks for: PNG for `image/png`, SVG for
/// anything else.
pub open spec fn format_of_mime_type(mime_type: Seq<char>) -> OutputFormat {
    if mime_type == "image/png"@ {
        OutputFormat::Png
    } else {
        OutputFormat::Svg
    }
}

/// The MIME type under which a format is served.
pub open spec fn mime_type_of(format: OutputFormat) -> Seq<char> {
    match format {
        OutputFormat::Svg => "image/svg+xml"@,
        OutputFormat::Png => "image/png"@,
    }
}

impl OutputFormat {
    /// Determines the output format from a file extension. Unknown
    /// extensions give SVG.
    pub fn from_extension(ext: &str) -> (r: OutputFormat)
        ensures
            r == format_of_extension(ext@),
    {
        let chars = chars_of(ext);
        assert(chars@.subrange(0, chars.len() as int) =~= ext@);
        if slice_is(&chars, 0, chars.len(), "png") {
            OutputFormat::Png
        } else {
            OutputFormat::Svg
        }
    }

    /// Determines the output format from a MIME type. Unknown types give
    /// SVG.
    pub fn from_mime_type(mime_type: &str) -> (r: OutputFormat)
        ensures
            r == format_of_mime_type(mime_type@),
    {
        let chars = chars_of(mime_type);
        assert(chars@.subrange(0, chars.len() as int) =~= mime_type@);
        if slice_is(&chars, 0, chars.len(), "image/png") {
            OutputFormat::Png
        } else {
            OutputFormat::Svg
        }
    }

    /// The MIME type for HTTP responses.
    pub fn mime_type(&self) -> (r: &'static str)
        ensures
            r@ == mime_type_of(*self),
    {
        match self {
            OutputFormat::Svg => "image/svg+xml",
            OutputFormat::Png => "image/png",
        }
    }
}

/// How a time value is displayed.
#[derive(Debug, Clone, Copy, PartialEq, Eq, Structural)]
pub enum OutputForm {
    /// Relative display: "2 hours ago", "in 3 days".
    Relative,
    /// Absolute display: "2025-01-17 14:30:00 UTC".
    Absolute,
    /// An analog clock whose hands show the time.
    Clock,
}

/// The template that renders a display form: the clock has its own, the
/// other forms share the one that holds a line of text.
pub open spec fn template_of(form: OutputForm) -> Seq<char> {
    match form {
        OutputForm::Relative => "basic.svg"@,
        OutputForm::Absolute => "basic.svg"@,
        OutputForm::Clock => "clock.svg"@,
    }
}

impl OutputForm {
    /// The name of the template that renders this form.
    pub fn template_name(&self) -> (r: &'static str)
        ensures
            r@ == template_of(*self),
    {
        match self {
            OutputForm::Relative => "basic.svg",
            OutputForm::Absolute => "basic.svg",
            OutputForm::Clock => "clock.svg",
        }
    }
}

/// The ways in which a timezone can be named.
#[derive(Debug, Clone, PartialEq, Eq)]
pub enum TzForm {
    /// An abbreviation such as `CST`.
    Abbreviation(String),
    /// A zone name such as `America/Chicago`.
    Iso(String),
    /// Seconds east of UTC.
    Offset(i32),
}

/// A failure of the conversion from SVG to a raster image.
#[derive(Debug, Clone, PartialEq, Eq)]
pub struct RenderError {
    pub message: Option<String>,
}

/// The text that describes a rendering failure.
pub open spec fn render_error_text(message: Option<Seq<char>>) -> Seq<char> {
    match message {
        Some(m) => "RenderError: "@ + m,
        None => "RenderError"@,
    }
}

/// The detail that is reported for a rasterizing failure.
pub open spec fn rasterize_detail(message: Option<Seq<char>>) -> Seq<char> {
    match message {
        Some(m) => m,
        None => "Unknown error"@,
    }
}

/// The message of a rendering failure, if it has one.
pub open spec fn message_view(message: Option<String>) -> Option<Seq<char>> {
    match message {
        Some(m) => Some(m@),
        None => None,
    }
}

impl RenderError {
    /// The text that describes the failure.
    pub fn describe(&self) -> (r: String)
        ensures
            r@ == render_error_text(message_view(self.message)),
    {
        match &self.message {
            Some(m) => String::from_str("RenderError: ").concat(m.as_str()),
            None => String::from_str("RenderError"),
        }
    }
}

/// What the rasterizing step hands on: the image, or the application error
/// that reports why there is none.
pub fn rasterize_outcome(raw_image: Result<Vec<u8>, RenderError>) -> (r: Result<
    Vec<u8>,
    TimeBannerError,
>)
    ensures
        match raw_image {
            Ok(image) => r == Ok::<Vec<u8>, TimeBannerError>(image),
            Err(err) => r matches Err(TimeBannerError::RasterizeError(m)) && m@
                == rasterize_detail(message_view(err.message)),
        },
{
    match raw_image {
        Ok(image) => Ok(image),
        Err(err) => match err.message {
            Some(m) => Err(TimeBannerError::RasterizeError(m)),
            None => Err(TimeBannerError::RasterizeError(String::from_str("Unknown error"))),
        },
    }
}

/// The application error that reports a failure of the template engine.
pub fn template_failure(detail: &str) -> (r: TimeBannerError)
    ensures
        r matches TimeBannerError::RenderError(m) && m@ == "Template rendering failed: "@
            + detail@,
{
    TimeBannerError::RenderError(String::from_str("Template rendering failed: ").concat(detail))
}

/// The steps of the conversion of a PNG image into an ICO file.
#[derive(Debug, Clone, Copy, PartialEq, Eq, Structural)]
pub enum IconStep {
    /// Decoding the PNG data.
    ReadPng,
    /// Encoding the image as an entry of the icon directory.
    EncodeEntry,
    /// Writing the icon directory.
    WriteIco,
}

/// What is reported when `step` fails with `detail`.
pub open spec fn icon_failure_text(step: IconStep, detail: Seq<char>) -> Seq<char> {
    match step {
        IconStep::ReadPng => "Failed to read PNG data: "@ + detail,
        IconStep::EncodeEntry => "Failed to encode icon entry: "@ + detail,
        IconStep::WriteIco => "Failed to write ICO data: "@ + detail,
    }
}

/// The message that reports the failure of a step of the conversion.
pub fn icon_failure(step: IconStep, detail: &str) -> (r: String)
    ensures
        r@ == icon_failure_text(step, detail@),
{
    match step {
        IconStep::ReadPng => String::from_str("Failed to read PNG data: ").concat(detail),
        IconStep::EncodeEntry => String::from_str("Failed to encode icon entry: ").concat(detail),
        IconStep::WriteIco => String::from_str("Failed to write ICO data: ").concat(detail),
    }
}

/// The application error that reports a failed conversion into an ICO file.
pub fn icon_conversion_failure(message: &str) -> (r: TimeBannerError)
    ensures
        r matches TimeBannerError::RenderError(m) && m@ == "Failed to convert PNG to ICO: "@
            + message@,
{
    TimeBannerError::RenderError(String::from_str("Failed to convert PNG to ICO: ").concat(message))
}

} // verus!
