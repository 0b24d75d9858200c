//! The settings of one rendering job.

use vstd::prelude::*;

use crate::float64::Float64;
use crate::text;

verus! {

/// How a video is to be rendered.
#[derive(Debug)]
pub struct RenderOptions {
    pub codec: String,
    pub codec_options: String,
    pub output_path: String,
    /// Where rendering begins, as a fraction of the video.
    pub trim_start: Float64,
    /// Where rendering ends, as a fraction of the video.
    pub trim_end: Float64,
    pub output_width: usize,
    pub output_height: usize,
    /// In megabits per second.
    pub bitrate: Float64,
    pub use_gpu: bool,
    pub audio: bool,
    pub pixel_format: String,
}

/// What a `RenderOptions` holds.
#[verifier::ext_equal]
pub struct RenderOptionsView {
    pub codec: Seq<char>,
    pub codec_options: Seq<char>,
    pub output_path: Seq<char>,
    pub trim_start: Float64,
    pub trim_end: Float64,
    pub output_width: usize,
    pub output_height: usize,
    pub bitrate: Float64,
    pub use_gpu: bool,
    pub audio: bool,
    pub pixel_format: Seq<char>,
}

impl View for RenderOptions {
    type V = RenderOptionsView;

    open spec fn view(&self) -> RenderOptionsView {
        RenderOptionsView {
            codec: self.codec@,
            codec_options: self.codec_options@,
            output_path: self.output_path@,
            trim_start: self.trim_start,
            trim_end: self.trim_end,
            output_width: self.output_width,
            output_height: self.output_height,
            bitrate: self.bitrate,
            use_gpu: self.use_gpu,
            audio: self.audio,
            pixel_format: self.pixel_format@,
        }
    }
}

impl RenderOptionsView {
    /// The options that leave everything open.
    pub open spec fn blank() -> RenderOptionsView {
        RenderOptionsView {
            codec: seq![],
            codec_options: seq![],
            output_path: seq![],
            trim_start: Float64::spec_zero(),
            trim_end: Float64::spec_zero(),
            output_width: 0,
            output_height: 0,
            bitrate: Float64::spec_zero(),
            use_gpu: false,
            audio: false,
            pixel_format: seq![],
        }
    }

    /// The codec with the setting that matters for it: the bitrate for `x264` and `x265`,
    /// the profile for `ProRes`, nothing for any other codec.
    pub open spec fn codec_info(self, bitrate: Seq<char>) -> Seq<char> {
        if self.codec == "x264"@ || self.codec == "x265"@ {
            self.codec + " "@ + bitrate + " Mbps"@
        } else if self.codec == "ProRes"@ {
            self.codec + " "@ + self.codec_options
        } else {
            self.codec
        }
    }

    /// The one-line summary of the options: size, frame rate and codec.
    pub open spec fn settings(self, fps: Seq<char>, bitrate: Seq<char>) -> Seq<char> {
        text::decimal(self.output_width as nat) + "x"@ + text::decimal(self.output_height as nat)
            + " "@ + fps + "fps | "@ + self.codec_info(bitrate)
    }
}

/// The summary of options names the size, the frame rate and the codec, with the bitrate for
/// `x264` and `x265`, with the codec's own options for `ProRes`, and with nothing else for any
/// other codec.
pub proof fn law_summary_names_size_rate_and_codec(
    options: RenderOptionsView,
    fps: Seq<char>,
    bitrate: Seq<char>,
)
    ensures
        ({
            let front = text::decimal(options.output_width as nat) + "x"@ + text::decimal(
                options.output_height as nat,
            ) + " "@ + fps + "fps | "@;
            let summary = options.settings(fps, bitrate);
            if options.codec == "x264"@ || options.codec == "x265"@ {
                summary == front + (options.codec + " "@ + bitrate + " Mbps"@)
            } else if options.codec == "ProRes"@ {
                summary == front + (options.codec + " "@ + options.codec_options)
            } else {
                summary == front + options.codec
            }
        }),
{
}

/// The options that leave everything open hold empty texts, zeros and nothing turned on.
pub proof fn law_blank_options_are_empty()
    ensures
        ({
            let options = RenderOptionsView::blank();
            &&& options.codec.len() == 0
            &&& options.codec_options.len() == 0
            &&& options.output_path.len() == 0
            &&& options.pixel_format.len() == 0
            &&& options.trim_start.bits == 0
            &&& options.trim_end.bits == 0
            &&& options.bitrate.bits == 0
            &&& options.output_width == 0
            &&& options.output_height == 0
            &&& !options.use_gpu
            &&& !options.audio
        }),
{
}

impl Default for RenderOptions {
    fn default() -> (options: RenderOptions)
        ensures
            options@ == RenderOptionsView::blank(),
    {
        RenderOptions {
            codec: String::new(),
            codec_options: String::new(),
            output_path: String::new(),
            trim_start: Float64::zero(),
            trim_end: Float64::zero(),
            output_width: 0,
            output_height: 0,
            bitrate: Float64::zero(),
            use_gpu: false,
            audio: false,
            pixel_format: String::new(),
        }
    }
}

impl Clone for RenderOptions {
    fn clone(&self) -> (copy: RenderOptions)
        ensures
            copy == *self,
    {
        RenderOptions {
            codec: self.codec.clone(),
            codec_options: self.codec_options.clone(),
            output_path: self.output_path.clone(),
            trim_start: self.trim_start,
            trim_end: self.trim_end,
            output_width: self.output_width,
            output_height: self.output_height,
            bitrate: self.bitrate,
            use_gpu: self.use_gpu,
            audio: self.audio,
            pixel_format: self.pixel_format.clone(),
        }
    }
}

impl RenderOptions {
    /// A summary such as `1920x1080 29.970fps | x264 100 Mbps`.
    ///
    /// `fps` is the frame rate in decimal with three places, `bitrate` the bitrate
    /// rounded to a whole number.
    pub fn settings_string(&self, fps: &str, bitrate: &str) -> (summary: String)
        ensures
            summary@ == self@.settings(fps@, bitrate@),
    {
        let mut codec_info = self.codec.clone();
        if text::same_text(&self.codec, "x264") || text::same_text(&self.codec, "x265") {
            codec_info.append(" ");
            codec_info.append(bitrate);
            codec_info.append(" Mbps");
        } else if text::same_text(&self.codec, "ProRes") {
            codec_info.append(" ");
            codec_info.append(&self.codec_options);
        }
        let mut summary = text::decimal_text(self.output_width);
        summary.append("x");
        summary.append(&text::decimal_text(self.output_height));
        summary.append(" ");
        summary.append(fps);
        summary.append("fps | ");
        summary.append(&codec_info);
        summary
    }
}

} // verus!
