//! The backend's configuration and the parts of its camera handling that
//! decide rather than act: command-line options, the media pipelines it
//! launches, how many samples a capture pulls, and how web assets are served.
use vstd::prelude::*;

use crate::text::{chars_of, nat_text, push_chars, push_nat_text, string_from_chars};

verus! {

/// The directory z-scans are stored in unless another is given.
pub const DEFAULT_Z_SCAN_DIR: &'static str = "/tmp/microscope_zscans";

/// Options of the `serve` command.
#[derive(Debug)]
pub struct ServeOptions {
    pub z_scan_dir: String,
}

/// The commands of the backend's command line.
#[derive(Debug)]
pub enum CliCommand {
    Serve(ServeOptions),
}

/// Options of the backend when it is started without a command.
#[derive(Debug)]
pub struct Command {
    pub z_scan_dir: String,
}

impl Default for ServeOptions {
    fn default() -> (o: ServeOptions)
        ensures
            o.z_scan_dir@ == DEFAULT_Z_SCAN_DIR@,
    {
        ServeOptions { z_scan_dir: DEFAULT_Z_SCAN_DIR.to_owned() }
    }
}

impl Default for Command {
    fn default() -> (c: Command)
        ensures
            c.z_scan_dir@ == DEFAULT_Z_SCAN_DIR@,
    {
        Command { z_scan_dir: DEFAULT_Z_SCAN_DIR.to_owned() }
    }
}

/// The camera source of the microscope, with its fixed settings.
pub const CAMERA_SOURCE: &'static str = "libcamerasrc name=source \n                exposure-time-mode=manual\n                exposure-time=4000\n                awb-enable=true\n                awb-mode=daylight\n                contrast=1.0\n                saturation=1.0";

/// The test source that stands in for the camera in video.
pub const VIDEO_TEST_SOURCE: &'static str = "videotestsrc name=source is-live=true pattern=gradient";

/// The test source that stands in for the camera in photos.
pub const PHOTO_TEST_SOURCE: &'static str = "videotestsrc name=source is-live=true pattern=smpte";

/// A pipeline from `source` producing `width` x `height` I420 frames, ending
/// with `tail` after the frame rate.
pub open spec fn pipeline_text(source: Seq<char>, width: nat, height: nat, tail: Seq<char>) -> Seq<char> {
    source + "\n            ! video/x-raw,format=I420,width="@ + nat_text(width) + ",height="@ + nat_text(height) + tail
}

/// The end of the video pipeline: 20 frames per second into the frame sink.
pub open spec fn video_tail() -> Seq<char> {
    ",framerate=20/1\n            ! queue max-size-buffers=1 leaky=downstream\n            ! appsink name=sink emit-signals=false sync=false drop=true max-buffers=1 enable-last-sample=false"@
}

/// The end of the photo pipeline: 10 frames per second, JPEG encoded, into
/// the frame sink.
pub open spec fn photo_tail() -> Seq<char> {
    ",framerate=10/1\n            ! queue max-size-buffers=1 leaky=downstream\n            ! jpegenc\n            ! appsink name=sink emit-signals=false sync=false drop=true max-buffers=1 enable-last-sample=false"@
}

fn pipeline(source: &str, width: u32, height: u32, tail: &str) -> (s: String)
    ensures
        s@ == pipeline_text(source@, width as nat, height as nat, tail@),
{
    let mut v = chars_of(source);
    let head = chars_of("\n            ! video/x-raw,format=I420,width=");
    push_chars(&mut v, head.as_slice());
    push_nat_text(&mut v, width as u64);
    let mid = chars_of(",height=");
    push_chars(&mut v, mid.as_slice());
    push_nat_text(&mut v, height as u64);
    let t = chars_of(tail);
    push_chars(&mut v, t.as_slice());
    string_from_chars(&v)
}

/// The pipeline of the live video from `source_element`.
pub fn video_pipeline_string(source_element: &str, width: u32, height: u32) -> (s: String)
    ensures
        s@ == pipeline_text(source_element@, width as nat, height as nat, video_tail()),
{
    pipeline(source_element, width, height, ",framerate=20/1\n            ! queue max-size-buffers=1 leaky=downstream\n            ! appsink name=sink emit-signals=false sync=false drop=true max-buffers=1 enable-last-sample=false")
}

/// The pipeline of a photo from `source_element`.
pub fn photo_pipeline_string(source_element: &str, width: u32, height: u32) -> (s: String)
    ensures
        s@ == pipeline_text(source_element@, width as nat, height as nat, photo_tail()),
{
    pipeline(source_element, width, height, ",framerate=10/1\n            ! queue max-size-buffers=1 leaky=downstream\n            ! jpegenc\n            ! appsink name=sink emit-signals=false sync=false drop=true max-buffers=1 enable-last-sample=false")
}

/// Why a capture cannot start.
#[derive(Debug, Clone, Copy, PartialEq, Eq, Structural)]
pub enum SampleError {
    /// A capture must keep at least one sample.
    NoSamples,
}

/// What a capture does next.
#[derive(Debug, Clone, Copy, PartialEq, Eq, Structural)]
pub enum SampleStep {
    /// Pull the next sample from the sink.
    Pull,
    /// The operation was cancelled; the capture fails.
    Cancelled,
    /// The last sample pulled is the result.
    Done,
}

/// A capture that keeps the `n`-th sample of the sink: the first sample is
/// pulled at once, each further one only while the operation is not cancelled.
#[derive(Debug)]
pub struct SampleCountdown {
    total: u32,
    pulled: u32,
    stopped: bool,
}

impl SampleCountdown {
    pub closed spec fn total(&self) -> nat {
        self.total as nat
    }

    pub closed spec fn pulled(&self) -> nat {
        self.pulled as nat
    }

    /// The capture has ended (done or cancelled).
    pub closed spec fn stopped(&self) -> bool {
        self.stopped
    }

    pub closed spec fn wf(&self) -> bool {
        0 < self.total && self.pulled <= self.total
    }

    /// A capture of the `n`-th sample; `n` must not be zero.
    pub fn start(n: u32) -> (r: Result<SampleCountdown, SampleError>)
        ensures
            n == 0 <==> r is Err,
            r is Err ==> r == Err::<SampleCountdown, SampleError>(SampleError::NoSamples),
            r matches Ok(c) ==> c.wf() && c.total() == n && c.pulled() == 0 && !c.stopped(),
    {
        if n == 0 {
            Err(SampleError::NoSamples)
        } else {
            Ok(SampleCountdown { total: n, pulled: 0, stopped: false })
        }
    }

    /// The next step, given whether the operation has been cancelled.
    pub fn next(&mut self, cancelled: bool) -> (step: SampleStep)
        requires
            old(self).wf(),
        ensures
            final(self).wf(),
            final(self).total() == old(self).total(),
            step == (if old(self).stopped() || old(self).pulled() == old(self).total() {
                SampleStep::Done
            } else if old(self).pulled() > 0 && cancelled {
                SampleStep::Cancelled
            } else {
                SampleStep::Pull
            }),
            final(self).pulled() == old(self).pulled() + (if step == SampleStep::Pull {
                1int
            } else {
                0int
            }),
            final(self).stopped() == (old(self).stopped() || step != SampleStep::Pull),
    {
        if self.stopped || self.pulled == self.total {
            self.stopped = true;
            SampleStep::Done
        } else if self.pulled > 0 && cancelled {
            self.stopped = true;
            SampleStep::Cancelled
        } else {
            self.pulled = self.pulled + 1;
            SampleStep::Pull
        }
    }
}

/// The asset path of a request: the path without its leading slashes.
pub open spec fn asset_path_text(path: Seq<char>) -> Seq<char>
    decreases path.len(),
{
    if path.len() > 0 && path[0] == '/' {
        asset_path_text(path.drop_first())
    } else {
        path
    }
}

/// The path of the asset a request asks for.
pub fn asset_path(path: &str) -> (p: String)
    ensures
        p@ == asset_path_text(path@),
{
    let chars = chars_of(path);
    let mut i: usize = 0;
    proof {
        assert(chars@.skip(0) =~= chars@);
    }
    while i < chars.len() && chars[i] == '/'
        invariant
            i <= chars@.len(),
            asset_path_text(chars@) == asset_path_text(chars@.skip(i as int)),
        decreases chars.len() - i,
    {
        proof {
            assert(chars@.skip(i as int).drop_first() =~= chars@.skip(i + 1));
        }
        i = i + 1;
    }
    let mut v: Vec<char> = Vec::new();
    push_chars(&mut v, &chars.as_slice()[i..chars.len()]);
    proof {
        assert(chars@.skip(0) =~= chars@);
        assert(v@ =~= chars@.skip(i as int));
    }
    string_from_chars(&v)
}

/// Which asset answers a request.
#[derive(Debug, Clone, Copy, PartialEq, Eq, Structural)]
pub enum AssetChoice {
    /// The asset asked for.
    File,
    /// The single-page application's `index.html`, for any other path.
    Index,
    /// Neither exists.
    NotFound,
}

/// The asset asked for when it exists, else the index page when it exists.
pub fn choose_asset(file_found: bool, index_found: bool) -> (c: AssetChoice)
    ensures
        c == (if file_found {
            AssetChoice::File
        } else if index_found {
            AssetChoice::Index
        } else {
            AssetChoice::NotFound
        }),
{
    if file_found {
        AssetChoice::File
    } else if index_found {
        AssetChoice::Index
    } else {
        AssetChoice::NotFound
    }
}

/// The caching policy of an asset: HTML pages are always fetched anew, other
/// assets are kept for a year.
pub fn cache_control(is_html: bool) -> (s: &'static str)
    ensures
        s@ == (if is_html {
            "no-cache"@
        } else {
            "public, max-age=31536000, immutable"@
        }),
{
    if is_html {
        "no-cache"
    } else {
        "public, max-age=31536000, immutable"
    }
}

/// The name a photo is downloaded as: `microscope-` and the time it was
/// taken.
pub open spec fn photo_file_text(stamp: Seq<char>) -> Seq<char> {
    "microscope-"@ + stamp + ".jpg"@
}

/// The name a photo taken at `stamp` (year, month, day, `-`, hours, minutes,
/// seconds) is downloaded as.
pub fn photo_file_name(stamp: &str) -> (name: String)
    ensures
        name@ == photo_file_text(stamp@),
{
    let mut v = chars_of("microscope-");
    let s = chars_of(stamp);
    push_chars(&mut v, s.as_slice());
    let e = chars_of(".jpg");
    push_chars(&mut v, e.as_slice());
    string_from_chars(&v)
}

/// The header value that makes a browser save a download as `file_name`.
pub open spec fn attachment_text(file_name: Seq<char>) -> Seq<char> {
    "attachment; filename=\""@ + file_name + "\""@
}

/// The `Content-Disposition` of a download saved as `file_name`.
pub fn attachment_disposition(file_name: &str) -> (h: String)
    ensures
        h@ == attachment_text(file_name@),
{
    let mut v = chars_of("attachment; filename=\"");
    let s = chars_of(file_name);
    push_chars(&mut v, s.as_slice());
    let e = chars_of("\"");
    push_chars(&mut v, e.as_slice());
    string_from_chars(&v)
}

} // verus!
