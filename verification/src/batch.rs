//! Cropping a batch of image files in place.
//!
//! The batch is worked off file by file. The library says what is to be
//! done next ([`CropStep`]); the caller opens or saves the file and reports
//! how that went. A file that cannot be opened, cropped or saved is left
//! out and the batch goes on with the next one.
use vstd::prelude::*;
use vstd::string::StrSliceExecFns;
use vstd::string::StringExecFns;
use crate::crop::CropRectParams;
use crate::crop::CropSkip;
use crate::frame::Frame;
use crate::text::decimal;
use crate::text::format_u64;
use crate::text::outcome_text;
use crate::text::texts;

verus! {

/// The path under which a file is opened: the path as given, without a
/// leading `\\?\`.
pub open spec fn openable_path(path: Seq<char>) -> Seq<char> {
    if path.len() >= 4 && path[0] == '\\' && path[1] == '\\' && path[2] == '?' && path[3] == '\\' {
        path.subrange(4, path.len() as int)
    } else {
        path
    }
}

/// What a batch reports in the end, from the number of files cropped and
/// the number of files given.
pub open spec fn summary(cropped: nat, total: nat) -> Result<Seq<char>, Seq<char>> {
    if cropped == total && total > 0 {
        Ok("Successfully cropped "@ + decimal(cropped) + " files."@)
    } else if cropped > 0 {
        Ok(
            "Partially successful: cropped "@ + decimal(cropped) + " out of "@ + decimal(total)
                + " files. Check logs for errors."@,
        )
    } else if total == 0 {
        Ok("No files to crop."@)
    } else {
        Err("Failed to crop any files. Check logs for errors."@)
    }
}

/// What a batch reports when the rectangle covers no pixel.
pub open spec fn zero_dimensions_error() -> Seq<char> {
    "Crop dimensions (width and height) cannot be zero."@
}

/// What is said of a file that is left out because the rectangle cannot be
/// applied to its image: `path` is the file's path as given, the image is
/// `image_width` by `image_height` pixels.
pub open spec fn skip_text(
    rect: CropRectParams,
    path: Seq<char>,
    image_width: u32,
    image_height: u32,
    skip: CropSkip,
) -> Seq<char> {
    match skip {
        CropSkip::OriginOutside => "Crop X ("@ + decimal(rect.x as nat) + ") or Y ("@ + decimal(
            rect.y as nat,
        ) + ") is out of bounds for image "@ + path + " ("@ + decimal(image_width as nat) + "x"@
            + decimal(image_height as nat) + ")."@,
        CropSkip::EmptyArea => "Calculated final crop width or height is zero for image "@ + path
            + ". Skipping."@,
    }
}

/// A batch fails as a whole only where files were given and none was
/// cropped.
pub proof fn lemma_summary_fails_only_for_nothing(cropped: nat, total: nat)
    requires
        cropped <= total,
    ensures
        summary(cropped, total) is Err <==> (cropped == 0 && total > 0),
{
}

/// Removes a leading `\\?\` from a path.
pub fn strip_verbatim_prefix(path: &str) -> (stripped: String)
    ensures
        stripped@ == openable_path(path@),
{
    let n: usize = path.unicode_len();
    if n >= 4 && path.get_char(0) == '\\' && path.get_char(1) == '\\' && path.get_char(2) == '?'
        && path.get_char(3) == '\\' {
        String::from_str(path.substring_char(4, n))
    } else {
        String::from_str(path)
    }
}

/// Says why the file at `path`, whose image is `image_width` by
/// `image_height` pixels, is left out of the batch.
pub fn skip_message(
    rect: CropRectParams,
    path: &str,
    image_width: u32,
    image_height: u32,
    skip: CropSkip,
) -> (message: String)
    ensures
        message@ == skip_text(rect, path@, image_width, image_height, skip),
{
    match skip {
        CropSkip::OriginOutside => {
            let mut message = String::from_str("Crop X (");
            message.append(format_u64(rect.x as u64).as_str());
            message.append(") or Y (");
            message.append(format_u64(rect.y as u64).as_str());
            message.append(") is out of bounds for image ");
            message.append(path);
            message.append(" (");
            message.append(format_u64(image_width as u64).as_str());
            message.append("x");
            message.append(format_u64(image_height as u64).as_str());
            message.append(").");
            message
        },
        CropSkip::EmptyArea => {
            let mut message = String::from_str(
                "Calculated final crop width or height is zero for image ",
            );
            message.append(path);
            message.append(". Skipping.");
            message
        },
    }
}

/// The report of a batch in which `cropped` of `total` files were cropped.
pub fn batch_summary(cropped: usize, total: usize) -> (r: Result<String, String>)
    ensures
        outcome_text(r) == summary(cropped as nat, total as nat),
{
    if cropped == total && total > 0 {
        let mut message = String::from_str("Successfully cropped ");
        message.append(format_u64(cropped as u64).as_str());
        message.append(" files.");
        Ok(message)
    } else if cropped > 0 {
        let mut message = String::from_str("Partially successful: cropped ");
        message.append(format_u64(cropped as u64).as_str());
        message.append(" out of ");
        message.append(format_u64(total as u64).as_str());
        message.append(" files. Check logs for errors.");
        Ok(message)
    } else if total == 0 {
        Ok(String::from_str("No files to crop."))
    } else {
        Err(String::from_str("Failed to crop any files. Check logs for errors."))
    }
}

/// How far a batch has come.
pub struct BatchView {
    /// The files, as given.
    pub paths: Seq<Seq<char>>,
    /// The rectangle asked for.
    pub rect: CropRectParams,
    /// Files dealt with so far; the next file is `paths[index]`.
    pub index: nat,
    /// Files cropped and saved so far.
    pub cropped: nat,
}

impl BatchView {
    /// What holds of a batch at every step: its rectangle covers a pixel,
    /// and of the files dealt with no more were cropped than there were.
    pub open spec fn valid(self) -> bool {
        &&& !self.rect.empty()
        &&& self.cropped <= self.index <= self.paths.len()
    }

    /// The batch after its current file has been dealt with.
    pub open spec fn after(self, saved: bool) -> BatchView {
        BatchView {
            index: self.index + 1,
            cropped: if saved {
                self.cropped + 1
            } else {
                self.cropped
            },
            ..self
        }
    }
}

struct CropBatch {
    paths: Vec<String>,
    rect: CropRectParams,
    index: usize,
    cropped: usize,
}

impl CropBatch {
    #[verifier::type_invariant]
    spec fn counted(self) -> bool {
        &&& !self.rect.empty()
        &&& self.cropped <= self.index <= self.paths.len()
    }

    spec fn view(self) -> BatchView {
        BatchView {
            paths: texts(self.paths@),
            rect: self.rect,
            index: self.index as nat,
            cropped: self.cropped as nat,
        }
    }
}

/// A batch that waits to hear whether its current file could be opened.
pub struct AwaitingOpen {
    batch: CropBatch,
}

/// A batch that waits to hear whether its current file could be saved.
pub struct AwaitingSave {
    batch: CropBatch,
}

/// What the caller is to do next.
pub enum CropStep {
    /// Open and decode the file at `path`, then report to `on_open`.
    Open { path: String, on_open: AwaitingOpen },
    /// Write `frame` to the file at `path`, then report to `on_save`.
    Save { path: String, frame: Frame, on_save: AwaitingSave },
    /// Nothing is left to do: this is the batch's report.
    Done(Result<String, String>),
}

impl View for AwaitingOpen {
    type V = BatchView;

    closed spec fn view(&self) -> BatchView {
        self.batch.view()
    }
}

impl View for AwaitingSave {
    type V = BatchView;

    closed spec fn view(&self) -> BatchView {
        self.batch.view()
    }
}

impl CropStep {
    /// This step is the one that a batch in state `batch` takes: it opens
    /// the next file, or reports where no file is left.
    pub open spec fn is_turn_of(self, batch: BatchView) -> bool {
        if batch.index < batch.paths.len() {
            &&& self is Open
            &&& self->Open_path@ == openable_path(batch.paths[batch.index as int])
            &&& self->on_open@ == batch
            &&& batch.valid()
        } else {
            &&& self is Done
            &&& outcome_text(self->Done_0) == summary(batch.cropped, batch.paths.len())
        }
    }
}

fn turn(batch: CropBatch) -> (step: CropStep)
    ensures
        step.is_turn_of(batch.view()),
        batch.view().valid(),
{
    proof {
        use_type_invariant(&batch);
    }
    if batch.index < batch.paths.len() {
        let path = strip_verbatim_prefix(batch.paths[batch.index].as_str());
        CropStep::Open { path, on_open: AwaitingOpen { batch } }
    } else {
        CropStep::Done(batch_summary(batch.cropped, batch.paths.len()))
    }
}

fn advance(batch: CropBatch, saved: bool) -> (step: CropStep)
    requires
        batch.index < batch.paths.len(),
    ensures
        step.is_turn_of(batch.view().after(saved)),
        batch.view().after(saved).valid(),
{
    proof {
        use_type_invariant(&batch);
    }
    let cropped: usize = if saved {
        batch.cropped + 1
    } else {
        batch.cropped
    };
    let next = CropBatch {
        paths: batch.paths,
        rect: batch.rect,
        index: batch.index + 1,
        cropped,
    };
    assert(next.view() == batch.view().after(saved));
    turn(next)
}

/// Starts a batch: crop each file of `paths` to `crop_params`.
///
/// A rectangle without width or height is refused for the whole batch,
/// before any file is touched.
pub fn apply_crop_to_files(paths: Vec<String>, crop_params: CropRectParams) -> (step:
    CropStep)
    ensures
        crop_params.empty() ==> step is Done && outcome_text(step->Done_0) == Err::<
            Seq<char>,
            Seq<char>,
        >(zero_dimensions_error()),
        !crop_params.empty() ==> step.is_turn_of(
            BatchView {
                paths: texts(paths@),
                rect: crop_params,
                index: 0,
                cropped: 0,
            },
        ),
{
    if crop_params.is_empty() {
        return CropStep::Done(
            Err(String::from_str("Crop dimensions (width and height) cannot be zero.")),
        );
    }
    turn(CropBatch { paths, rect: crop_params, index: 0, cropped: 0 })
}

impl AwaitingOpen {
    #[verifier::type_invariant]
    spec fn has_current(self) -> bool {
        self.batch.index < self.batch.paths.len()
    }

    /// The current file's path, as given.
    pub fn path(&self) -> (path: &str)
        ensures
            self@.index < self@.paths.len(),
            path@ == self@.paths[self@.index as int],
    {
        proof {
            use_type_invariant(self);
        }
        self.batch.paths[self.batch.index].as_str()
    }

    /// The rectangle that the batch crops to.
    pub fn rect(&self) -> (rect: CropRectParams)
        ensures
            rect == self@.rect,
    {
        self.batch.rect
    }

    /// Why the current file will be left out if its image is `image_width`
    /// by `image_height` pixels, or `None` where the rectangle can be
    /// applied to such an image.
    pub fn skip_report(&self, image_width: u32, image_height: u32) -> (report: Option<String>)
        ensures
            self@.index < self@.paths.len(),
            match self@.rect.clamped(image_width, image_height) {
                Ok(_) => report is None,
                Err(skip) => report is Some && report->Some_0@ == skip_text(
                    self@.rect,
                    self@.paths[self@.index as int],
                    image_width,
                    image_height,
                    skip,
                ),
            },
    {
        proof {
            use_type_invariant(self);
        }
        match self.batch.rect.clamp_to(image_width, image_height) {
            Ok(_) => None,
            Err(skip) => Some(
                skip_message(self.batch.rect, self.path(), image_width, image_height, skip),
            ),
        }
    }

    /// The current file was opened and decoded to `frame`.
    ///
    /// Where the rectangle can be applied, the cropped frame is to be saved
    /// under the file's path as given. Where it cannot, the file is left
    /// out and the batch goes on.
    pub fn opened(self, frame: Frame) -> (step: CropStep)
        ensures
            self@.valid() && self@.index < self@.paths.len(),
            match self@.rect.clamped(frame@.width, frame@.height) {
                Ok(area) => {
                    &&& step is Save
                    &&& step->Save_path@ == self@.paths[self@.index as int]
                    &&& step->Save_frame@.is_part_of(frame@, area)
                    &&& step->on_save@ == self@
                },
                Err(_) => step.is_turn_of(self@.after(false)),
            },
    {
        proof {
            use_type_invariant(&self);
            use_type_invariant(&self.batch);
        }
        let batch = self.batch;
        match frame.crop(batch.rect) {
            Ok(cropped) => {
                let path = batch.paths[batch.index].clone();
                CropStep::Save { path, frame: cropped, on_save: AwaitingSave { batch } }
            },
            Err(_) => advance(batch, false),
        }
    }

    /// The current file could not be opened: it is left out.
    pub fn open_failed(self) -> (step: CropStep)
        ensures
            self@.valid() && self@.index < self@.paths.len(),
            step.is_turn_of(self@.after(false)),
    {
        proof {
            use_type_invariant(&self);
            use_type_invariant(&self.batch);
        }
        advance(self.batch, false)
    }
}

impl AwaitingSave {
    #[verifier::type_invariant]
    spec fn has_current(self) -> bool {
        self.batch.index < self.batch.paths.len()
    }

    /// The cropped frame was written: the file counts as cropped.
    pub fn saved(self) -> (step: CropStep)
        ensures
            self@.valid() && self@.index < self@.paths.len(),
            step.is_turn_of(self@.after(true)),
    {
        proof {
            use_type_invariant(&self);
            use_type_invariant(&self.batch);
        }
        advance(self.batch, true)
    }

    /// The cropped frame could not be written: the file does not count.
    pub fn save_failed(self) -> (step: CropStep)
        ensures
            self@.valid() && self@.index < self@.paths.len(),
            step.is_turn_of(self@.after(false)),
    {
        proof {
            use_type_invariant(&self);
            use_type_invariant(&self.batch);
        }
        advance(self.batch, false)
    }
}

} // verus!
