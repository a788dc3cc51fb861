//! Extracting the frames of a video into a project's directory.
//!
//! The work is done by the caller and by the video tool it runs; the
//! library decides what comes next ([`ExtractStep`]): make the project's
//! directory, clear it of frames left from an earlier run, run the tool,
//! list what it wrote. The first step that fails ends the extraction with a
//! message that names it.
use vstd::prelude::*;
use vstd::string::StrSliceExecFns;
use vstd::string::StringExecFns;
use crate::order::ascending;
use crate::order::lemma_ascending_is_unique;
use crate::order::lemma_precedes_reflexive;
use crate::order::precedes;
use crate::paths::frame_name;
use crate::paths::frame_pattern;
use crate::paths::lemma_frame_names_ascend;
use crate::paths::frame_pattern_name;
use crate::paths::project_dir;
use crate::paths::project_dir_components;
use crate::text::decimal;
use crate::text::format_i32;
use crate::text::format_u64;
use crate::text::optional_text;
use crate::text::signed_decimal;
use crate::text::texts;

verus! {

/// An entry of the project's directory, as the caller found it.
pub enum ListedEntry {
    /// The entry could not be read; `error` says why.
    Unreadable { error: String },
    /// An entry that was read.
    Found {
        /// The entry is a regular file.
        is_file: bool,
        /// Its file name extension, where it has one that is valid UTF-8.
        extension: Option<String>,
        /// Its absolute path, where that could be resolved and is valid
        /// UTF-8.
        absolute: Option<String>,
    },
}

/// The extension of a frame's file name.
pub open spec fn frame_extension() -> Seq<char> {
    seq!['p', 'n', 'g']
}

/// An entry with these properties is a frame: a regular file whose
/// extension is `png`, in lower case.
pub open spec fn names_frame(is_file: bool, extension: Option<Seq<char>>) -> bool {
    is_file && extension == Some(frame_extension())
}

/// The text of an optional string slice.
pub open spec fn slice_text(s: Option<&str>) -> Option<Seq<char>> {
    match s {
        Some(s) => Some(s@),
        None => None,
    }
}

/// The path that an entry adds to the list of frames, if any.
pub open spec fn frame_of(entry: ListedEntry) -> Option<Seq<char>> {
    match entry {
        ListedEntry::Unreadable { .. } => None,
        ListedEntry::Found { is_file, extension, absolute } => if names_frame(
            is_file,
            optional_text(extension),
        ) {
            optional_text(absolute)
        } else {
            None
        },
    }
}

/// The paths of the frames among `entries`, in the order of the entries.
pub open spec fn listed_frames(entries: Seq<ListedEntry>) -> Seq<Seq<char>>
    decreases entries.len(),
{
    if entries.len() == 0 {
        Seq::empty()
    } else {
        match frame_of(entries.last()) {
            Some(path) => listed_frames(entries.drop_last()).push(path),
            None => listed_frames(entries.drop_last()),
        }
    }
}

/// The error of the first entry that could not be read, if there is one.
pub open spec fn first_unreadable(entries: Seq<ListedEntry>) -> Option<Seq<char>>
    decreases entries.len(),
{
    if entries.len() == 0 {
        None
    } else {
        match first_unreadable(entries.drop_last()) {
            Some(error) => Some(error),
            None => match entries.last() {
                ListedEntry::Unreadable { error } => Some(error@),
                ListedEntry::Found { .. } => None,
            },
        }
    }
}

/// The arguments with which the video tool is run.
pub open spec fn tool_args(input: Seq<char>, fps: u32, pattern: Seq<char>) -> Seq<Seq<char>> {
    seq!["-i"@, input, "-vf"@, "fps="@ + decimal(fps as nat), pattern]
}

/// How an exit code is written in a message.
pub open spec fn exit_code_text(code: Option<i32>) -> Seq<char> {
    match code {
        Some(c) => "Some("@ + signed_decimal(c as int) + ")"@,
        None => "None"@,
    }
}

/// The message for a project directory that could not be created.
pub open spec fn create_dir_error(dir: Seq<char>, error: Seq<char>) -> Seq<char> {
    "无法创建项目目录 '"@ + dir + "': "@ + error
}

/// The message for a frame pattern whose path is not valid UTF-8.
pub open spec fn pattern_error() -> Seq<char> {
    "无法将输出路径转换为字符串"@
}

/// The message for a video tool that could not be started.
pub open spec fn spawn_error(error: Seq<char>) -> Seq<char> {
    "执行 FFmpeg 失败: "@ + error + ". 请确保 FFmpeg 已安装并在系统的 PATH 环境变量中。"@
}

/// The message for a video tool that did not exit with code zero.
pub open spec fn exit_error(input: Seq<char>, code: Option<i32>) -> Seq<char> {
    "FFmpeg 处理视频 '"@ + input + "' 失败。退出码: "@ + exit_code_text(code)
        + ". 查看控制台日志获取更多FFmpeg输出信息。"@
}

/// The message for a project directory that could not be listed.
pub open spec fn list_error(dir: Seq<char>, error: Seq<char>) -> Seq<char> {
    "FFmpeg 处理成功，但读取输出目录 '"@ + dir + "' 失败: "@ + error
}

/// The message for an entry of the project directory that could not be
/// read.
pub open spec fn entry_error(dir: Seq<char>, error: Seq<char>) -> Seq<char> {
    "读取目录 '"@ + dir + "' 中的条目失败: "@ + error
}

/// The texts of an extraction's outcome: of the frame paths, or of the
/// error.
pub open spec fn frames_text(r: Result<Vec<String>, String>) -> Result<Seq<Seq<char>>, Seq<char>> {
    match r {
        Ok(frames) => Ok(texts(frames@)),
        Err(error) => Err(error@),
    }
}

/// Tells whether a directory entry is a frame: a regular file with the
/// extension `png`.
pub fn is_frame_file(is_file: bool, extension: Option<&str>) -> (b: bool)
    ensures
        b == names_frame(is_file, slice_text(extension)),
{
    match extension {
        Some(ext) => {
            let b = is_file && ext.unicode_len() == 3 && ext.get_char(0) == 'p' && ext.get_char(1)
                == 'n' && ext.get_char(2) == 'g';
            assert(b ==> ext@ =~= frame_extension());
            b
        },
        None => false,
    }
}

/// Writes an exit code as it appears in a message.
pub fn format_exit_code(code: Option<i32>) -> (s: String)
    ensures
        s@ == exit_code_text(code),
{
    match code {
        Some(c) => {
            let mut s = String::from_str("Some(");
            s.append(format_i32(c).as_str());
            s.append(")");
            s
        },
        None => String::from_str("None"),
    }
}

/// The arguments for the video tool: read `input`, sample `fps` frames per
/// second, write them by `pattern`.
pub fn ffmpeg_args(input: &str, fps: u32, pattern: &str) -> (args: Vec<String>)
    ensures
        texts(args@) == tool_args(input@, fps, pattern@),
{
    let mut rate = String::from_str("fps=");
    rate.append(format_u64(fps as u64).as_str());
    let mut args: Vec<String> = Vec::new();
    args.push(String::from_str("-i"));
    args.push(String::from_str(input));
    args.push(String::from_str("-vf"));
    args.push(rate);
    args.push(String::from_str(pattern));
    assert(texts(args@) =~= tool_args(input@, fps, pattern@));
    args
}

/// Sorts the paths with `sort` of std's slices, which orders strings by
/// their bytes and so by their code points.
///
/// Trusted: the result holds the same strings, each as often as before, in
/// ascending order.
#[verifier::external_body]
fn sort_paths(paths: Vec<String>) -> (sorted: Vec<String>)
    ensures
        ascending(texts(sorted@)),
        texts(sorted@).to_multiset() == texts(paths@).to_multiset(),
{
    let mut sorted = paths;
    sorted.sort();
    sorted
}

/// Collects the frames among the entries of the directory `dir` and sorts
/// them, so that the frames come in the order in which they were numbered.
///
/// An entry that could not be read fails the listing; an entry that is no
/// frame, or whose absolute path is not known, is passed over. Two entries
/// with one absolute path (a link beside its target) give that path twice.
pub fn collect_frames(dir: &str, entries: &Vec<ListedEntry>) -> (r: Result<Vec<String>, String>)
    ensures
        match first_unreadable(entries@) {
            Some(error) => frames_text(r) == Err::<Seq<Seq<char>>, Seq<char>>(
                entry_error(dir@, error),
            ),
            None => r is Ok && ascending(texts(r->Ok_0@)) && texts(r->Ok_0@).to_multiset()
                == listed_frames(entries@).to_multiset(),
        },
{
    let mut frames: Vec<String> = Vec::new();
    let mut i: usize = 0;
    assert(entries@.take(0) =~= Seq::<ListedEntry>::empty());
    while i < entries.len()
        invariant
            i <= entries.len(),
            first_unreadable(entries@.take(i as int)) is None,
            texts(frames@) == listed_frames(entries@.take(i as int)),
        decreases entries.len() - i,
    {
        assert(entries@.take(i + 1).drop_last() =~= entries@.take(i as int));
        match &entries[i] {
            ListedEntry::Unreadable { error } => {
                let mut message = String::from_str("读取目录 '");
                message.append(dir);
                message.append("' 中的条目失败: ");
                message.append(error.as_str());
                proof {
                    lemma_first_unreadable_stays(entries@, i + 1);
                }
                return Err(message);
            },
            ListedEntry::Found { is_file, extension, absolute } => {
                let is_frame = match extension {
                    Some(ext) => is_frame_file(*is_file, Some(ext.as_str())),
                    None => false,
                };
                if is_frame {
                    match absolute {
                        Some(path) => {
                            let ghost before = texts(frames@);
                            frames.push(path.clone());
                            assert(texts(frames@) =~= before.push(path@));
                        },
                        None => {},
                    }
                }
            },
        }
        i = i + 1;
    }
    assert(entries@.take(i as int) =~= entries@);
    Ok(sort_paths(frames))
}

/// The paths of the first `count` frames that the video tool writes into
/// `dir`, in the order of their numbers; `dir` ends with the separator.
pub open spec fn numbered_frames(dir: Seq<char>, count: nat) -> Seq<Seq<char>> {
    Seq::new(count, |i: int| dir + frame_name((i + 1) as nat))
}

/// Frames are returned in the order in which they were taken from the
/// video: where the frames found are the first `count` frames of a
/// directory, in whatever order the directory gave them, their ascending
/// order is the order of their numbers. This holds up to 9999 frames.
pub proof fn lemma_frames_return_in_order(frames: Seq<Seq<char>>, dir: Seq<char>, count: nat)
    requires
        count < 10000,
        ascending(frames),
        frames.to_multiset() == numbered_frames(dir, count).to_multiset(),
    ensures
        frames == numbered_frames(dir, count),
{
    let numbered = numbered_frames(dir, count);
    assert forall|i: int, j: int| 0 <= i <= j < numbered.len() implies precedes(
        #[trigger] numbered[i],
        #[trigger] numbered[j],
    ) by {
        if i == j {
            lemma_precedes_reflexive(numbered[i]);
        } else {
            lemma_frame_names_ascend(dir, (i + 1) as nat, (j + 1) as nat);
        }
    }
    lemma_ascending_is_unique(frames, numbered);
}

/// The error reported for a listing is that of its first unreadable
/// entry: every entry before it was read. Where no error is reported, every
/// entry was read.
pub proof fn lemma_first_unreadable_is_first(entries: Seq<ListedEntry>)
    ensures
        match first_unreadable(entries) {
            Some(error) => exists|i: int|
                {
                    &&& 0 <= i < entries.len()
                    &&& #[trigger] entries[i] is Unreadable
                    &&& entries[i]->error@ == error
                    &&& forall|j: int| 0 <= j < i ==> #[trigger] entries[j] is Found
                },
            None => forall|j: int| 0 <= j < entries.len() ==> #[trigger] entries[j] is Found,
        },
    decreases entries.len(),
{
    if entries.len() > 0 {
        let front = entries.drop_last();
        lemma_first_unreadable_is_first(front);
        match first_unreadable(front) {
            Some(error) => {
                let i = choose|i: int|
                    {
                        &&& 0 <= i < front.len()
                        &&& #[trigger] front[i] is Unreadable
                        &&& front[i]->error@ == error
                        &&& forall|j: int| 0 <= j < i ==> #[trigger] front[j] is Found
                    };
                assert(entries[i] == front[i]);
                assert forall|j: int| 0 <= j < i implies #[trigger] entries[j] is Found by {
                    assert(entries[j] == front[j]);
                }
            },
            None => {
                assert forall|j: int| 0 <= j < entries.len() - 1 implies #[trigger] entries[j] is Found by {
                    assert(entries[j] == front[j]);
                }
                if entries.last() is Unreadable {
                    assert(entries[entries.len() - 1] is Unreadable);
                }
            },
        }
    }
}

/// Once an entry could not be read, later entries do not change which
/// error is reported.
proof fn lemma_first_unreadable_stays(entries: Seq<ListedEntry>, n: int)
    requires
        0 <= n <= entries.len(),
        first_unreadable(entries.take(n)) is Some,
    ensures
        first_unreadable(entries) == first_unreadable(entries.take(n)),
    decreases entries.len() - n,
{
    if n < entries.len() {
        assert(entries.take(n + 1).drop_last() =~= entries.take(n));
        lemma_first_unreadable_stays(entries, n + 1);
    } else {
        assert(entries.take(n) =~= entries);
    }
}

/// What was asked for: the video, the project and the frame rate.
pub struct RequestView {
    /// Path of the video.
    pub input: Seq<char>,
    /// Name of the project that gets the frames.
    pub project_name: Seq<char>,
    /// Frames to sample per second of video.
    pub fps: u32,
}

/// An extraction whose directory exists.
pub struct ExtractionView {
    /// What was asked for.
    pub request: RequestView,
    /// The project's directory, as it is written in messages.
    pub dir: Seq<char>,
}

struct Request {
    input: String,
    project_name: String,
    fps: u32,
}

struct Extraction {
    request: Request,
    dir: String,
}

impl Request {
    spec fn view(self) -> RequestView {
        RequestView { input: self.input@, project_name: self.project_name@, fps: self.fps }
    }
}

impl Extraction {
    spec fn view(self) -> ExtractionView {
        ExtractionView { request: self.request.view(), dir: self.dir@ }
    }
}

/// An extraction that waits to hear whether its directory could be made.
pub struct AwaitingDir {
    request: Request,
}

/// An extraction that waits for old frames to be cleared away.
pub struct AwaitingClean {
    extraction: Extraction,
}

/// An extraction that waits for the video tool to exit.
pub struct AwaitingTool {
    extraction: Extraction,
}

/// An extraction that waits for the listing of its directory.
pub struct AwaitingList {
    extraction: Extraction,
}

impl View for AwaitingDir {
    type V = RequestView;

    closed spec fn view(&self) -> RequestView {
        self.request.view()
    }
}

impl View for AwaitingClean {
    type V = ExtractionView;

    closed spec fn view(&self) -> ExtractionView {
        self.extraction.view()
    }
}

impl View for AwaitingTool {
    type V = ExtractionView;

    closed spec fn view(&self) -> ExtractionView {
        self.extraction.view()
    }
}

impl View for AwaitingList {
    type V = ExtractionView;

    closed spec fn view(&self) -> ExtractionView {
        self.extraction.view()
    }
}

/// What the caller is to do next.
pub enum ExtractStep {
    /// Create the directory whose path is made of `components`, with its
    /// parents, then report to `on_created`.
    CreateDir { components: Vec<String>, on_created: AwaitingDir },
    /// Delete every frame in the directory (see [`is_frame_file`]), then
    /// report to `on_cleaned` the path of `pattern_name` in the directory.
    Clean { pattern_name: String, on_cleaned: AwaitingClean },
    /// Run `program` with `args`, wait for it, then report to `on_exit`.
    RunTool { program: String, args: Vec<String>, on_exit: AwaitingTool },
    /// List the directory, then report to `on_listed`.
    List { on_listed: AwaitingList },
    /// The extraction has ended: with the frames' absolute paths in
    /// ascending order, or with the step that failed.
    Done(Result<Vec<String>, String>),
}

impl ExtractStep {
    /// The extraction has ended with the error `message`.
    pub open spec fn fails_with(self, message: Seq<char>) -> bool {
        self is Done && frames_text(self->Done_0) == Err::<Seq<Seq<char>>, Seq<char>>(message)
    }

    /// The extraction has ended well, with the frames among `entries` in
    /// ascending order.
    pub open spec fn returns_frames_of(self, entries: Seq<ListedEntry>) -> bool {
        &&& self is Done
        &&& self->Done_0 is Ok
        &&& ascending(texts(self->Done_0->Ok_0@))
        &&& texts(self->Done_0->Ok_0@).to_multiset() == listed_frames(entries).to_multiset()
    }
}

/// The name of the video tool.
pub open spec fn tool_name() -> Seq<char> {
    "ffmpeg"@
}

/// Starts the extraction of the frames of the video at `path` into the
/// project `project_name`, at `fps` frames per second.
pub fn process_video(path: String, project_name: String, fps: u32) -> (step: ExtractStep)
    ensures
        step is CreateDir,
        texts(step->components@) == project_dir(project_name@),
        step->on_created@ == (RequestView { input: path@, project_name: project_name@, fps }),
{
    let components = project_dir_components(project_name.as_str());
    ExtractStep::CreateDir {
        components,
        on_created: AwaitingDir { request: Request { input: path, project_name, fps } },
    }
}

impl AwaitingDir {
    /// The directory exists; `dir` is its path as written in messages.
    /// Frames of an earlier run are cleared away before anything is
    /// written.
    pub fn created(self, dir: String) -> (step: ExtractStep)
        ensures
            step is Clean,
            step->pattern_name@ == frame_pattern(),
            step->on_cleaned@ == (ExtractionView { request: self@, dir: dir@ }),
    {
        ExtractStep::Clean {
            pattern_name: frame_pattern_name(),
            on_cleaned: AwaitingClean { extraction: Extraction { request: self.request, dir } },
        }
    }

    /// The directory `dir` could not be created; `error` says why.
    pub fn create_failed(self, dir: String, error: String) -> (step: ExtractStep)
        ensures
            step.fails_with(create_dir_error(dir@, error@)),
    {
        let mut message = String::from_str("无法创建项目目录 '");
        message.append(dir.as_str());
        message.append("': ");
        message.append(error.as_str());
        ExtractStep::Done(Err(message))
    }
}

impl AwaitingClean {
    /// The directory holds no frames any more. `pattern` is the path of the
    /// frame pattern in the directory, or `None` where that path is not
    /// valid UTF-8.
    pub fn cleaned(self, pattern: Option<String>) -> (step: ExtractStep)
        ensures
            match pattern {
                Some(pattern) => {
                    &&& step is RunTool
                    &&& step->program@ == tool_name()
                    &&& texts(step->args@) == tool_args(
                        self@.request.input,
                        self@.request.fps,
                        pattern@,
                    )
                    &&& step->on_exit@ == self@
                },
                None => step.fails_with(pattern_error()),
            },
    {
        match pattern {
            Some(pattern) => {
                let args = ffmpeg_args(
                    self.extraction.request.input.as_str(),
                    self.extraction.request.fps,
                    pattern.as_str(),
                );
                ExtractStep::RunTool {
                    program: String::from_str("ffmpeg"),
                    args,
                    on_exit: AwaitingTool { extraction: self.extraction },
                }
            },
            None => ExtractStep::Done(Err(String::from_str("无法将输出路径转换为字符串"))),
        }
    }
}

impl AwaitingTool {
    /// The tool has exited with `code` (`None` where it was ended by a
    /// signal). Only the code zero counts as success.
    pub fn exited(self, code: Option<i32>) -> (step: ExtractStep)
        ensures
            code == Some(0i32) ==> step is List && step->on_listed@ == self@,
            code != Some(0i32) ==> step.fails_with(exit_error(self@.request.input, code)),
    {
        let success = match code {
            Some(c) => c == 0,
            None => false,
        };
        if success {
            ExtractStep::List { on_listed: AwaitingList { extraction: self.extraction } }
        } else {
            let mut message = String::from_str("FFmpeg 处理视频 '");
            message.append(self.extraction.request.input.as_str());
            message.append("' 失败。退出码: ");
            message.append(format_exit_code(code).as_str());
            message.append(". 查看控制台日志获取更多FFmpeg输出信息。");
            ExtractStep::Done(Err(message))
        }
    }

    /// The tool could not be started; `error` says why.
    pub fn not_started(self, error: String) -> (step: ExtractStep)
        ensures
            step.fails_with(spawn_error(error@)),
    {
        let mut message = String::from_str("执行 FFmpeg 失败: ");
        message.append(error.as_str());
        message.append(". 请确保 FFmpeg 已安装并在系统的 PATH 环境变量中。");
        ExtractStep::Done(Err(message))
    }
}

impl AwaitingList {
    /// The directory was listed: `entries` are its entries in the order in
    /// which they were read, up to and including the first that could not
    /// be read.
    pub fn listed(self, entries: Vec<ListedEntry>) -> (step: ExtractStep)
        ensures
            match first_unreadable(entries@) {
                Some(error) => step.fails_with(entry_error(self@.dir, error)),
                None => step.returns_frames_of(entries@),
            },
    {
        ExtractStep::Done(collect_frames(self.extraction.dir.as_str(), &entries))
    }

    /// The directory could not be listed; `error` says why.
    pub fn list_failed(self, error: String) -> (step: ExtractStep)
        ensures
            step.fails_with(list_error(self@.dir, error@)),
    {
        let mut message = String::from_str("FFmpeg 处理成功，但读取输出目录 '");
        message.append(self.extraction.dir.as_str());
        message.append("' 失败: ");
        message.append(error.as_str());
        ExtractStep::Done(Err(message))
    }
}

} // verus!
