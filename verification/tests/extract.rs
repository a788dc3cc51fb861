use video_frames::extract::collect_frames;
use video_frames::extract::ffmpeg_args;
use video_frames::extract::format_exit_code;
use video_frames::extract::is_frame_file;
use video_frames::extract::process_video;
use video_frames::extract::AwaitingClean;
use video_frames::extract::AwaitingList;
use video_frames::extract::AwaitingTool;
use video_frames::extract::ExtractStep;
use video_frames::extract::ListedEntry;

fn file(extension: &str, absolute: &str) -> ListedEntry {
    ListedEntry::Found {
        is_file: true,
        extension: Some(extension.to_string()),
        absolute: Some(absolute.to_string()),
    }
}

fn unreadable(error: &str) -> ListedEntry {
    ListedEntry::Unreadable { error: error.to_string() }
}

fn cleaning(input: &str, project: &str, fps: u32, dir: &str) -> AwaitingClean {
    match process_video(input.to_string(), project.to_string(), fps) {
        ExtractStep::CreateDir { on_created, .. } => match on_created.created(dir.to_string()) {
            ExtractStep::Clean { on_cleaned, .. } => on_cleaned,
            _ => panic!("old frames must be cleared once the directory exists"),
        },
        _ => panic!("an extraction must begin with its directory"),
    }
}

fn running(input: &str, project: &str, fps: u32, dir: &str) -> AwaitingTool {
    let pattern = format!("{}/frame_%04d.png", dir);
    match cleaning(input, project, fps, dir).cleaned(Some(pattern)) {
        ExtractStep::RunTool { on_exit, .. } => on_exit,
        _ => panic!("the tool must run once the directory is clean"),
    }
}

fn listing(dir: &str) -> AwaitingList {
    match running("in.mp4", "p", 5, dir).exited(Some(0)) {
        ExtractStep::List { on_listed } => on_listed,
        _ => panic!("the directory must be listed once the tool has succeeded"),
    }
}

fn outcome(step: ExtractStep) -> Result<Vec<String>, String> {
    match step {
        ExtractStep::Done(outcome) => outcome,
        _ => panic!("the extraction must have ended"),
    }
}

#[test]
fn frame_file_is_a_regular_png() {
    assert!(is_frame_file(true, Some("png")));
}

#[test]
fn frame_file_must_be_a_file() {
    assert!(!is_frame_file(false, Some("png")));
}

#[test]
fn frame_file_must_have_the_extension_in_lower_case() {
    assert!(!is_frame_file(true, None));
    assert!(!is_frame_file(true, Some("")));
    assert!(!is_frame_file(true, Some("PNG")));
    assert!(!is_frame_file(true, Some("Png")));
    assert!(!is_frame_file(true, Some("jpg")));
    assert!(!is_frame_file(true, Some("pn")));
    assert!(!is_frame_file(true, Some("pngx")));
    assert!(!is_frame_file(true, Some("xpng")));
    assert!(!is_frame_file(true, Some("pñg")));
}

#[test]
fn exit_code_is_written_as_an_option() {
    assert_eq!(format_exit_code(Some(1)), "Some(1)");
    assert_eq!(format_exit_code(Some(0)), "Some(0)");
    assert_eq!(format_exit_code(Some(-22)), "Some(-22)");
    assert_eq!(format_exit_code(Some(i32::MIN)), "Some(-2147483648)");
    assert_eq!(format_exit_code(None), "None");
    assert_eq!(format_exit_code(Some(127)), format!("{:?}", Some(127)));
}

#[test]
fn args_name_input_rate_and_pattern() {
    assert_eq!(
        ffmpeg_args("/videos/in.mp4", 24, "./projects/demo/frame_%04d.png"),
        vec!["-i", "/videos/in.mp4", "-vf", "fps=24", "./projects/demo/frame_%04d.png"]
    );
}

#[test]
fn args_write_the_rate_in_decimal() {
    assert_eq!(ffmpeg_args("a", 0, "b")[3], "fps=0");
    assert_eq!(ffmpeg_args("a", 1, "b")[3], "fps=1");
    assert_eq!(ffmpeg_args("a", 60, "b")[3], "fps=60");
    assert_eq!(ffmpeg_args("a", u32::MAX, "b")[3], "fps=4294967295");
}

#[test]
fn args_keep_input_and_pattern_as_given() {
    let args = ffmpeg_args("my video (1).mp4", 5, "C:\\p\\夏天\\frame_%04d.png");
    assert_eq!(args.len(), 5);
    assert_eq!(args[1], "my video (1).mp4");
    assert_eq!(args[4], "C:\\p\\夏天\\frame_%04d.png");
}

#[test]
fn extraction_begins_with_the_project_directory() {
    match process_video("in.mp4".to_string(), "demo".to_string(), 12) {
        ExtractStep::CreateDir { components, .. } => {
            assert_eq!(components, vec![".", "projects", "demo"])
        }
        _ => panic!("an extraction must begin with its directory"),
    }
}

#[test]
fn directory_that_cannot_be_created_ends_the_extraction() {
    let step = match process_video("in.mp4".to_string(), "demo".to_string(), 12) {
        ExtractStep::CreateDir { on_created, .. } => on_created
            .create_failed("./projects/demo".to_string(), "Permission denied (os error 13)".to_string()),
        _ => panic!("an extraction must begin with its directory"),
    };
    assert_eq!(
        outcome(step),
        Err("无法创建项目目录 './projects/demo': Permission denied (os error 13)".to_string())
    );
}

#[test]
fn old_frames_are_cleared_before_the_tool_runs() {
    let step = match process_video("in.mp4".to_string(), "demo".to_string(), 12) {
        ExtractStep::CreateDir { on_created, .. } => on_created.created("./projects/demo".to_string()),
        _ => panic!("an extraction must begin with its directory"),
    };
    let on_cleaned = match step {
        ExtractStep::Clean { pattern_name, on_cleaned } => {
            assert_eq!(pattern_name, "frame_%04d.png");
            on_cleaned
        }
        _ => panic!("old frames must be cleared once the directory exists"),
    };
    match on_cleaned.cleaned(Some("./projects/demo/frame_%04d.png".to_string())) {
        ExtractStep::RunTool { program, args, .. } => {
            assert_eq!(program, "ffmpeg");
            assert_eq!(args, vec!["-i", "in.mp4", "-vf", "fps=12", "./projects/demo/frame_%04d.png"]);
        }
        _ => panic!("the tool must run once the directory is clean"),
    }
}

#[test]
fn pattern_that_is_not_utf8_ends_the_extraction() {
    let step = cleaning("in.mp4", "demo", 12, "./projects/demo").cleaned(None);
    assert_eq!(outcome(step), Err("无法将输出路径转换为字符串".to_string()));
}

#[test]
fn tool_that_cannot_be_started_ends_the_extraction() {
    let step = running("in.mp4", "demo", 12, "./projects/demo")
        .not_started("No such file or directory (os error 2)".to_string());
    assert_eq!(
        outcome(step),
        Err("执行 FFmpeg 失败: No such file or directory (os error 2). 请确保 FFmpeg 已安装并在系统的 PATH 环境变量中。".to_string())
    );
}

#[test]
fn tool_that_exits_with_an_error_ends_the_extraction() {
    let step = running("/videos/in.mp4", "demo", 12, "./projects/demo").exited(Some(1));
    assert_eq!(
        outcome(step),
        Err("FFmpeg 处理视频 '/videos/in.mp4' 失败。退出码: Some(1). 查看控制台日志获取更多FFmpeg输出信息。".to_string())
    );
}

#[test]
fn tool_that_exits_with_a_negative_code_ends_the_extraction() {
    let step = running("in.mp4", "demo", 12, "./projects/demo").exited(Some(-1073741819));
    assert_eq!(
        outcome(step),
        Err("FFmpeg 处理视频 'in.mp4' 失败。退出码: Some(-1073741819). 查看控制台日志获取更多FFmpeg输出信息。".to_string())
    );
}

#[test]
fn tool_that_was_killed_ends_the_extraction() {
    let step = running("in.mp4", "demo", 12, "./projects/demo").exited(None);
    assert_eq!(
        outcome(step),
        Err("FFmpeg 处理视频 'in.mp4' 失败。退出码: None. 查看控制台日志获取更多FFmpeg输出信息。".to_string())
    );
}

#[test]
fn tool_that_succeeds_leads_to_the_listing() {
    assert!(matches!(
        running("in.mp4", "demo", 12, "./projects/demo").exited(Some(0)),
        ExtractStep::List { .. }
    ));
}

#[test]
fn directory_that_cannot_be_listed_ends_the_extraction() {
    let step = listing("./projects/p").list_failed("Permission denied (os error 13)".to_string());
    assert_eq!(
        outcome(step),
        Err("FFmpeg 处理成功，但读取输出目录 './projects/p' 失败: Permission denied (os error 13)".to_string())
    );
}

#[test]
fn frames_come_out_in_ascending_order() {
    let entries = vec![
        file("png", "/p/frame_0003.png"),
        file("png", "/p/frame_0001.png"),
        file("png", "/p/frame_0010.png"),
        file("png", "/p/frame_0002.png"),
    ];
    assert_eq!(
        outcome(listing("./projects/p").listed(entries)),
        Ok(vec![
            "/p/frame_0001.png".to_string(),
            "/p/frame_0002.png".to_string(),
            "/p/frame_0003.png".to_string(),
            "/p/frame_0010.png".to_string()
        ])
    );
}

#[test]
fn frames_are_ordered_by_code_point() {
    let entries = vec![
        file("png", "/p/b.png"),
        file("png", "/p/B.png"),
        file("png", "/p/é.png"),
        file("png", "/p/a.png"),
        file("png", "/p/a"),
        file("png", "/p/10.png"),
        file("png", "/p/9.png"),
        file("png", "/p/a.png"),
    ];
    assert_eq!(
        collect_frames("d", &entries),
        Ok(vec![
            "/p/10.png".to_string(),
            "/p/9.png".to_string(),
            "/p/B.png".to_string(),
            "/p/a".to_string(),
            "/p/a.png".to_string(),
            "/p/a.png".to_string(),
            "/p/b.png".to_string(),
            "/p/é.png".to_string()
        ])
    );
}

#[test]
fn entries_that_are_no_frames_are_passed_over() {
    let entries = vec![
        file("png", "/p/frame_0002.png"),
        file("jpg", "/p/cover.jpg"),
        file("PNG", "/p/LOUD.PNG"),
        ListedEntry::Found {
            is_file: false,
            extension: Some("png".to_string()),
            absolute: Some("/p/dir.png".to_string()),
        },
        ListedEntry::Found { is_file: true, extension: None, absolute: Some("/p/notes".to_string()) },
        ListedEntry::Found { is_file: true, extension: Some("png".to_string()), absolute: None },
        file("png", "/p/frame_0001.png"),
    ];
    assert_eq!(
        collect_frames("./projects/p", &entries),
        Ok(vec!["/p/frame_0001.png".to_string(), "/p/frame_0002.png".to_string()])
    );
}

#[test]
fn tool_that_wrote_nothing_gives_an_empty_list() {
    assert_eq!(outcome(listing("./projects/p").listed(Vec::new())), Ok(Vec::new()));
    assert_eq!(collect_frames("./projects/p", &vec![file("txt", "/p/a.txt")]), Ok(Vec::new()));
}

#[test]
fn entry_that_cannot_be_read_fails_the_listing() {
    let entries = vec![
        file("png", "/p/frame_0001.png"),
        unreadable("Input/output error (os error 5)"),
        file("png", "/p/frame_0002.png"),
    ];
    assert_eq!(
        outcome(listing("./projects/p").listed(entries)),
        Err("读取目录 './projects/p' 中的条目失败: Input/output error (os error 5)".to_string())
    );
}

#[test]
fn first_entry_that_cannot_be_read_is_reported() {
    let entries = vec![unreadable("first"), file("png", "/p/a.png"), unreadable("second")];
    assert_eq!(
        collect_frames("dir", &entries),
        Err("读取目录 'dir' 中的条目失败: first".to_string())
    );
}

#[test]
fn numbered_frames_come_out_in_the_order_of_their_numbers() {
    let mut entries = Vec::new();
    let mut n: u32 = 1;
    for _ in 0..9999 {
        n = (n * 7) % 10007;
        if n <= 9999 {
            entries.push(file("png", &format!("/p/frame_{:04}.png", n)));
        }
    }
    let frames = collect_frames("/p", &entries).unwrap();
    assert_eq!(frames.len(), entries.len());
    let mut last: u32 = 0;
    for frame in &frames {
        let number: u32 = frame[9..13].parse().unwrap();
        assert!(number > last);
        last = number;
    }
}

#[test]
fn frames_beyond_four_digits_are_ordered_as_text() {
    let entries = vec![
        file("png", "/p/frame_9999.png"),
        file("png", "/p/frame_10000.png"),
        file("png", "/p/frame_0001.png"),
    ];
    assert_eq!(
        collect_frames("/p", &entries),
        Ok(vec![
            "/p/frame_0001.png".to_string(),
            "/p/frame_10000.png".to_string(),
            "/p/frame_9999.png".to_string()
        ])
    );
}
