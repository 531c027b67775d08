use md2png::coordinator::{begin, step, Phase, State};
use md2png::document::generate_html;
use md2png::error::{ConversionError, ErrorKind};
use md2png::session::{
    document_location, launch_arguments, Action, CaptureSpec, Reply, HEADLESS, HEIGHT_EXPRESSION,
    PAINT_EXPRESSION, SIGNAL_EXPRESSION,
};
use md2png::settle::SettleOutcome;
use md2png::viewport::ViewportSpec;

const SOURCE: &str = "# Title\n\nHello **world**";

fn png() -> Vec<u8> {
    vec![0x89, b'P', b'N', b'G', 0x0d, 0x0a, 0x1a, 0x0a]
}

fn started() -> State {
    let (state, _) = begin(SOURCE, "", 4000);
    state
}

fn located() -> State {
    let (state, _) = step(started(), 0, Reply::Stored("/tmp/md2png_1.html".to_string()));
    state
}

fn opened() -> State {
    let (state, _) = step(located(), 0, Reply::EngineLocated("/usr/bin/engine".to_string()));
    state
}

fn framed() -> State {
    let (state, _) = step(opened(), 0, Reply::Completed);
    state
}

fn navigating() -> State {
    let (state, _) = step(framed(), 0, Reply::Completed);
    state
}

fn reading(at: u64) -> State {
    let (state, _) = step(navigating(), at, Reply::Completed);
    state
}

fn measuring() -> State {
    let (state, _) = step(reading(1000), 1010, Reply::Signal("1".to_string()));
    state
}

fn resizing(height: u32) -> State {
    let (state, _) = step(measuring(), 1020, Reply::Height(height));
    state
}

fn painting() -> State {
    let (state, _) = step(resizing(120), 1030, Reply::Completed);
    state
}

fn capturing() -> State {
    let (state, _) = step(painting(), 1040, Reply::Completed);
    state
}

fn failed(kind: ErrorKind, message: &str) -> State {
    State::Failed { error: ConversionError { kind, message: message.to_string() } }
}

#[test]
fn session_constants() {
    assert!(HEADLESS);
    assert_eq!(launch_arguments(), vec!["--no-sandbox", "--disable-gpu", "--hide-scrollbars"]);
    assert_eq!(SIGNAL_EXPRESSION, "document.body.getAttribute('data-ready')");
    assert_eq!(
        HEIGHT_EXPRESSION,
        "Math.max(document.body.scrollHeight, document.body.offsetHeight, document.documentElement.scrollHeight)"
    );
    assert_eq!(
        PAINT_EXPRESSION,
        "document.fonts.ready.then(() => new Promise(r => requestAnimationFrame(r)));"
    );
    assert_eq!(
        CaptureSpec::standard(),
        CaptureSpec { lossless: true, quality: 100, full_page: true, from_surface: true }
    );
    assert_eq!(document_location("/tmp/a.html"), "file:///tmp/a.html");
    assert_eq!(document_location("C:\\t\\a.html"), "file://C:\\t\\a.html");
}

#[test]
fn end_to_end_plain_document() {
    let (state, action) = begin(SOURCE, "", 4000);
    assert_eq!(state, State::StoringDocument);
    assert_eq!(state.phase(), Phase::Launching);
    assert_eq!(action, Action::StoreDocument(generate_html(SOURCE, "", 4000)));

    let (state, action) = step(state, 5, Reply::Stored("/tmp/md2png_1.html".to_string()));
    assert_eq!(state, State::Locating { location: "file:///tmp/md2png_1.html".to_string() });
    assert_eq!(action, Action::LocateEngine);

    let (state, action) = step(state, 6, Reply::EngineLocated("/usr/bin/engine".to_string()));
    assert_eq!(state, State::Opening { location: "file:///tmp/md2png_1.html".to_string() });
    assert_eq!(
        action,
        Action::Launch {
            engine_path: "/usr/bin/engine".to_string(),
            headless: true,
            window: ViewportSpec { width: 375, height: 800, device_scale: 4, mobile: true },
            arguments: vec!["--no-sandbox", "--disable-gpu", "--hide-scrollbars"],
        }
    );

    let (state, action) = step(state, 300, Reply::Completed);
    assert_eq!(state, State::Framing { location: "file:///tmp/md2png_1.html".to_string() });
    assert_eq!(state.phase(), Phase::Launching);
    let probe = ViewportSpec { width: 375, height: 800, device_scale: 4, mobile: true };
    assert_eq!(action, Action::SetViewport(probe));

    let (state, action) = step(state, 310, Reply::Completed);
    assert_eq!(state, State::Navigating);
    assert_eq!(state.phase(), Phase::Navigating);
    assert_eq!(action, Action::Navigate("file:///tmp/md2png_1.html".to_string()));

    let (state, action) = step(state, 400, Reply::Completed);
    assert_eq!(state, State::ReadingSignal { started_ms: 400 });
    assert_eq!(state.phase(), Phase::AwaitingSettle);
    assert_eq!(action, Action::ReadSignal("document.body.getAttribute('data-ready')"));

    let (state, action) = step(state, 410, Reply::Failed("no value".to_string()));
    assert_eq!(state, State::Sleeping { started_ms: 400 });
    assert_eq!(state.phase(), Phase::AwaitingSettle);
    assert_eq!(action, Action::Sleep(50));

    let (state, action) = step(state, 460, Reply::Completed);
    assert_eq!(state, State::ReadingSignal { started_ms: 400 });
    assert_eq!(action, Action::ReadSignal(SIGNAL_EXPRESSION));

    let (state, action) = step(state, 470, Reply::Signal("1".to_string()));
    assert_eq!(state, State::Measuring { settled: SettleOutcome::SettledInTime });
    assert_eq!(state.phase(), Phase::Measuring);
    assert_eq!(
        action,
        Action::MeasureHeight(
            "Math.max(document.body.scrollHeight, document.body.offsetHeight, document.documentElement.scrollHeight)"
        )
    );

    let (state, action) = step(state, 480, Reply::Height(132));
    assert_eq!(state, State::Resizing { height: 132 });
    assert_eq!(state.phase(), Phase::Resizing);
    let fitted = ViewportSpec { width: 375, height: 132, device_scale: 4, mobile: true };
    assert_eq!(action, Action::SetViewport(fitted));
    assert!(fitted.height < probe.height);
    assert_eq!(fitted.width, probe.width);
    assert_eq!(fitted.device_scale, probe.device_scale);

    let (state, action) = step(state, 490, Reply::Completed);
    assert_eq!(state, State::AwaitingPaint);
    assert_eq!(state.phase(), Phase::AwaitingPaint);
    assert_eq!(
        action,
        Action::AwaitPaint(
            "document.fonts.ready.then(() => new Promise(r => requestAnimationFrame(r)));"
        )
    );

    let (state, action) = step(state, 500, Reply::Completed);
    assert_eq!(state, State::Capturing);
    assert_eq!(state.phase(), Phase::Capturing);
    assert_eq!(
        action,
        Action::Capture(CaptureSpec {
            lossless: true,
            quality: 100,
            full_page: true,
            from_surface: true
        })
    );
    assert!(!state.over());

    let (state, action) = step(state, 600, Reply::Image(png()));
    assert_eq!(state, State::Done { image: png() });
    assert_eq!(state.phase(), Phase::Done);
    assert_eq!(action, Action::Teardown);
    assert!(state.over());
    assert_eq!(state.into_outcome(), Some(Ok(png())));
}

#[test]
fn blank_source_fails_before_any_launch() {
    for source in ["", "   ", "\n\t\r\n", "\u{3000}"] {
        let (state, action) = begin(source, "engine", 4000);
        assert_eq!(action, Action::Stop);
        assert_eq!(state.phase(), Phase::Failed);
        assert_eq!(state, failed(ErrorKind::InputUnavailable, "剪贴板为空或无法读取"));
        let (state, action) = step(state, 0, Reply::EngineLocated("/usr/bin/engine".to_string()));
        assert_eq!(action, Action::Stop);
        let (state, action) = step(state, 0, Reply::Completed);
        assert_eq!(action, Action::Stop);
        assert_eq!(
            state.into_outcome(),
            Some(Err(ConversionError::of_kind(ErrorKind::InputUnavailable)))
        );
    }
}

#[test]
fn document_that_cannot_be_stored() {
    let (state, action) = step(started(), 0, Reply::Failed("disk full".to_string()));
    assert_eq!(state, failed(ErrorKind::OutputWriteFailure, "disk full"));
    assert_eq!(action, Action::Teardown);
    let (state, action) = step(started(), 0, Reply::Completed);
    assert_eq!(state, failed(ErrorKind::OutputWriteFailure, "无法写入文件"));
    assert_eq!(action, Action::Teardown);
}

#[test]
fn engine_not_found() {
    let (state, action) = step(located(), 0, Reply::EngineMissing);
    assert_eq!(state, failed(ErrorKind::EngineNotFound, "未找到 Chrome 或 Edge 浏览器"));
    assert_eq!(action, Action::Teardown);
    assert_eq!(state.phase(), Phase::Failed);
}

#[test]
fn engine_launch_failure() {
    let (state, action) = step(opened(), 0, Reply::Failed("no such file".to_string()));
    assert_eq!(state, failed(ErrorKind::EngineLaunchFailure, "no such file"));
    assert_eq!(action, Action::Teardown);
    let (state, action) = step(framed(), 0, Reply::Failed("closed".to_string()));
    assert_eq!(state, failed(ErrorKind::EngineLaunchFailure, "closed"));
    assert_eq!(action, Action::Teardown);
    let (state, _) = step(opened(), 0, Reply::Height(3));
    assert_eq!(state, failed(ErrorKind::EngineLaunchFailure, "无法启动浏览器"));
}

#[test]
fn navigation_failure() {
    let (state, action) = step(navigating(), 0, Reply::Failed("timed out".to_string()));
    assert_eq!(state, failed(ErrorKind::NavigationFailure, "timed out"));
    assert_eq!(action, Action::Teardown);
    let (state, _) = step(navigating(), 0, Reply::EngineMissing);
    assert_eq!(state, failed(ErrorKind::NavigationFailure, "无法加载文档"));
}

#[test]
fn capture_failure() {
    let (state, action) = step(resizing(120), 0, Reply::Failed("resize".to_string()));
    assert_eq!(state, failed(ErrorKind::CaptureFailure, "resize"));
    assert_eq!(action, Action::Teardown);
    let (state, action) = step(painting(), 0, Reply::Failed("fonts".to_string()));
    assert_eq!(state, failed(ErrorKind::CaptureFailure, "fonts"));
    assert_eq!(action, Action::Teardown);
    let (state, action) = step(capturing(), 0, Reply::Failed("capture".to_string()));
    assert_eq!(state, failed(ErrorKind::CaptureFailure, "capture"));
    assert_eq!(action, Action::Teardown);
    let (state, _) = step(capturing(), 0, Reply::Completed);
    assert_eq!(state, failed(ErrorKind::CaptureFailure, "截图失败"));
}

#[test]
fn unread_signal_is_read_again() {
    for reply in [
        Reply::Signal("0".to_string()),
        Reply::Signal(String::new()),
        Reply::Failed("null".to_string()),
        Reply::Completed,
        Reply::Height(1),
    ] {
        let (state, action) = step(reading(1000), 1001, reply);
        assert_eq!(state, State::Sleeping { started_ms: 1000 });
        assert_eq!(action, Action::Sleep(50));
    }
}

#[test]
fn wait_goes_on_up_to_the_ceiling() {
    let (sleeping, _) = step(reading(1000), 1001, Reply::Completed);
    assert_eq!(sleeping, State::Sleeping { started_ms: 1000 });
    let (state, action) = step(sleeping, 6000, Reply::Completed);
    assert_eq!(state, State::ReadingSignal { started_ms: 1000 });
    assert_eq!(action, Action::ReadSignal(SIGNAL_EXPRESSION));
    let (state, action) = step(State::Sleeping { started_ms: 1000 }, 6001, Reply::Completed);
    assert_eq!(state, State::Measuring { settled: SettleOutcome::SettledByDeadline });
    assert_eq!(action, Action::MeasureHeight(HEIGHT_EXPRESSION));
    let (state, action) = step(State::Sleeping { started_ms: 1000 }, 999, Reply::Completed);
    assert_eq!(state, State::ReadingSignal { started_ms: 1000 });
    assert_eq!(action, Action::ReadSignal(SIGNAL_EXPRESSION));
}

#[test]
fn signal_never_set_ends_within_ceiling_and_interval() {
    let start: u64 = 777;
    let mut now = start;
    let (mut state, mut action) = step(navigating(), now, Reply::Completed);
    let mut steps = 0;
    while state.phase() == Phase::AwaitingSettle {
        let reply = match action {
            Action::ReadSignal(_) => Reply::Signal(String::new()),
            Action::Sleep(ms) => {
                assert_eq!(ms, 50);
                now += ms;
                Reply::Completed
            }
            other => panic!("unexpected call {:?}", other),
        };
        let next = step(state, now, reply);
        state = next.0;
        action = next.1;
        steps += 1;
        assert!(steps <= 202);
    }
    assert_eq!(state, State::Measuring { settled: SettleOutcome::SettledByDeadline });
    assert_eq!(action, Action::MeasureHeight(HEIGHT_EXPRESSION));
    assert_eq!(steps, 202);
    assert_eq!(now - start, 5050);
    assert!(now - start <= 5000 + 50);
}

#[test]
fn unmeasured_page_keeps_the_probe_height() {
    for reply in [Reply::Failed("x".to_string()), Reply::Completed, Reply::Signal("9".to_string())] {
        let (state, action) = step(measuring(), 0, reply);
        assert_eq!(state, State::Resizing { height: 800 });
        assert_eq!(action, Action::SetViewport(ViewportSpec::probe()));
    }
    let (state, action) = step(measuring(), 0, Reply::Height(0));
    assert_eq!(state, State::Resizing { height: 0 });
    assert_eq!(action, Action::SetViewport(ViewportSpec::fitted(0)));
}

#[test]
fn viewport_width_and_scale_never_change() {
    let mut seen: Vec<ViewportSpec> = Vec::new();
    let replies = vec![
        Reply::Stored("p".to_string()),
        Reply::EngineLocated("e".to_string()),
        Reply::Completed,
        Reply::Completed,
        Reply::Completed,
        Reply::Signal("1".to_string()),
        Reply::Height(2468),
        Reply::Completed,
        Reply::Completed,
        Reply::Image(png()),
    ];
    let (mut state, mut action) = begin(SOURCE, "", 4000);
    for reply in replies {
        let next = step(state, 0, reply);
        state = next.0;
        action = next.1;
        match &action {
            Action::Launch { window, .. } => seen.push(*window),
            Action::SetViewport(v) => seen.push(*v),
            _ => {}
        }
    }
    assert_eq!(action, Action::Teardown);
    assert_eq!(seen.len(), 3);
    assert_eq!(seen[0].height, 800);
    assert_eq!(seen[1].height, 800);
    assert_eq!(seen[2].height, 2468);
    for v in &seen {
        assert_eq!(v.width, 375);
        assert_eq!(v.device_scale, 4);
        assert!(v.mobile);
    }
}

#[test]
fn teardown_is_asked_once_on_every_exit() {
    let exits: Vec<(State, Reply)> = vec![
        (started(), Reply::Failed("a".to_string())),
        (located(), Reply::EngineMissing),
        (opened(), Reply::Failed("b".to_string())),
        (framed(), Reply::Failed("c".to_string())),
        (navigating(), Reply::Failed("d".to_string())),
        (resizing(1), Reply::Failed("e".to_string())),
        (painting(), Reply::Failed("f".to_string())),
        (capturing(), Reply::Failed("g".to_string())),
        (capturing(), Reply::Image(png())),
    ];
    for (state, reply) in exits {
        assert!(!state.over());
        let (state, action) = step(state, 0, reply);
        assert!(state.over());
        assert_eq!(action, Action::Teardown);
        let (state, action) = step(state, 0, Reply::Completed);
        assert!(state.over());
        assert_eq!(action, Action::Stop);
        let (state, action) = step(state, 0, Reply::Image(png()));
        assert!(state.over());
        assert_eq!(action, Action::Stop);
    }
}

#[test]
fn finished_conversion_stays_finished() {
    let (done, _) = step(capturing(), 0, Reply::Image(png()));
    let (state, action) = step(done, 1, Reply::Failed("late".to_string()));
    assert_eq!(state, State::Done { image: png() });
    assert_eq!(action, Action::Stop);
    let (state, action) = step(failed(ErrorKind::CaptureFailure, "x"), 1, Reply::Image(png()));
    assert_eq!(state, failed(ErrorKind::CaptureFailure, "x"));
    assert_eq!(action, Action::Stop);
}

#[test]
fn running_conversion_has_no_outcome() {
    assert_eq!(started().into_outcome(), None);
    assert_eq!(capturing().into_outcome(), None);
    assert_eq!(reading(5).phase(), Phase::AwaitingSettle);
    assert_eq!(
        failed(ErrorKind::NavigationFailure, "n").into_outcome(),
        Some(Err(ConversionError::new(ErrorKind::NavigationFailure, "n".to_string())))
    );
}
