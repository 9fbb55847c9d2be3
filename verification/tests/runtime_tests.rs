use mdscreensnap::{
    capture_screenshot_with_monitor, copy_to_clipboard, generate_filename, get_temp_dir,
    get_windows_temp_from_wsl, is_wsl, list_monitors, open_file, run_step, wsl_to_windows_path,
    Args, MonitorSelection, RunAction, RunEvent, RunState, Runtime,
};
use std::cell::RefCell;
use std::collections::HashMap;

#[derive(Debug, Clone, Copy, PartialEq)]
enum Platform {
    Windows,
    Wsl,
    Linux,
}

struct MockRuntime {
    platform: Platform,
    cmds: RefCell<Vec<(String, Vec<String>)>>,
    spawn_cmds: RefCell<Vec<(String, Vec<String>)>>,
    files: RefCell<HashMap<String, String>>,
    file_removals: RefCell<Vec<String>>,
    sleeps: RefCell<Vec<u64>>,
    responses: RefCell<HashMap<String, Vec<u8>>>,
    failures: RefCell<HashMap<String, String>>,
    printed: RefCell<Vec<String>>,
    created_dirs: RefCell<Vec<String>>,
    dir_failure: bool,
}

impl MockRuntime {
    fn new(platform: Platform) -> Self {
        Self {
            platform,
            cmds: RefCell::new(Vec::new()),
            spawn_cmds: RefCell::new(Vec::new()),
            files: RefCell::new(HashMap::new()),
            file_removals: RefCell::new(Vec::new()),
            sleeps: RefCell::new(Vec::new()),
            responses: RefCell::new(HashMap::new()),
            failures: RefCell::new(HashMap::new()),
            printed: RefCell::new(Vec::new()),
            created_dirs: RefCell::new(Vec::new()),
            dir_failure: false,
        }
    }

    fn with_response(self, cmd: &str, output: &[u8]) -> Self {
        self.responses.borrow_mut().insert(cmd.to_string(), output.to_vec());
        self
    }

    fn with_failure(self, cmd: &str, message: &str) -> Self {
        self.failures.borrow_mut().insert(cmd.to_string(), message.to_string());
        self
    }
}

impl Runtime for MockRuntime {
    fn sleep(&self, seconds: u64) {
        self.sleeps.borrow_mut().push(seconds);
    }

    fn temp_dir(&self) -> String {
        "/tmp".to_string()
    }

    fn create_dir_all(&self, path: &str) -> Result<(), String> {
        self.created_dirs.borrow_mut().push(path.to_string());
        if self.dir_failure {
            Err("Failed to create directory".to_string())
        } else {
            Ok(())
        }
    }

    fn remove_file(&self, path: &str) -> Result<(), String> {
        self.file_removals.borrow_mut().push(path.to_string());
        Ok(())
    }

    fn read_to_string(&self, path: &str) -> Result<String, String> {
        self.files
            .borrow()
            .get(path)
            .cloned()
            .ok_or_else(|| "File not found in mock".to_string())
    }

    fn path_exists(&self, path: &str) -> bool {
        self.files.borrow().contains_key(path)
    }

    fn exec_command(&self, command: &str, args: &[&str]) -> Result<Vec<u8>, String> {
        let args_vec: Vec<String> = args.iter().map(|s| s.to_string()).collect();
        self.cmds.borrow_mut().push((command.to_string(), args_vec));

        if let Some(message) = self.failures.borrow().get(command) {
            return Err(message.clone());
        }
        if let Some(response) = self.responses.borrow().get(command) {
            return Ok(response.clone());
        }
        if command == "wslpath" {
            let arg = args[1];
            if arg.starts_with("/mnt/c/") {
                Ok(arg.replace("/mnt/c/", "C:\\").replace("/", "\\").as_bytes().to_vec())
            } else if arg.starts_with("C:") {
                Ok(arg.replace("C:\\", "/mnt/c/").replace("\\", "/").as_bytes().to_vec())
            } else {
                Ok(arg.as_bytes().to_vec())
            }
        } else {
            Ok(Vec::new())
        }
    }

    fn spawn_command(&self, command: &str, args: &[&str]) -> Result<(), String> {
        let args_vec: Vec<String> = args.iter().map(|s| s.to_string()).collect();
        self.spawn_cmds.borrow_mut().push((command.to_string(), args_vec));
        Ok(())
    }

    fn is_windows(&self) -> bool {
        self.platform == Platform::Windows
    }
}

/// Runs one invocation the way the command-line program does, with a fixed
/// current directory and process id, collecting what is printed.
fn run(args: Args, rt: &MockRuntime) -> Result<(), String> {
    let mut state = RunState::new(args);
    let mut event = RunEvent::Begin;
    loop {
        let (next, action) = run_step(state, event);
        state = next;
        event = match action {
            RunAction::ListMonitors => RunEvent::Located(list_monitors(rt)),
            RunAction::CreateDir(dir) => RunEvent::Done(rt.create_dir_all(&dir)),
            RunAction::CurrentDir => RunEvent::Located(Ok("/work".to_string())),
            RunAction::TempDir => RunEvent::Located(Ok(get_temp_dir(rt))),
            RunAction::GenerateFilename(name) => RunEvent::Located(Ok(generate_filename(&name))),
            RunAction::Print(text) => {
                rt.printed.borrow_mut().push(text);
                RunEvent::Done(Ok(()))
            }
            RunAction::Sleep(seconds) => {
                rt.sleep(seconds);
                RunEvent::Done(Ok(()))
            }
            RunAction::TempFile => RunEvent::TempFile(rt.temp_dir(), 4242),
            RunAction::Capture(path, monitor) => {
                RunEvent::Done(capture_screenshot_with_monitor(rt, &path, &monitor))
            }
            RunAction::CopyToClipboard(path) => RunEvent::Done(copy_to_clipboard(rt, &path)),
            RunAction::RemoveFile(path) => {
                let _ = rt.remove_file(&path);
                RunEvent::Done(Ok(()))
            }
            RunAction::Open(path) => RunEvent::Done(open_file(rt, &path)),
            RunAction::Finish(result) => return result,
        };
    }
}

fn base_args() -> Args {
    Args {
        file: None,
        dry_run: false,
        monitor: "primary".to_string(),
        name: None,
        output: None,
        delay: 0,
        open: false,
        quiet: false,
        clipboard: false,
        no_save: false,
        list_monitors: false,
    }
}

#[test]
fn test_run_dry_run() {
    let rt = MockRuntime::new(Platform::Windows);
    let args = Args { dry_run: true, ..base_args() };

    run(args, &rt).unwrap();

    assert!(rt.cmds.borrow().is_empty());
}

#[test]
fn test_run_capture_windows_primary() {
    let rt = MockRuntime::new(Platform::Windows);
    let args = Args {
        name: Some("test".to_string()),
        output: Some("C:\\Screenshots".to_string()),
        ..base_args()
    };

    run(args, &rt).unwrap();

    let cmds = rt.cmds.borrow();
    assert_eq!(cmds.len(), 1);
    assert_eq!(cmds[0].0, "powershell");
    assert!(cmds[0].1.contains(&"-Command".to_string()));
    let script = &cmds[0].1[3];
    assert!(script.contains("C:\\\\Screenshots"));
    assert!(script.contains("PrimaryScreen"));
}

#[test]
fn test_run_capture_wsl_primary() {
    let rt = MockRuntime::new(Platform::Wsl).with_response("wslpath", b"C:\\Screenshots\\test.png");

    rt.files.borrow_mut().insert(
        "/proc/version".to_string(),
        "Linux version ... Microsoft ... WSL2".to_string(),
    );

    let args = Args { output: Some("/mnt/c/Screenshots".to_string()), ..base_args() };

    run(args, &rt).unwrap();

    let cmds = rt.cmds.borrow();
    assert_eq!(cmds.len(), 2);
    assert_eq!(cmds[0].0, "wslpath");
    assert_eq!(cmds[1].0, "powershell.exe");
}

#[test]
fn test_run_delay() {
    let rt = MockRuntime::new(Platform::Windows);
    let args = Args { delay: 5, ..base_args() };

    run(args, &rt).unwrap();

    let sleeps = rt.sleeps.borrow();
    assert_eq!(sleeps.len(), 1);
    assert_eq!(sleeps[0], 5);
}

#[test]
fn test_run_clipboard_only_no_save() {
    let rt = MockRuntime::new(Platform::Windows);
    let args = Args { clipboard: true, no_save: true, ..base_args() };

    run(args, &rt).unwrap();

    let cmds = rt.cmds.borrow();
    assert_eq!(cmds.len(), 2);

    let capture_script = &cmds[0].1[3];
    assert!(capture_script.contains("mdscreensnap_temp"));

    let removals = rt.file_removals.borrow();
    assert_eq!(removals.len(), 1);
    assert!(removals[0].contains("mdscreensnap_temp"));
}

#[test]
fn test_run_open_file() {
    let rt = MockRuntime::new(Platform::Windows);
    let args = Args { output: Some("C:\\Out".to_string()), open: true, ..base_args() };

    run(args, &rt).unwrap();

    let spawned = rt.spawn_cmds.borrow();
    assert_eq!(spawned.len(), 1);
    assert_eq!(spawned[0].0, "cmd");
    assert!(spawned[0].1.iter().any(|arg| arg.starts_with("C:\\Out")));
}

#[test]
fn test_list_monitors_windows() {
    let rt = MockRuntime::new(Platform::Windows);
    let args = Args { list_monitors: true, ..base_args() };

    run(args, &rt).unwrap();

    let cmds = rt.cmds.borrow();
    assert_eq!(cmds.len(), 1);
    assert_eq!(cmds[0].0, "powershell");
    assert!(cmds[0].1[3].contains("System.Windows.Forms.Screen"));
}

#[test]
fn test_is_wsl_detection() {
    // Case 1: Windows (returns false immediately)
    let rt_win = MockRuntime::new(Platform::Windows);
    assert!(!is_wsl(&rt_win));

    // Case 2: Linux with WSL version file
    let rt_wsl = MockRuntime::new(Platform::Wsl);
    rt_wsl.files.borrow_mut().insert(
        "/proc/version".to_string(),
        "Linux version ... Microsoft ... WSL2".to_string(),
    );
    assert!(is_wsl(&rt_wsl));

    // Case 3: Linux with Interop file
    let rt_interop = MockRuntime::new(Platform::Wsl);
    rt_interop
        .files
        .borrow_mut()
        .insert("/proc/sys/fs/binfmt_misc/WSLInterop".to_string(), "".to_string());
    assert!(is_wsl(&rt_interop));

    // Case 4: Native Linux
    let rt_linux = MockRuntime::new(Platform::Linux);
    rt_linux
        .files
        .borrow_mut()
        .insert("/proc/version".to_string(), "Linux version ... generic".to_string());
    assert!(!is_wsl(&rt_linux));
}

#[test]
fn test_unsupported_platform() {
    let rt = MockRuntime::new(Platform::Linux);

    let result = run(base_args(), &rt);
    assert!(result.is_err());
    assert_eq!(
        result.unwrap_err().to_string(),
        "Screenshot capture is only supported on Windows and WSL"
    );
}

#[test]
fn test_get_temp_dir_wsl() {
    let rt = MockRuntime::new(Platform::Wsl)
        .with_response("cmd.exe", b"C:\\Users\\test\\AppData\\Local\\Temp\r\n")
        .with_response("wslpath", b"/mnt/c/Users/test/AppData/Local/Temp\n");

    rt.files
        .borrow_mut()
        .insert("/proc/version".to_string(), "Linux ... WSL2".to_string());

    let temp = get_temp_dir(&rt);
    assert_eq!(temp, "/mnt/c/Users/test/AppData/Local/Temp");
}

#[test]
fn test_list_monitors_wsl() {
    let rt = MockRuntime::new(Platform::Wsl);

    rt.files
        .borrow_mut()
        .insert("/proc/version".to_string(), "Linux ... WSL2".to_string());

    let args = Args { list_monitors: true, ..base_args() };

    run(args, &rt).unwrap();

    let cmds = rt.cmds.borrow();
    assert!(!cmds.is_empty());
    let last_cmd = cmds.last().unwrap();
    assert_eq!(last_cmd.0, "powershell.exe");
    assert!(last_cmd.1[3].contains("System.Windows.Forms.Screen"));
}

#[test]
fn test_run_capture_all() {
    let rt = MockRuntime::new(Platform::Windows);
    let args = Args {
        monitor: "all".to_string(),
        output: Some("C:\\Screenshots".to_string()),
        ..base_args()
    };

    run(args, &rt).unwrap();

    let cmds = rt.cmds.borrow();
    assert_eq!(cmds.len(), 1);
    let script = &cmds[0].1[3];
    assert!(script.contains("$totalWidth"));
    assert!(script.contains("foreach ($screen in $screens)"));
}

#[test]
fn test_run_capture_index() {
    let rt = MockRuntime::new(Platform::Windows);
    let args = Args {
        monitor: "1".to_string(),
        output: Some("C:\\Screenshots".to_string()),
        ..base_args()
    };

    run(args, &rt).unwrap();

    let cmds = rt.cmds.borrow();
    assert_eq!(cmds.len(), 1);
    let script = &cmds[0].1[3];
    assert!(script.contains("$screens[$index]"));
    assert!(script.contains("$index = 1"));
}

#[test]
fn test_list_monitors_unsupported() {
    let rt = MockRuntime::new(Platform::Linux);
    let args = Args { list_monitors: true, ..base_args() };

    let result = run(args, &rt);
    assert!(result.is_err());
    assert_eq!(
        result.unwrap_err().to_string(),
        "Monitor listing is only supported on Windows and WSL"
    );
}

#[test]
fn test_run_positional_file_arg() {
    let rt = MockRuntime::new(Platform::Windows);
    let args = Args {
        file: Some("C:\\Screenshots\\capture.png".to_string()),
        dry_run: true,
        ..base_args()
    };

    run(args, &rt).unwrap();

    assert!(rt.cmds.borrow().is_empty());
}

#[test]
fn test_run_positional_file_adds_png_extension() {
    let rt = MockRuntime::new(Platform::Windows);
    let args = Args {
        file: Some("C:\\Screenshots\\capture".to_string()),
        dry_run: true,
        ..base_args()
    };

    run(args, &rt).unwrap();
}

// ==================== Further scenarios ====================

#[test]
fn dry_run_prints_the_png_path_of_an_explicit_file() {
    let rt = MockRuntime::new(Platform::Windows);
    let args = Args { file: Some("/shots/capture".to_string()), dry_run: true, ..base_args() };

    run(args, &rt).unwrap();

    assert_eq!(rt.printed.borrow().clone(), vec!["/shots/capture.png\n".to_string()]);
}

#[test]
fn relative_explicit_file_is_resolved_against_the_current_directory() {
    let rt = MockRuntime::new(Platform::Windows);
    let args = Args { file: Some("out.png".to_string()), dry_run: true, ..base_args() };

    run(args, &rt).unwrap();

    assert_eq!(rt.printed.borrow().clone(), vec!["/work/out.png\n".to_string()]);
}

#[test]
fn messages_follow_delay_capture_and_clipboard() {
    let rt = MockRuntime::new(Platform::Windows);
    let args = Args {
        file: Some("/shots/a.png".to_string()),
        delay: 3,
        clipboard: true,
        ..base_args()
    };

    run(args, &rt).unwrap();

    assert_eq!(
        rt.printed.borrow().clone(),
        vec![
            "Waiting 3 seconds before capture...\n".to_string(),
            "Screenshot saved to: /shots/a.png\n".to_string(),
            "Screenshot copied to clipboard\n".to_string(),
        ]
    );
    assert_eq!(rt.sleeps.borrow().clone(), vec![3]);
}

#[test]
fn quiet_run_prints_nothing() {
    let rt = MockRuntime::new(Platform::Windows);
    let args = Args { delay: 1, clipboard: true, quiet: true, ..base_args() };

    run(args, &rt).unwrap();

    assert!(rt.printed.borrow().is_empty());
    assert_eq!(rt.cmds.borrow().len(), 2);
}

#[test]
fn quiet_run_makes_the_same_calls_as_a_loud_one() {
    let loud = MockRuntime::new(Platform::Windows);
    let quiet = MockRuntime::new(Platform::Windows);
    let args = Args {
        file: Some("/shots/a".to_string()),
        delay: 2,
        clipboard: true,
        open: true,
        ..base_args()
    };

    let loud_result = run(args.clone(), &loud);
    let quiet_result = run(Args { quiet: true, ..args }, &quiet);

    assert_eq!(loud_result, quiet_result);
    assert_eq!(loud.cmds.borrow().clone(), quiet.cmds.borrow().clone());
    assert_eq!(loud.spawn_cmds.borrow().clone(), quiet.spawn_cmds.borrow().clone());
    assert_eq!(loud.sleeps.borrow().clone(), quiet.sleeps.borrow().clone());
    assert_eq!(loud.created_dirs.borrow().clone(), quiet.created_dirs.borrow().clone());
    assert_eq!(loud.file_removals.borrow().clone(), quiet.file_removals.borrow().clone());
    assert_eq!(loud.printed.borrow().len(), 3);
    assert!(quiet.printed.borrow().is_empty());
}

#[test]
fn capture_failure_stops_the_run() {
    let rt = MockRuntime::new(Platform::Windows).with_failure("powershell", "boom");
    let args = Args { clipboard: true, open: true, ..base_args() };

    let result = run(args, &rt);

    assert_eq!(result, Err("boom".to_string()));
    assert_eq!(rt.cmds.borrow().len(), 1);
    assert!(rt.spawn_cmds.borrow().is_empty());
}

#[test]
fn no_save_never_opens_the_file() {
    let rt = MockRuntime::new(Platform::Windows);
    let args = Args { clipboard: true, no_save: true, open: true, ..base_args() };

    run(args, &rt).unwrap();

    assert!(rt.spawn_cmds.borrow().is_empty());
    assert_eq!(rt.file_removals.borrow().clone(), vec!["/tmp/mdscreensnap_temp_4242.png".to_string()]);
}

#[test]
fn listing_is_printed_as_returned() {
    let rt = MockRuntime::new(Platform::Windows).with_response("powershell", b"0: DISPLAY1 (primary)\n");
    let args = Args { list_monitors: true, ..base_args() };

    run(args, &rt).unwrap();

    assert_eq!(rt.printed.borrow().clone(), vec!["0: DISPLAY1 (primary)\n".to_string()]);
}

#[test]
fn windows_temp_from_wsl_converts_and_trims() {
    let rt = MockRuntime::new(Platform::Wsl)
        .with_response("cmd.exe", b"  C:\\Temp  \r\n")
        .with_response("wslpath", b"/mnt/c/Temp\n");

    assert_eq!(get_windows_temp_from_wsl(&rt), Ok("/mnt/c/Temp".to_string()));
    let cmds = rt.cmds.borrow();
    assert_eq!(cmds[0], ("cmd.exe".to_string(), vec!["/C".to_string(), "echo %TEMP%".to_string()]));
    assert_eq!(cmds[1], ("wslpath".to_string(), vec!["-u".to_string(), "C:\\Temp".to_string()]));
}

#[test]
fn windows_temp_failure_is_reported() {
    let rt = MockRuntime::new(Platform::Wsl).with_failure("cmd.exe", "no cmd");
    assert_eq!(get_windows_temp_from_wsl(&rt), Err("no cmd".to_string()));
}

#[test]
fn temp_dir_on_wsl_falls_back_when_windows_temp_fails() {
    let rt = MockRuntime::new(Platform::Wsl).with_failure("wslpath", "no wslpath");
    rt.files
        .borrow_mut()
        .insert("/proc/version".to_string(), "Linux ... WSL2".to_string());

    assert_eq!(get_temp_dir(&rt), "/tmp");
}

#[test]
fn temp_dir_off_wsl_is_the_runtime_one() {
    let rt = MockRuntime::new(Platform::Windows);
    assert_eq!(get_temp_dir(&rt), "/tmp");
    assert!(rt.cmds.borrow().is_empty());
}

#[test]
fn wsl_path_conversion_trims_output() {
    let rt = MockRuntime::new(Platform::Wsl).with_response("wslpath", b"C:\\a\\b.png\r\n");
    assert_eq!(wsl_to_windows_path(&rt, "/mnt/c/a/b.png"), Ok("C:\\a\\b.png".to_string()));
    let cmds = rt.cmds.borrow();
    assert_eq!(cmds[0].1, vec!["-w".to_string(), "/mnt/c/a/b.png".to_string()]);
}

#[test]
fn capture_on_wsl_uses_the_converted_escaped_path() {
    let rt = MockRuntime::new(Platform::Wsl).with_response("wslpath", b"C:\\It's\\x.png\n");
    rt.files
        .borrow_mut()
        .insert("/proc/sys/fs/binfmt_misc/WSLInterop".to_string(), "".to_string());

    capture_screenshot_with_monitor(&rt, "/mnt/c/It's/x.png", &MonitorSelection::All).unwrap();

    let cmds = rt.cmds.borrow();
    assert_eq!(cmds.len(), 2);
    assert_eq!(cmds[1].0, "powershell.exe");
    assert_eq!(cmds[1].1[0], "-NoProfile");
    assert_eq!(cmds[1].1[1], "-NonInteractive");
    assert_eq!(cmds[1].1[2], "-Command");
    assert!(cmds[1].1[3].contains("$bitmap.Save('C:\\\\It''s\\\\x.png'"));
}

#[test]
fn clipboard_on_windows_escapes_only_quotes() {
    let rt = MockRuntime::new(Platform::Windows);
    copy_to_clipboard(&rt, "C:\\It's.png").unwrap();
    let cmds = rt.cmds.borrow();
    assert_eq!(cmds[0].0, "powershell");
    assert!(cmds[0].1[3].contains("FromFile('C:\\It''s.png')"));
}

#[test]
fn clipboard_on_wsl_escapes_backslashes_and_quotes() {
    let rt = MockRuntime::new(Platform::Wsl).with_response("wslpath", b"C:\\x.png");
    rt.files
        .borrow_mut()
        .insert("/proc/version".to_string(), "microsoft".to_string());
    copy_to_clipboard(&rt, "/mnt/c/x.png").unwrap();
    let cmds = rt.cmds.borrow();
    assert_eq!(cmds[1].0, "powershell.exe");
    assert!(cmds[1].1[3].contains("FromFile('C:\\\\x.png')"));
}

#[test]
fn clipboard_unsupported_platform() {
    let rt = MockRuntime::new(Platform::Linux);
    assert_eq!(
        copy_to_clipboard(&rt, "/x.png"),
        Err("Clipboard copy is only supported on Windows and WSL".to_string())
    );
    assert!(rt.cmds.borrow().is_empty());
}

#[test]
fn open_file_per_platform() {
    let win = MockRuntime::new(Platform::Windows);
    open_file(&win, "C:\\a.png").unwrap();
    assert_eq!(
        win.spawn_cmds.borrow()[0],
        (
            "cmd".to_string(),
            vec!["/C".to_string(), "start".to_string(), "".to_string(), "C:\\a.png".to_string()]
        )
    );

    let wsl = MockRuntime::new(Platform::Wsl);
    wsl.files
        .borrow_mut()
        .insert("/proc/version".to_string(), "WSL".to_string());
    open_file(&wsl, "/mnt/c/a.png").unwrap();
    assert_eq!(
        wsl.spawn_cmds.borrow()[0],
        (
            "cmd.exe".to_string(),
            vec!["/C".to_string(), "start".to_string(), "".to_string(), "C:\\a.png".to_string()]
        )
    );

    let linux = MockRuntime::new(Platform::Linux);
    open_file(&linux, "/home/a.png").unwrap();
    assert_eq!(
        linux.spawn_cmds.borrow()[0],
        ("xdg-open".to_string(), vec!["/home/a.png".to_string()])
    );
}

#[test]
fn open_failure_of_path_conversion_is_reported() {
    let wsl = MockRuntime::new(Platform::Wsl).with_failure("wslpath", "bad path");
    wsl.files
        .borrow_mut()
        .insert("/proc/version".to_string(), "WSL".to_string());
    assert_eq!(open_file(&wsl, "/x"), Err("bad path".to_string()));
    assert!(wsl.spawn_cmds.borrow().is_empty());
}

#[test]
fn listing_failure_is_reported() {
    let rt = MockRuntime::new(Platform::Windows).with_failure("powershell", "denied");
    assert_eq!(list_monitors(&rt), Err("denied".to_string()));
}

#[test]
fn listing_output_is_decoded_leniently() {
    let rt = MockRuntime::new(Platform::Windows).with_response("powershell", b"a\xffb");
    assert_eq!(list_monitors(&rt), Ok("a\u{FFFD}b".to_string()));
}

#[test]
fn explicit_file_creates_its_parent_directory() {
    let rt = MockRuntime::new(Platform::Windows);
    let args = Args { file: Some("/shots/day/capture".to_string()), dry_run: true, ..base_args() };

    run(args, &rt).unwrap();

    assert_eq!(rt.created_dirs.borrow().clone(), vec!["/shots/day".to_string()]);
}

#[test]
fn output_directory_failure_names_the_directory() {
    let mut rt = MockRuntime::new(Platform::Windows);
    rt.dir_failure = true;
    let args = Args { output: Some("/no \"way\"".to_string()), ..base_args() };

    let result = run(args, &rt);

    assert_eq!(result, Err("Failed to create output directory: \"/no \\\"way\\\"\"".to_string()));
    assert!(rt.cmds.borrow().is_empty());
}

#[test]
fn generated_output_path_is_inside_the_output_directory() {
    let rt = MockRuntime::new(Platform::Windows);
    let args = Args { output: Some("/shots".to_string()), name: Some("a/b".to_string()), dry_run: true, ..base_args() };

    run(args, &rt).unwrap();

    let printed = rt.printed.borrow();
    assert_eq!(printed.len(), 1);
    assert!(printed[0].starts_with("/shots/"));
    assert!(printed[0].ends_with("_a_b.png\n"));
    assert!(mdscreensnap::validate_filename_format(&printed[0]["/shots/".len()..printed[0].len() - 1]));
}

#[test]
fn explicit_file_without_parent_creates_the_current_directory() {
    let rt = MockRuntime::new(Platform::Windows);
    let args = Args { file: Some("/".to_string()), dry_run: true, ..base_args() };

    run(args, &rt).unwrap();

    assert_eq!(rt.created_dirs.borrow().clone(), vec![".".to_string()]);
    assert_eq!(rt.printed.borrow().clone(), vec!["/\n".to_string()]);
}
