//! Core logic of a small screenshot tool for Windows and WSL: monitor
//! selection, timestamped file names, PowerShell capture scripts, the
//! platform-probing protocol spoken with a `Runtime`, and the plan that
//! drives one invocation of the tool.

pub mod text;
pub mod monitor;
pub mod paths;
pub mod filename;
pub mod script;
pub mod protocol;
pub mod plan;
pub mod runtime;
pub mod session;

pub use filename::{
    build_output_path, generate_filename, generate_filename_with_datetime, is_invalid_filename_char,
    sanitize_filename, validate_filename_format,
};
pub use monitor::{parse_monitor_selection, CaptureMethod, MonitorSelection};
pub use plan::check_wsl_from_proc_version;
pub use runtime::{
    capture_screenshot_with_monitor, copy_to_clipboard, get_temp_dir, get_windows_temp_from_wsl,
    is_wsl, list_monitors, open_file, wsl_to_windows_path, Runtime,
};
pub use script::{generate_powershell_script, generate_powershell_script_with_monitor};
pub use session::{run_step, Args, RunAction, RunEvent, RunState};
