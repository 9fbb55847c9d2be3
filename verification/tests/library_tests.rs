use mdscreensnap::script::{escape_powershell_path, escape_quotes, generate_clipboard_script, LIST_MONITORS_SCRIPT};
use mdscreensnap::session::temp_capture_file_name;
use mdscreensnap::text::{contains_text, decimal_text, replaced, same_text};
use mdscreensnap::{
    build_output_path, check_wsl_from_proc_version, generate_filename,
    generate_filename_with_datetime, generate_powershell_script,
    generate_powershell_script_with_monitor, is_invalid_filename_char, parse_monitor_selection,
    sanitize_filename, validate_filename_format, CaptureMethod, MonitorSelection,
};

#[test]
fn test_generate_filename_without_suffix() {
    let filename = generate_filename(&None);
    assert!(filename.ends_with(".png"));
    assert!(filename.contains("."));
}

#[test]
fn test_generate_filename_with_suffix() {
    let filename = generate_filename(&Some("test".to_string()));
    assert!(filename.ends_with("_test.png"));
}

#[test]
fn test_sanitize_filename_forward_slash() {
    assert_eq!(sanitize_filename("hello/world"), "hello_world");
}

#[test]
fn test_capture_method_display() {
    assert_eq!(CaptureMethod::Windows.display_text(), "Windows (PowerShell)");
    assert_eq!(CaptureMethod::Wsl.display_text(), "WSL (PowerShell)");
    assert_eq!(CaptureMethod::Unsupported.display_text(), "Unsupported");
}

// ==================== Monitor selection ====================

#[test]
fn monitor_words_and_numbers() {
    assert_eq!(parse_monitor_selection("primary"), MonitorSelection::Primary);
    assert_eq!(parse_monitor_selection("PRIMARY"), MonitorSelection::Primary);
    assert_eq!(parse_monitor_selection("All"), MonitorSelection::All);
    assert_eq!(parse_monitor_selection("0"), MonitorSelection::Index(0));
    assert_eq!(parse_monitor_selection("2"), MonitorSelection::Index(2));
    assert_eq!(parse_monitor_selection("+3"), MonitorSelection::Index(3));
}

#[test]
fn monitor_unknown_words_fall_back_to_primary() {
    assert_eq!(parse_monitor_selection("second"), MonitorSelection::Primary);
    assert_eq!(parse_monitor_selection(""), MonitorSelection::Primary);
    assert_eq!(parse_monitor_selection("-1"), MonitorSelection::Primary);
    assert_eq!(parse_monitor_selection(" 1"), MonitorSelection::Primary);
    assert_eq!(parse_monitor_selection("99999999999999999999999"), MonitorSelection::Primary);
}

#[test]
fn monitor_display_reads_back() {
    for m in [MonitorSelection::Primary, MonitorSelection::All, MonitorSelection::Index(0), MonitorSelection::Index(17)] {
        assert_eq!(parse_monitor_selection(&m.display_text()), m);
    }
    assert_eq!(MonitorSelection::Index(42).display_text(), "42");
    assert_eq!(MonitorSelection::Primary.display_text(), "primary");
    assert_eq!(MonitorSelection::All.display_text(), "all");
}

// ==================== File names ====================

#[test]
fn readme_example_file_name() {
    let name = generate_filename_with_datetime(&Some("project-update".to_string()), "2026.01.03_120000".to_string());
    assert_eq!(name, "2026.01.03_120000_project-update.png");
}

#[test]
fn file_name_without_suffix() {
    assert_eq!(generate_filename_with_datetime(&None, "2024.05.06_070809".to_string()), "2024.05.06_070809.png");
}

#[test]
fn file_name_suffix_is_sanitized() {
    assert_eq!(
        generate_filename_with_datetime(&Some("a:b*c?\"d<e>f|g\\h".to_string()), "2024.05.06_070809".to_string()),
        "2024.05.06_070809_a_b_c__d_e_f_g_h.png"
    );
}

#[test]
fn invalid_characters() {
    for c in ['/', '\\', ':', '*', '?', '"', '<', '>', '|'] {
        assert!(is_invalid_filename_char(c));
    }
    for c in ['a', '_', '.', ' ', '-', 'é'] {
        assert!(!is_invalid_filename_char(c));
    }
    assert_eq!(sanitize_filename("ok name.é"), "ok name.é");
    let once = sanitize_filename("x/y:z");
    assert_eq!(sanitize_filename(&once), once);
}

#[test]
fn filename_format_accepts_generated_names() {
    assert!(validate_filename_format("2024.05.06_070809.png"));
    assert!(validate_filename_format("2024.05.06_070809_x.png"));
    assert!(validate_filename_format("2024.05.06_070809_a.png.png"));
    assert!(validate_filename_format(&generate_filename(&None)));
    assert!(validate_filename_format(&generate_filename(&Some("shot".to_string()))));
}

#[test]
fn filename_format_rejects_other_shapes() {
    assert!(!validate_filename_format("2024.05.06_070809_.png"));
    assert!(!validate_filename_format("2024.05.06_07080.png"));
    assert!(!validate_filename_format("2024-05-06_070809.png"));
    assert!(!validate_filename_format("2024.05.06_070809.jpg"));
    assert!(!validate_filename_format("2024.05.06_070809_a\nb.png"));
    assert!(!validate_filename_format("2024.05.06_070809x.png"));
    assert!(!validate_filename_format(""));
}

#[test]
fn filename_format_accepts_digits_of_any_script() {
    assert!(validate_filename_format("\u{662}\u{660}\u{662}\u{664}.05.06_070809.png"));
    assert!(validate_filename_format("2024.\u{966}\u{96b}.06_070809_x.png"));
    assert!(validate_filename_format("\u{ff12}\u{ff10}\u{ff12}\u{ff14}.05.06_070809.png"));
    assert!(!validate_filename_format("\u{b2}024.05.06_070809.png"));
    assert!(!validate_filename_format("\u{2166}024.05.06_070809.png"));
}

#[test]
fn filename_format_agrees_with_the_regular_expressions() {
    let plain = regex::Regex::new(r"^\d{4}\.\d{2}\.\d{2}_\d{6}\.png$").unwrap();
    let suffixed = regex::Regex::new(r"^\d{4}\.\d{2}\.\d{2}_\d{6}_.+\.png$").unwrap();
    let mut names: Vec<String> = vec![
        "2024.05.06_070809.png".to_string(),
        "2024.05.06_070809_x.png".to_string(),
        "2024.05.06_070809_.png".to_string(),
        "2024.05.06_070809_a\nb.png".to_string(),
        "2024.05.06_07080.png".to_string(),
        "\u{b2}024.05.06_070809.png".to_string(),
        "2024.05.06_070809.PNG".to_string(),
        "".to_string(),
    ];
    for zero in [0x660u32, 0x10d40, 0x11bf0, 0x11f50, 0x16d70, 0x1ccf0, 0x1e4f0, 0x1e5f1, 0x1fbf0] {
        for k in [0u32, 9, 10] {
            let c = char::from_u32(zero + k).unwrap();
            names.push(format!("{c}024.05.06_070809.png"));
            names.push(format!("2024.05.06_07080{c}_s.png"));
        }
    }
    for name in &names {
        let expected = plain.is_match(name) || suffixed.is_match(name);
        assert_eq!(validate_filename_format(name), expected, "{name:?}");
    }
}

#[test]
fn output_path_ends_with_generated_name() {
    let p = build_output_path("/shots", &Some("x".to_string()));
    assert!(p.starts_with("/shots/"));
    assert!(p.ends_with("_x.png"));
    assert!(validate_filename_format(&p["/shots/".len()..]));
}

#[test]
fn temp_capture_name() {
    assert_eq!(temp_capture_file_name(4242), "mdscreensnap_temp_4242.png");
    assert_eq!(temp_capture_file_name(0), "mdscreensnap_temp_0.png");
}

// ==================== WSL detection ====================

#[test]
fn wsl_markers_in_any_case() {
    assert!(check_wsl_from_proc_version("Linux version 5.15 (Microsoft)"));
    assert!(check_wsl_from_proc_version("...-microsoft-standard-WSL2"));
    assert!(check_wsl_from_proc_version("wsl"));
    assert!(!check_wsl_from_proc_version("Linux version 6.1 generic"));
    assert!(!check_wsl_from_proc_version(""));
}

// ==================== Scripts ====================

#[test]
fn primary_script_is_the_default() {
    assert_eq!(
        generate_powershell_script("C:\\a.png"),
        generate_powershell_script_with_monitor("C:\\a.png", &MonitorSelection::Primary)
    );
}

#[test]
fn scripts_embed_the_escaped_path() {
    let s = generate_powershell_script_with_monitor("C:\\O'Neil\\shot.png", &MonitorSelection::Primary);
    assert!(s.starts_with("#\nAdd-Type -AssemblyName System.Windows.Forms\n"));
    assert!(s.contains("[System.Windows.Forms.Screen]::PrimaryScreen"));
    assert!(s.contains("$bitmap.Save('C:\\\\O''Neil\\\\shot.png', [System.Drawing.Imaging.ImageFormat]::Png)"));
    assert!(s.ends_with("$graphics.Dispose()\n$bitmap.Dispose()\n"));

    let i = generate_powershell_script_with_monitor("D:\\x.png", &MonitorSelection::Index(12));
    assert!(i.contains("$index = 12\nif ($index -ge $screens.Length) {\n"));
    assert!(i.contains("$screen = $screens[$index]"));

    let a = generate_powershell_script_with_monitor("D:\\x.png", &MonitorSelection::All);
    assert!(a.contains("Write-Error \"Invalid screen dimensions: ${totalWidth}x${totalHeight}\""));
    assert!(a.contains("$bitmap.Save('D:\\\\x.png'"));
}

#[test]
fn path_escapes() {
    assert_eq!(escape_powershell_path("C:\\a'b"), "C:\\\\a''b");
    assert_eq!(escape_quotes("C:\\a'b"), "C:\\a''b");
    assert_eq!(escape_powershell_path(""), "");
}

#[test]
fn clipboard_and_listing_scripts() {
    let c = generate_clipboard_script("C:\\x.png");
    assert_eq!(
        c,
        "#\nAdd-Type -AssemblyName System.Windows.Forms\n$image = [System.Drawing.Image]::FromFile('C:\\x.png')\n[System.Windows.Forms.Clipboard]::SetImage($image)\n$image.Dispose()\n"
    );
    assert!(LIST_MONITORS_SCRIPT.contains("[System.Windows.Forms.Screen]::AllScreens"));
}

// ==================== Text helpers and standard functions ====================

#[test]
fn text_helpers() {
    assert!(contains_text("hello world", "o w"));
    assert!(contains_text("abc", ""));
    assert!(!contains_text("ab", "abc"));
    assert!(same_text("ä", "ä"));
    assert!(!same_text("a", "b"));
    assert_eq!(replaced("a-b-c", '-', "--"), "a--b--c");
    assert_eq!(decimal_text(0), "0");
    assert_eq!(decimal_text(1234567890), "1234567890");
}

#[test]
fn lowercasing_is_unicode_aware() {
    assert!(check_wsl_from_proc_version("Ünïcode MICROSOFT"));
    assert!(!check_wsl_from_proc_version("Ünïcode MACROSOFT"));
    assert_eq!(parse_monitor_selection("ALL"), MonitorSelection::All);
    assert_eq!(parse_monitor_selection("PrImArY"), MonitorSelection::Primary);
}

