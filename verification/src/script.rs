//! The PowerShell scripts that capture the screen, list monitors and copy an
//! image to the clipboard.

use vstd::prelude::*;
use crate::monitor::MonitorSelection;
use crate::text::{decimal, push_decimal, replace_char, replaced};

verus! {

pub const LIST_MONITORS_SCRIPT: &'static str = r#"#
    Add-Type -AssemblyName System.Windows.Forms
    $screens = [System.Windows.Forms.Screen]::AllScreens
    $i = 0
    foreach ($screen in $screens) {
        $primary = if ($screen.Primary) { " (primary)" } else { "" }
        Write-Host "${i}: $($screen.DeviceName)$primary - $($screen.Bounds.Width)x$($screen.Bounds.Height) at ($($screen.Bounds.X),$($screen.Bounds.Y))"
        $i++
    }
    "#;

pub const CAPTURE_PRIMARY_HEAD: &'static str = r#"#
Add-Type -AssemblyName System.Windows.Forms
Add-Type -AssemblyName System.Drawing

$screen = [System.Windows.Forms.Screen]::PrimaryScreen
$bounds = $screen.Bounds
$bitmap = New-Object System.Drawing.Bitmap($bounds.Width, $bounds.Height)
$graphics = [System.Drawing.Graphics]::FromImage($bitmap)
$graphics.CopyFromScreen($bounds.Location, [System.Drawing.Point]::Empty, $bounds.Size)

$bitmap.Save('"#;

pub const CAPTURE_INDEX_HEAD: &'static str = r#"#
Add-Type -AssemblyName System.Windows.Forms
Add-Type -AssemblyName System.Drawing

$screens = [System.Windows.Forms.Screen]::AllScreens
$index = "#;

pub const CAPTURE_INDEX_MIDDLE: &'static str = r#"
if ($index -ge $screens.Length) {
    Write-Error "Monitor index $index not found. Available: 0-$($screens.Length - 1)"
    exit 1
}
$screen = $screens[$index]
$bounds = $screen.Bounds
$bitmap = New-Object System.Drawing.Bitmap($bounds.Width, $bounds.Height)
$graphics = [System.Drawing.Graphics]::FromImage($bitmap)
$graphics.CopyFromScreen($bounds.Location, [System.Drawing.Point]::Empty, $bounds.Size)

$bitmap.Save('"#;

pub const CAPTURE_ALL_HEAD: &'static str = r#"#
Add-Type -AssemblyName System.Windows.Forms
Add-Type -AssemblyName System.Drawing

$screens = [System.Windows.Forms.Screen]::AllScreens

# Calculate the bounding rectangle for all screens
$minX = ($screens | ForEach-Object { $_.Bounds.X } | Measure-Object -Minimum).Minimum
$minY = ($screens | ForEach-Object { $_.Bounds.Y } | Measure-Object -Minimum).Minimum
$maxX = ($screens | ForEach-Object { $_.Bounds.X + $_.Bounds.Width } | Measure-Object -Maximum).Maximum
$maxY = ($screens | ForEach-Object { $_.Bounds.Y + $_.Bounds.Height } | Measure-Object -Maximum).Maximum

$totalWidth = [int]($maxX - $minX)
$totalHeight = [int]($maxY - $minY)

if ($totalWidth -le 0 -or $totalHeight -le 0) {
    Write-Error "Invalid screen dimensions: ${totalWidth}x${totalHeight}"
    exit 1
}

$bitmap = New-Object System.Drawing.Bitmap($totalWidth, $totalHeight)
$graphics = [System.Drawing.Graphics]::FromImage($bitmap)

# Capture each screen
foreach ($screen in $screens) {
    $bounds = $screen.Bounds
    $offsetX = $bounds.X - $minX
    $offsetY = $bounds.Y - $minY
    $graphics.CopyFromScreen($bounds.Location, (New-Object System.Drawing.Point($offsetX, $offsetY)), $bounds.Size)
}

$bitmap.Save('"#;

pub const SAVE_PNG_TAIL: &'static str = r#"', [System.Drawing.Imaging.ImageFormat]::Png)

$graphics.Dispose()
$bitmap.Dispose()
"#;

pub const CLIPBOARD_HEAD: &'static str = r#"#
Add-Type -AssemblyName System.Windows.Forms
$image = [System.Drawing.Image]::FromFile('"#;

pub const CLIPBOARD_TAIL: &'static str = r#"')
[System.Windows.Forms.Clipboard]::SetImage($image)
$image.Dispose()
"#;

/// A path made safe for a single-quoted PowerShell string: each backslash
/// doubled, then each single quote doubled.
pub open spec fn ps_escaped(path: Seq<char>) -> Seq<char> {
    replace_char(replace_char(path, '\\', "\\\\"@), '\'', "''"@)
}

/// A path with only its single quotes doubled.
pub open spec fn quote_escaped(path: Seq<char>) -> Seq<char> {
    replace_char(path, '\'', "''"@)
}

/// The capture script for an (unescaped) Windows path and a monitor
/// selection.
pub open spec fn capture_script(windows_path: Seq<char>, monitor: MonitorSelection) -> Seq<char> {
    let e = ps_escaped(windows_path);
    match monitor {
        MonitorSelection::Primary => CAPTURE_PRIMARY_HEAD@ + e + SAVE_PNG_TAIL@,
        MonitorSelection::Index(i) => CAPTURE_INDEX_HEAD@ + decimal(i as nat) + CAPTURE_INDEX_MIDDLE@
            + e + SAVE_PNG_TAIL@,
        MonitorSelection::All => CAPTURE_ALL_HEAD@ + e + SAVE_PNG_TAIL@,
    }
}

/// The clipboard script around an already escaped path.
pub open spec fn clipboard_script(escaped_path: Seq<char>) -> Seq<char> {
    CLIPBOARD_HEAD@ + escaped_path + CLIPBOARD_TAIL@
}

/// Reading the body of a single-quoted PowerShell string: `''` stands for
/// one quote, and a lone quote ends the string. The result is the value
/// read and the text after the closing quote (empty for an unterminated
/// string).
pub open spec fn ps_read(s: Seq<char>) -> (Seq<char>, Seq<char>)
    decreases s.len(),
{
    if s.len() == 0 {
        (Seq::empty(), Seq::empty())
    } else if s[0] == '\'' {
        if s.len() >= 2 && s[1] == '\'' {
            let (v, r) = ps_read(s.skip(2));
            (seq!['\''] + v, r)
        } else {
            (Seq::empty(), s.skip(1))
        }
    } else {
        let (v, r) = ps_read(s.skip(1));
        (seq![s[0]] + v, r)
    }
}

/// Replacing a character distributes over concatenation.
pub proof fn lemma_replace_char_concat(a: Seq<char>, b: Seq<char>, from: char, to: Seq<char>)
    ensures
        replace_char(a + b, from, to) == replace_char(a, from, to) + replace_char(b, from, to),
    decreases b.len(),
{
    if b.len() == 0 {
        assert(a + b =~= a);
        assert(replace_char(a, from, to) + replace_char(b, from, to) =~= replace_char(a, from, to));
    } else {
        lemma_replace_char_concat(a, b.drop_last(), from, to);
        assert((a + b).drop_last() =~= a + b.drop_last());
        assert((a + b).last() == b.last());
        let last = if b.last() == from { to } else { seq![b.last()] };
        assert(replace_char(a + b, from, to) =~= replace_char(a, from, to) + replace_char(b.drop_last(), from, to)
            + last);
    }
}

/// A value with its quotes doubled reads back, up to the closing quote, as
/// the value itself, and the text after the closing quote (when it does not
/// start with another quote) is left alone.
pub proof fn lemma_quoted_reads_back(x: Seq<char>, tail: Seq<char>)
    requires
        tail.len() == 0 || tail[0] != '\'',
    ensures
        ps_read(quote_escaped(x) + seq!['\''] + tail) == (x, tail),
    decreases x.len(),
{
    reveal_strlit("''");
    let s = quote_escaped(x) + seq!['\''] + tail;
    if x.len() == 0 {
        assert(quote_escaped(x) =~= Seq::<char>::empty());
        assert(s =~= seq!['\''] + tail);
        assert(s.skip(1) =~= tail);
    } else {
        let c = x[0];
        let rest = x.skip(1);
        assert(x =~= seq![c] + rest);
        lemma_replace_char_concat(seq![c], rest, '\'', "''"@);
        assert(seq![c].drop_last() =~= Seq::<char>::empty());
        assert(replace_char(Seq::<char>::empty(), '\'', "''"@) =~= Seq::<char>::empty());
        assert("''"@ =~= seq!['\'', '\'']);
        lemma_quoted_reads_back(rest, tail);
        let r = quote_escaped(rest) + seq!['\''] + tail;
        if c == '\'' {
            assert(replace_char(seq![c], '\'', "''"@) =~= seq!['\'', '\'']);
            assert(s =~= seq!['\'', '\''] + r);
            assert(s.skip(2) =~= r);
        } else {
            assert(replace_char(seq![c], '\'', "''"@) =~= seq![c]);
            assert(s =~= seq![c] + r);
            assert(s.skip(1) =~= r);
        }
    }
}

/// The part of the capture script before the quoted path.
pub open spec fn capture_head(monitor: MonitorSelection) -> Seq<char> {
    match monitor {
        MonitorSelection::Primary => CAPTURE_PRIMARY_HEAD@,
        MonitorSelection::Index(i) => CAPTURE_INDEX_HEAD@ + decimal(i as nat) + CAPTURE_INDEX_MIDDLE@,
        MonitorSelection::All => CAPTURE_ALL_HEAD@,
    }
}

/// The capture script saves to the path it was given, with its backslashes
/// doubled: after the head, PowerShell reads the quoted path back as that
/// text, and the rest of the script follows the closing quote.
pub proof fn law_capture_script_saves_to_path(path: Seq<char>, monitor: MonitorSelection)
    ensures
        capture_script(path, monitor) == capture_head(monitor) + ps_escaped(path) + SAVE_PNG_TAIL@,
        ps_read(capture_script(path, monitor).skip(capture_head(monitor).len() as int)) == (
            replace_char(path, '\\', "\\\\"@),
            SAVE_PNG_TAIL@.skip(1),
        ),
{
    reveal_strlit("', [System.Drawing.Imaging.ImageFormat]::Png)

$graphics.Dispose()
$bitmap.Dispose()
");
    let tail = SAVE_PNG_TAIL@;
    assert(tail[0] == '\'' && tail[1] == ',');
    let doubled = replace_char(path, '\\', "\\\\"@);
    let script = capture_script(path, monitor);
    let head = capture_head(monitor);
    assert(script =~= head + (quote_escaped(doubled) + seq!['\''] + tail.skip(1)));
    assert(script.skip(head.len() as int) =~= quote_escaped(doubled) + seq!['\''] + tail.skip(1));
    lemma_quoted_reads_back(doubled, tail.skip(1));
}

/// The clipboard script reads its image from the path it was given:
/// PowerShell reads the quoted path back as the text before escaping.
pub proof fn law_clipboard_script_reads_path(path: Seq<char>)
    ensures
        ps_read(clipboard_script(quote_escaped(path)).skip(CLIPBOARD_HEAD@.len() as int)) == (
            path,
            CLIPBOARD_TAIL@.skip(1),
        ),
        ps_read(clipboard_script(ps_escaped(path)).skip(CLIPBOARD_HEAD@.len() as int)) == (
            replace_char(path, '\\', "\\\\"@),
            CLIPBOARD_TAIL@.skip(1),
        ),
{
    reveal_strlit("')
[System.Windows.Forms.Clipboard]::SetImage($image)
$image.Dispose()
");
    let tail = CLIPBOARD_TAIL@;
    assert(tail[0] == '\'' && tail[1] == ')');
    let doubled = replace_char(path, '\\', "\\\\"@);
    assert(clipboard_script(quote_escaped(path)).skip(CLIPBOARD_HEAD@.len() as int) =~= quote_escaped(path)
        + seq!['\''] + tail.skip(1));
    lemma_quoted_reads_back(path, tail.skip(1));
    assert(clipboard_script(ps_escaped(path)).skip(CLIPBOARD_HEAD@.len() as int) =~= quote_escaped(doubled)
        + seq!['\''] + tail.skip(1));
    lemma_quoted_reads_back(doubled, tail.skip(1));
}

/// Escape a path for a single-quoted PowerShell string.
pub fn escape_powershell_path(path: &str) -> (r: String)
    ensures
        r@ == ps_escaped(path@),
{
    let once = replaced(path, '\\', "\\\\");
    replaced(once.as_str(), '\'', "''")
}

/// Double the single quotes of a path.
pub fn escape_quotes(path: &str) -> (r: String)
    ensures
        r@ == quote_escaped(path@),
{
    replaced(path, '\'', "''")
}

/// Generate PowerShell script with monitor selection.
pub fn generate_powershell_script_with_monitor(windows_path: &str, monitor: &MonitorSelection) -> (r: String)
    ensures
        r@ == capture_script(windows_path@, *monitor),
{
    let escaped = escape_powershell_path(windows_path);
    let mut out = String::new();
    match monitor {
        MonitorSelection::Primary => {
            out.append(CAPTURE_PRIMARY_HEAD);
        },
        MonitorSelection::Index(idx) => {
            out.append(CAPTURE_INDEX_HEAD);
            push_decimal(&mut out, *idx);
            out.append(CAPTURE_INDEX_MIDDLE);
        },
        MonitorSelection::All => {
            out.append(CAPTURE_ALL_HEAD);
        },
    }
    out.append(escaped.as_str());
    out.append(SAVE_PNG_TAIL);
    proof {
        let e = ps_escaped(windows_path@);
        match monitor {
            MonitorSelection::Primary => {
                assert(out@ =~= CAPTURE_PRIMARY_HEAD@ + e + SAVE_PNG_TAIL@);
            },
            MonitorSelection::Index(i) => {
                assert(out@ =~= CAPTURE_INDEX_HEAD@ + decimal(*i as nat) + CAPTURE_INDEX_MIDDLE@ + e
                    + SAVE_PNG_TAIL@);
            },
            MonitorSelection::All => {
                assert(out@ =~= CAPTURE_ALL_HEAD@ + e + SAVE_PNG_TAIL@);
            },
        }
    }
    out
}

/// Generate the PowerShell script that captures the primary monitor.
pub fn generate_powershell_script(windows_path: &str) -> (r: String)
    ensures
        r@ == capture_script(windows_path@, MonitorSelection::Primary),
{
    generate_powershell_script_with_monitor(windows_path, &MonitorSelection::Primary)
}

/// The script that copies the image at an already escaped path to the
/// clipboard.
pub fn generate_clipboard_script(escaped_path: &str) -> (r: String)
    ensures
        r@ == clipboard_script(escaped_path@),
{
    let mut out = String::from_str(CLIPBOARD_HEAD);
    out.append(escaped_path);
    out.append(CLIPBOARD_TAIL);
    out
}

} // verus!
