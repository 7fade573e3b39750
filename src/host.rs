//! Decisions of the desktop shell: window, shortcut and logs.
use vstd::prelude::*;

verus! {

/// What a toggle of the window does.
#[derive(Debug, Clone, Copy, PartialEq, Eq, Structural)]
pub enum WindowAction {
    Hide,
    /// Show, focus and ask the window to refresh the balance.
    ShowAndRefresh,
}

/// A visible window with the focus hides; any other shows.
pub fn window_toggle_action(visible: bool, focused: bool) -> (r: WindowAction)
    ensures
        r == (if visible && focused { WindowAction::Hide } else { WindowAction::ShowAndRefresh }),
{
    if visible && focused {
        WindowAction::Hide
    } else {
        WindowAction::ShowAndRefresh
    }
}

/// Top left corner of a window centered on a monitor, in physical pixels.
pub fn centered_window_position(
    monitor_x: i32,
    monitor_y: i32,
    monitor_width: u32,
    monitor_height: u32,
    window_width: u32,
    window_height: u32,
) -> (r: (i64, i64))
    ensures
        r.0 == monitor_x + monitor_width / 2 - window_width / 2,
        r.1 == monitor_y + monitor_height / 2 - window_height / 2,
{
    (
        monitor_x as i64 + (monitor_width / 2) as i64 - (window_width / 2) as i64,
        monitor_y as i64 + (monitor_height / 2) as i64 - (window_height / 2) as i64,
    )
}

/// Whether a global shortcut is registered: only where it is enabled and
/// not empty.
pub fn should_register_shortcut(shortcut: &str, enabled: bool) -> (r: bool)
    ensures
        r == (enabled && shortcut@.len() > 0),
{
    enabled && shortcut.unicode_len() > 0
}

/// Size in bytes above which the application log is moved aside.
pub const LOG_ROTATION_BYTES: u64 = 100 * 1024;

pub fn log_needs_rotation(size: u64) -> (r: bool)
    ensures
        r == (size > LOG_ROTATION_BYTES),
{
    size > LOG_ROTATION_BYTES
}

/// The lines of the rotated log, then those of the current one, newest first.
pub fn newest_first(old_lines: Vec<String>, current_lines: Vec<String>) -> (r: Vec<String>)
    ensures
        r@ == (old_lines@ + current_lines@).reverse(),
{
    let ghost all = old_lines@ + current_lines@;
    let mut out: Vec<String> = Vec::new();
    let mut i: usize = current_lines.len();
    while i > 0
        invariant
            i <= current_lines@.len(),
            all == old_lines@ + current_lines@,
            out@ == all.subrange(old_lines@.len() + i, all.len() as int).reverse(),
        decreases i,
    {
        i = i - 1;
        out.push(current_lines[i].clone());
        assert(out@ =~= all.subrange(old_lines@.len() + i, all.len() as int).reverse());
    }
    let mut j: usize = old_lines.len();
    while j > 0
        invariant
            j <= old_lines@.len(),
            all == old_lines@ + current_lines@,
            out@ == all.subrange(j as int, all.len() as int).reverse(),
        decreases j,
    {
        j = j - 1;
        out.push(old_lines[j].clone());
        assert(out@ =~= all.subrange(j as int, all.len() as int).reverse());
    }
    assert(all.subrange(0, all.len() as int) =~= all);
    out
}

} // verus!
