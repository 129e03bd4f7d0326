use vstd::prelude::*;

verus! {

/// Name of the persistent store file that holds the window geometry.
pub const STORE_FILE: &'static str = "app-data.json";

/// Key under which the window geometry is stored.
pub const WINDOW_BOUNDS_KEY: &'static str = "window-bounds";

/// Label of the main window.
pub const MAIN_WINDOW: &'static str = "main";

/// A window rectangle in physical screen pixels.
#[derive(Clone, Copy, Debug, PartialEq, Eq, Structural)]
pub struct WindowBounds {
    pub x: i32,
    pub y: i32,
    pub width: u32,
    pub height: u32,
}

/// One operation on the main window, carried out by the caller.
#[derive(Clone, Copy, Debug, PartialEq, Eq, Structural)]
pub enum WindowCommand {
    SetPosition { x: i32, y: i32 },
    SetSize { width: u32, height: u32 },
    Show,
    Focus,
}

/// The commands that restore a window: the stored geometry, if one was
/// decoded, followed by revealing and focusing the window.
pub open spec fn restore_commands(stored: Option<WindowBounds>) -> Seq<WindowCommand> {
    match stored {
        Some(b) => seq![
            WindowCommand::SetPosition { x: b.x, y: b.y },
            WindowCommand::SetSize { width: b.width, height: b.height },
            WindowCommand::Show,
            WindowCommand::Focus,
        ],
        None => seq![WindowCommand::Show, WindowCommand::Focus],
    }
}

/// Whether a command changes the window's position or size.
pub open spec fn is_geometry(c: WindowCommand) -> bool {
    c is SetPosition || c is SetSize
}

/// Plans the restoration of the main window from the stored geometry.
///
/// A decoded record is applied as position, then size, before the window is
/// shown; without one the window keeps its default geometry. The window is
/// shown and focused in every case.
pub fn restore_plan(stored: Option<WindowBounds>) -> (r: Vec<WindowCommand>)
    ensures
        r@ == restore_commands(stored),
        r@.len() >= 2,
        r@[r@.len() - 2] == WindowCommand::Show,
        r@[r@.len() - 1] == WindowCommand::Focus,
        stored is None ==> forall|i: int| 0 <= i < r@.len() ==> !is_geometry(#[trigger] r@[i]),
        stored matches Some(b) ==> {
            &&& r@[0] == (WindowCommand::SetPosition { x: b.x, y: b.y })
            &&& r@[1] == (WindowCommand::SetSize { width: b.width, height: b.height })
        },
{
    let mut r: Vec<WindowCommand> = Vec::new();
    match stored {
        Some(b) => {
            r.push(WindowCommand::SetPosition { x: b.x, y: b.y });
            r.push(WindowCommand::SetSize { width: b.width, height: b.height });
        },
        None => {},
    }
    r.push(WindowCommand::Show);
    r.push(WindowCommand::Focus);
    assert(r@ =~= restore_commands(stored));
    r
}

} // verus!
