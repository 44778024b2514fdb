//! The window system's side of the engine: its events, its configuration,
//! and the cursors and mouse modes it offers.
use crate::scancode::Scancode;
use vstd::prelude::*;

verus! {

/// An generic event, from any source
#[derive(Clone, Copy, PartialEq, Eq, Structural, Hash, Debug)]
pub enum Event {
    /// The window was resized to have new width and height
    Resize { width: u32, height: u32 },
    /// The window gained user focus
    FocusGained,
    /// The window lost user focus
    FocusLost,
    /// A key was pressed down
    KeyDown { key: Scancode },
    /// A key was released
    KeyUp { key: Scancode },
    /// The window's quit button was pressed
    Quit,
    /// The mouse scroll wheel was moved
    Scroll { x: i32, y: i32 },
}

/// The startup settings to configure a new window with
#[derive(Clone, Copy, PartialEq, Eq, Debug, Hash)]
pub struct WindowConfig<'a> {
    /// The initial width of the window.  Should not be relied upon to be
    /// correct, use `window.size()` to get the current width
    pub width: u32,
    /// The initial height of the window.  This has the same limitations as
    /// for the window width
    pub height: u32,
    /// The text to show in the window's title bar
    pub title: &'a str,
    /// Should the user be able to resize the window
    pub resizable: bool,
    /// Should the OpenGL contexts be created with debug mode?  This will try
    /// to enable debug mode, but should not be relied upon to have worked.
    pub debug: bool,
    /// The requested version of OpenGL to use (major, minor)
    pub gl_version: (u8, u8),
}

impl<'a> WindowConfig<'a> {
    /// The settings the main loop opens its window with: a resizable
    /// 900x700 window titled "Game", with a debug OpenGL 4.5 context.
    pub fn game_default() -> (c: WindowConfig<'static>)
        ensures
            c.width == 900 && c.height == 700 && c.resizable && c.debug && c.gl_version == (
                4u8,
                5u8,
            ),
            c.title@ == "Game"@,
    {
        WindowConfig {
            debug: true,
            gl_version: (4, 5),
            width: 900,
            height: 700,
            resizable: true,
            title: "Game",
        }
    }
}

/// Wrapper around the system clipboard
pub trait Clipboard {
    /// try to get a string out of the clipboard
    fn get(&mut self) -> Option<String>;

    /// set the string stored by the clipboard
    fn set(&mut self, data: &str);
}

/// The default set of operating system cursors
#[derive(Clone, Copy, Debug, Hash, PartialEq, Eq, Structural)]
pub enum SystemCursors {
    Arrow,
    TextInput,
    ResizeAll,
    ResizeNS,
    ResizeEW,
    ResizeNESW,
    ResizeNWSE,
    Hand,
    NotAllowed,
    NoCursor,
}

/// How the window controls the mouse position
#[derive(Clone, Copy, Debug, Hash, PartialEq, Eq, Structural)]
pub enum MouseGrabMode {
    /// It doesn't, the default mode for the operating system
    Standard,
    /// The mouse is constrained to within the window
    Constrained,
    /// The mouse is hidden, mouse motion per frame is used, not mouse position
    Relative,
    /// The mouse is hidden, mouse motion per frame is used, not mouse position.
    /// Also, the hidden mouse is constrained to the current window
    RelativeConstrained,
}

} // verus!
