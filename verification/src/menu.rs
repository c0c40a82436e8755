//! The menu's decision state: which file types can be opened, and the export
//! request flow from the settings dialog to an emitted event.
//!
//! Drawing the menu is the host's business; this module holds the state those
//! interactions read and write.

use vstd::prelude::*;

verus! {

/// The file types the menu can open.
#[derive(Clone, Copy, Debug, PartialEq, Eq, Structural)]
pub enum FileType {
    Instructions,
    Machine,
    Style,
}

/// Something which can be used to filter files by extension.
pub trait FileFilter {
    /// The name of this filter.
    fn name(&self) -> &'static str;

    /// The allowed extension.
    fn extension(&self) -> &'static str;
}

impl FileFilter for FileType {
    fn name(&self) -> &'static str {
        match self {
            FileType::Instructions => "NAViz instructions",
            FileType::Machine => "NAViz machine",
            FileType::Style => "NAViz style",
        }
    }

    fn extension(&self) -> &'static str {
        match self {
            FileType::Instructions => "naviz",
            FileType::Machine => "namachine",
            FileType::Style => "nastyle",
        }
    }
}

/// Config options for what to show inside the menu.
#[derive(Clone, Copy, Debug, PartialEq, Eq, Structural)]
pub struct MenuConfig {
    /// Show the export option.
    pub export: bool,
}

/// What to load at startup.
#[derive(Debug)]
pub struct InitOptions {
    /// The machine id to load.
    pub machine: Option<String>,
    /// The style id to load.
    pub style: Option<String>,
    /// The visualization input to load.
    pub input: Option<Vec<u8>>,
}

/// An event triggered by menu navigation; higher-level than button clicks.
#[derive(Clone, Copy, Debug, PartialEq, Eq)]
pub enum MenuEvent {
    /// A video should be exported with the given resolution and frame rate.
    ExportVideo { resolution: (u32, u32), fps: u32 },
}

/// Menu state concerning export: the settings the user confirmed but no frame
/// has consumed yet.
#[derive(Clone, Copy, Debug, PartialEq, Eq)]
pub struct ExportMenu {
    /// A confirmed export request: resolution and frame rate.
    pub pending: Option<((u32, u32), u32)>,
}

impl ExportMenu {
    /// A fresh export menu with nothing requested.
    pub fn new() -> (r: Self)
        ensures
            r.pending is None,
    {
        ExportMenu { pending: None }
    }

    /// Records the export settings the user confirmed; a newer request
    /// replaces an unconsumed older one.
    pub fn request(&mut self, resolution: (u32, u32), fps: u32)
        ensures
            final(self).pending == Option::Some((resolution, fps)),
    {
        self.pending = Some((resolution, fps));
    }

    /// Turns a confirmed request into the event the frame loop consumes; the
    /// request is handed out once.
    pub fn process_events(&mut self) -> (r: Option<MenuEvent>)
        ensures
            final(self).pending is None,
            match old(self).pending {
                Option::Some(req) => r == Option::Some(
                    MenuEvent::ExportVideo { resolution: req.0, fps: req.1 },
                ),
                Option::None => r is None,
            },
    {
        match self.pending {
            Some((resolution, fps)) => {
                self.pending = None;
                Some(MenuEvent::ExportVideo { resolution, fps })
            },
            None => None,
        }
    }
}

} // verus!
