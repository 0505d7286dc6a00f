//! Marker models of the application's windows.  Their visual content is
//! owned entirely by the rendering collaborator; the trainer's state only
//! records which window model exists.

use vstd::prelude::*;

verus! {

/// The main trainer window.
#[derive(Clone, Copy, Debug, PartialEq, Eq, Structural)]
pub struct MainWindow {}

impl MainWindow {
    /// A fresh main window.
    pub fn new() -> (r: MainWindow)
        ensures
            r == (MainWindow {  }),
    {
        MainWindow {  }
    }
}

impl Default for MainWindow {
    fn default() -> (r: MainWindow)
        ensures
            r == (MainWindow {  }),
    {
        MainWindow {  }
    }
}

/// The about window.
#[derive(Clone, Copy, Debug, PartialEq, Eq, Structural)]
pub struct AboutWindow {}

impl AboutWindow {
    /// A fresh about window.
    pub fn new() -> (r: AboutWindow)
        ensures
            r == (AboutWindow {  }),
    {
        AboutWindow {  }
    }
}

impl Default for AboutWindow {
    fn default() -> (r: AboutWindow)
        ensures
            r == (AboutWindow {  }),
    {
        AboutWindow {  }
    }
}

} // verus!
