//! Options for the search for fonts on the machine.

use vstd::prelude::*;

verus! {

/// Where the font search looks.
#[derive(Debug)]
pub struct TypstKitFontOptions {
    pub include_system_fonts: bool,
    pub include_dirs: Vec<String>,
    pub include_embedded_fonts: bool,
}

impl Default for TypstKitFontOptions {
    fn default() -> (r: Self)
        ensures
            r.include_system_fonts,
            r.include_embedded_fonts,
            r.include_dirs@ == Seq::<String>::empty(),
    {
        TypstKitFontOptions {
            include_system_fonts: true,
            include_dirs: Vec::new(),
            include_embedded_fonts: true,
        }
    }
}

impl TypstKitFontOptions {
    /// The default options: system fonts and embedded fonts, no extra directories.
    pub fn new() -> (r: Self)
        ensures
            r.include_system_fonts,
            r.include_embedded_fonts,
            r.include_dirs@ == Seq::<String>::empty(),
    {
        TypstKitFontOptions {
            include_system_fonts: true,
            include_dirs: Vec::new(),
            include_embedded_fonts: true,
        }
    }

    /// Whether to search the fonts installed on the system.
    pub fn include_system_fonts(self, include_system_fonts: bool) -> (r: Self)
        ensures
            r.include_system_fonts == include_system_fonts,
            r.include_dirs == self.include_dirs,
            r.include_embedded_fonts == self.include_embedded_fonts,
    {
        let mut options = self;
        options.include_system_fonts = include_system_fonts;
        options
    }

    /// Whether to include the fonts that are embedded in the program.
    pub fn include_embedded_fonts(self, include_embedded_fonts: bool) -> (r: Self)
        ensures
            r.include_embedded_fonts == include_embedded_fonts,
            r.include_dirs == self.include_dirs,
            r.include_system_fonts == self.include_system_fonts,
    {
        let mut options = self;
        options.include_embedded_fonts = include_embedded_fonts;
        options
    }

    /// Searches these directories, in place of those set before.
    pub fn include_dirs(self, include_dirs: Vec<String>) -> (r: Self)
        ensures
            r.include_dirs == include_dirs,
            r.include_system_fonts == self.include_system_fonts,
            r.include_embedded_fonts == self.include_embedded_fonts,
    {
        let mut options = self;
        options.include_dirs = include_dirs;
        options
    }
}

} // verus!
