//! Options for a font searcher, generic in how the directories are given.

use vstd::prelude::*;

verus! {

/// Where a font searcher looks; `I` is the collection of extra directories.
#[derive(Debug)]
pub struct FontSearcherOptions<I> {
    pub include_system_fonts: bool,
    pub include_dirs: I,
    pub include_embedded_fonts: bool,
}

impl Default for FontSearcherOptions<Vec<String>> {
    fn default() -> (r: Self)
        ensures
            r.include_system_fonts,
            r.include_embedded_fonts,
            r.include_dirs@ == Seq::<String>::empty(),
    {
        FontSearcherOptions {
            include_system_fonts: true,
            include_dirs: Vec::new(),
            include_embedded_fonts: true,
        }
    }
}

impl FontSearcherOptions<Vec<String>> {
    /// The default options: system fonts and embedded fonts, no extra directories.
    pub fn new() -> (r: Self)
        ensures
            r.include_system_fonts,
            r.include_embedded_fonts,
            r.include_dirs@ == Seq::<String>::empty(),
    {
        FontSearcherOptions {
            include_system_fonts: true,
            include_dirs: Vec::new(),
            include_embedded_fonts: true,
        }
    }
}

impl<I> FontSearcherOptions<I> {
    /// Whether to search the fonts installed on the system.
    pub fn include_system_fonts(self, include_system_fonts: bool) -> (r: Self)
        ensures
            r.include_system_fonts == include_system_fonts,
            r.include_dirs == self.include_dirs,
            r.include_embedded_fonts == self.include_embedded_fonts,
    {
        let mut options = self;
        options.include_system_fonts = include_system_fonts;
        options
    }

    /// Whether to include the fonts that are embedded in the program.
    pub fn include_embedded_fonts(self, include_embedded_fonts: bool) -> (r: Self)
        ensures
            r.include_embedded_fonts == include_embedded_fonts,
            r.include_dirs == self.include_dirs,
            r.include_system_fonts == self.include_system_fonts,
    {
        let mut options = self;
        options.include_embedded_fonts = include_embedded_fonts;
        options
    }

    /// Searches the directories of `include_dirs`, in place of those set before.
    pub fn include_dirs<I2>(self, include_dirs: I2) -> (r: FontSearcherOptions<I2>)
        ensures
            r.include_dirs == include_dirs,
            r.include_system_fonts == self.include_system_fonts,
            r.include_embedded_fonts == self.include_embedded_fonts,
    {
        FontSearcherOptions {
            include_system_fonts: self.include_system_fonts,
            include_dirs,
            include_embedded_fonts: self.include_embedded_fonts,
        }
    }
}

} // verus!
