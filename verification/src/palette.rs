//! The pen colors on offer, and the one that is chosen.

use std::sync::Arc;
use vstd::prelude::*;

verus! {

/// A color, by its red, green, blue and opacity components.
#[derive(Clone, Copy, Debug, PartialEq, Eq, Structural)]
pub struct Color {
    pub r: u8,
    pub g: u8,
    pub b: u8,
    pub a: u8,
}

/// The opaque color with the given red, green and blue components.
pub open spec fn opaque_color(r: u8, g: u8, b: u8) -> Color {
    Color { r, g, b, a: 255 }
}

impl Color {
    /// The opaque color with the given components.
    pub fn rgb8(r: u8, g: u8, b: u8) -> (c: Color)
        ensures
            c == opaque_color(r, g, b),
    {
        Color { r, g, b, a: 255 }
    }
}

/// A named list of colors, one of which is selected.
#[derive(Clone)]
pub struct PaletteData {
    colors: Arc<Vec<(Color, String)>>,
    selected: Color,
}

impl PaletteData {
    /// The colors on offer, each with its name.
    pub closed spec fn entries(&self) -> Seq<(Color, String)> {
        self.colors@
    }

    /// The selected color.
    pub closed spec fn selected(&self) -> Color {
        self.selected
    }

    /// The colors on offer, each with its name.
    pub fn colors(&self) -> (r: &[(Color, String)])
        ensures
            r@ == self.entries(),
    {
        self.colors.as_slice()
    }

    /// The selected color.
    pub fn selected_color(&self) -> (r: &Color)
        ensures
            *r == self.selected(),
    {
        &self.selected
    }

    /// Selects the given color, whether or not it is on offer.
    pub fn select(&mut self, color: &Color)
        ensures
            final(self).selected() == *color,
            final(self).entries() == old(self).entries(),
    {
        self.selected = *color;
    }

    /// Selects the color at position `idx` of the list; fails, changing nothing,
    /// if there is none there.
    pub fn try_select_idx(&mut self, idx: usize) -> (r: Result<(), ()>)
        ensures
            r is Ok <==> idx < old(self).entries().len(),
            r is Ok ==> final(self).selected() == old(self).entries()[idx as int].0,
            r is Err ==> final(self).selected() == old(self).selected(),
            final(self).entries() == old(self).entries(),
    {
        if idx < self.colors.len() {
            self.selected = self.colors[idx].0;
            Ok(())
        } else {
            Err(())
        }
    }
}

/// `p` offers the ten colors of the standard palette, with the first selected.
pub open spec fn is_standard_palette(p: PaletteData) -> bool {
    &&& p.entries().len() == 10
    &&& p.entries()[0].0 == opaque_color(51, 63, 72) && p.entries()[0].1@ == "Charcoal"@
    &&& p.entries()[1].0 == opaque_color(191, 87, 0) && p.entries()[1].1@ == "Burnt orange"@
    &&& p.entries()[2].0 == opaque_color(248, 151, 31) && p.entries()[2].1@ == "Kumquat"@
    &&& p.entries()[3].0 == opaque_color(255, 214, 0) && p.entries()[3].1@ == "Golden"@
    &&& p.entries()[4].0 == opaque_color(166, 205, 87) && p.entries()[4].1@ == "Yellow-green"@
    &&& p.entries()[5].0 == opaque_color(87, 157, 66) && p.entries()[5].1@ == "May green"@
    &&& p.entries()[6].0 == opaque_color(0, 169, 183) && p.entries()[6].1@ == "Cayman"@
    &&& p.entries()[7].0 == opaque_color(0, 95, 134) && p.entries()[7].1@ == "Capri"@
    &&& p.entries()[8].0 == opaque_color(156, 173, 183) && p.entries()[8].1@ == "Cadet"@
    &&& p.entries()[9].0 == opaque_color(214, 210, 196) && p.entries()[9].1@ == "Timberwolf"@
    &&& p.selected() == p.entries()[0].0
}

impl Default for PaletteData {
    /// The ten colors of the standard palette, with the first selected.
    fn default() -> (p: PaletteData)
        ensures
            is_standard_palette(p),
    {
        let mut colors: Vec<(Color, String)> = Vec::new();
        colors.push((Color::rgb8(51, 63, 72), "Charcoal".to_owned()));
        colors.push((Color::rgb8(191, 87, 0), "Burnt orange".to_owned()));
        colors.push((Color::rgb8(248, 151, 31), "Kumquat".to_owned()));
        colors.push((Color::rgb8(255, 214, 0), "Golden".to_owned()));
        colors.push((Color::rgb8(166, 205, 87), "Yellow-green".to_owned()));
        colors.push((Color::rgb8(87, 157, 66), "May green".to_owned()));
        colors.push((Color::rgb8(0, 169, 183), "Cayman".to_owned()));
        colors.push((Color::rgb8(0, 95, 134), "Capri".to_owned()));
        colors.push((Color::rgb8(156, 173, 183), "Cadet".to_owned()));
        colors.push((Color::rgb8(214, 210, 196), "Timberwolf".to_owned()));
        let selected = colors[0].0;
        PaletteData { colors: Arc::new(colors), selected }
    }
}

} // verus!
