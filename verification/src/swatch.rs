//! A swatch: one prominent colour of an image and how many pixels it covers.
use vstd::prelude::*;

use crate::text::{decimal, hex_code, hex_string, push_decimal};

verus! {

/// The colour and population of a swatch, as plain values.
#[derive(Clone, Copy, Debug, PartialEq, Eq, Structural)]
pub struct SwatchView {
    pub red: u8,
    pub green: u8,
    pub blue: u8,
    pub population: usize,
}

/// A prominent colour, its `#RRGGBB` code and the number of pixels it stands for.
#[derive(Debug)]
pub struct Swatch {
    hex: String,
    red: u8,
    green: u8,
    blue: u8,
    population: usize,
}

impl View for Swatch {
    type V = SwatchView;

    closed spec fn view(&self) -> SwatchView {
        SwatchView {
            red: self.red,
            green: self.green,
            blue: self.blue,
            population: self.population,
        }
    }
}

/// The colour code of a swatch's colour.
pub open spec fn swatch_hex(v: SwatchView) -> Seq<char> {
    hex_code(v.red, v.green, v.blue)
}

/// The views of a sequence of swatches.
pub open spec fn swatch_views(s: Seq<Swatch>) -> Seq<SwatchView> {
    s.map_values(|w: Swatch| w@)
}

impl Swatch {
    #[verifier::type_invariant]
    spec fn hex_matches_colour(self) -> bool {
        self.hex@ == hex_code(self.red, self.green, self.blue)
    }

    /// A swatch of the given colour covering `population` pixels.
    pub fn new(red: u8, green: u8, blue: u8, population: usize) -> (s: Swatch)
        ensures
            s@ == (SwatchView { red, green, blue, population }),
    {
        Swatch { hex: hex_string(red, green, blue), red, green, blue, population }
    }

    /// The colour code `#RRGGBB`, in upper-case hexadecimal.
    pub fn hex(&self) -> (s: &str)
        ensures
            s@ == swatch_hex(self@),
    {
        proof {
            use_type_invariant(self);
        }
        self.hex.as_str()
    }

    /// The colour as red, green and blue channels.
    pub fn rgb(&self) -> (c: (u8, u8, u8))
        ensures
            c == (self@.red, self@.green, self@.blue),
    {
        (self.red, self.green, self.blue)
    }

    /// The number of pixels the swatch stands for.
    pub fn population(&self) -> (n: usize)
        ensures
            n == self@.population,
    {
        self.population
    }

    /// The text put on the clipboard when the swatch is copied: its colour
    /// code in upper case, which is the code itself.
    pub fn copy_text(&self) -> (s: String)
        ensures
            s@ == swatch_hex(self@),
    {
        proof {
            use_type_invariant(self);
        }
        self.hex.clone()
    }

    /// The caption under the colour code: `pop ` and the population in decimal.
    pub fn population_label(&self) -> (s: String)
        ensures
            s@ == "pop "@ + decimal(self@.population as nat),
    {
        let mut s = String::from_str("pop ");
        push_decimal(&mut s, self.population);
        s
    }
}

/// The swatches of a palette, one per colour and population, in the same order.
pub fn swatches_from_colors(colors: &Vec<(u8, u8, u8, usize)>) -> (out: Vec<Swatch>)
    ensures
        out@.len() == colors@.len(),
        forall|i: int|
            0 <= i < colors@.len() ==> (#[trigger] out@[i])@ == (SwatchView {
                red: colors@[i].0,
                green: colors@[i].1,
                blue: colors@[i].2,
                population: colors@[i].3,
            }),
{
    let mut out: Vec<Swatch> = Vec::new();
    let n = colors.len();
    for i in 0..n
        invariant
            n == colors@.len(),
            out@.len() == i,
            forall|j: int|
                0 <= j < i ==> (#[trigger] out@[j])@ == (SwatchView {
                    red: colors@[j].0,
                    green: colors@[j].1,
                    blue: colors@[j].2,
                    population: colors@[j].3,
                }),
    {
        let (r, g, b, p) = colors[i];
        out.push(Swatch::new(r, g, b, p));
    }
    out
}

} // verus!
