use vstd::prelude::*;

verus! {

/// The closed set of object classes that the tracker reports.
#[derive(Clone, Copy, Debug, PartialEq, Eq, Structural)]
pub enum ClassType {
    Bike,
    Bus,
    Car,
    Human,
    Truck,
    Vehicle,
}

/// A display color as red, green and blue channels.
#[derive(Clone, Copy, Debug, PartialEq, Eq, Structural)]
pub struct Rgb {
    pub r: u8,
    pub g: u8,
    pub b: u8,
}

/// The fixed color table: one color per class.
pub open spec fn class_color(c: ClassType) -> Rgb {
    match c {
        ClassType::Bike => Rgb { r: 0xFF, g: 0xD7, b: 0x00 },
        ClassType::Bus => Rgb { r: 0xFF, g: 0x8C, b: 0x00 },
        ClassType::Car => Rgb { r: 0x00, g: 0x00, b: 0xFF },
        ClassType::Human => Rgb { r: 0x32, g: 0xCD, b: 0x32 },
        ClassType::Truck => Rgb { r: 0x8B, g: 0x00, b: 0x00 },
        ClassType::Vehicle => Rgb { r: 0x80, g: 0x80, b: 0x80 },
    }
}

/// The color in which tracks of class `c` are drawn.
pub fn color_of(c: ClassType) -> (r: Rgb)
    ensures
        r == class_color(c),
{
    match c {
        ClassType::Bike => Rgb { r: 0xFF, g: 0xD7, b: 0x00 },
        ClassType::Bus => Rgb { r: 0xFF, g: 0x8C, b: 0x00 },
        ClassType::Car => Rgb { r: 0x00, g: 0x00, b: 0xFF },
        ClassType::Human => Rgb { r: 0x32, g: 0xCD, b: 0x32 },
        ClassType::Truck => Rgb { r: 0x8B, g: 0x00, b: 0x00 },
        ClassType::Vehicle => Rgb { r: 0x80, g: 0x80, b: 0x80 },
    }
}

/// The color table is one to one: no two classes share a color.
pub proof fn lemma_colors_distinct(a: ClassType, b: ClassType)
    ensures
        a != b ==> class_color(a) != class_color(b),
{
}

} // verus!
