use vstd::prelude::*;

use crate::vec::UNIT;

verus! {

/// A Phong surface: the chance of a diffuse bounce and of a specular bounce,
/// in hundredths, and the sharpness of the specular lobe. What remains of
/// one is the chance that the light is absorbed.
#[derive(Clone, Copy, Debug, PartialEq, Eq, Structural)]
pub struct PhongParameter {
    pub diffuse_reflectivity: i64,
    pub specular_reflectivity: i64,
    pub exponent: i32,
}

/// Which way a bounce off a Phong surface goes.
#[derive(Clone, Copy, Debug, PartialEq, Eq, Structural)]
pub enum Lobe {
    Diffuse,
    Specular,
    Absorbed,
}

impl PhongParameter {
    /// Both chances are non-negative and together at most one.
    pub open spec fn well_formed(&self) -> bool {
        0 <= self.diffuse_reflectivity && 0 <= self.specular_reflectivity
            && self.diffuse_reflectivity + self.specular_reflectivity <= UNIT
    }

    pub fn is_well_formed(&self) -> (r: bool)
        ensures
            r == self.well_formed(),
    {
        0 <= self.diffuse_reflectivity && 0 <= self.specular_reflectivity
            && self.specular_reflectivity <= UNIT - self.diffuse_reflectivity
    }

    /// The lobe that a draw in `0..UNIT` selects: the first
    /// `diffuse_reflectivity` draws go diffuse, the next
    /// `specular_reflectivity` specular, the rest are absorbed.
    pub open spec fn spec_lobe_for_draw(&self, draw: int) -> Lobe {
        if draw < self.diffuse_reflectivity {
            Lobe::Diffuse
        } else if draw < self.diffuse_reflectivity + self.specular_reflectivity {
            Lobe::Specular
        } else {
            Lobe::Absorbed
        }
    }

    pub fn lobe_for_draw(&self, draw: i64) -> (r: Lobe)
        requires
            self.well_formed(),
            0 <= draw < UNIT,
        ensures
            r == self.spec_lobe_for_draw(draw as int),
    {
        if draw < self.diffuse_reflectivity {
            Lobe::Diffuse
        } else if draw < self.diffuse_reflectivity + self.specular_reflectivity {
            Lobe::Specular
        } else {
            Lobe::Absorbed
        }
    }

    /// Draws the lobe of one bounce.
    pub fn choose_lobe(&self) -> (r: Lobe)
        requires
            self.well_formed(),
        ensures
            exists|draw: int| 0 <= draw < UNIT && r == self.spec_lobe_for_draw(draw),
    {
        let raw: usize = rand::random::<usize>();
        let draw = (raw % (UNIT as usize)) as i64;
        self.lobe_for_draw(draw)
    }
}

/// How a surface scatters the light that strikes it.
#[derive(Clone, Copy, Debug, PartialEq, Eq, Structural)]
pub enum Reflection {
    Diffuse,
    Specular,
    Refraction,
    /// A mirror blurred by the given radius, in hundredths.
    Glossy(i64),
    Phong(PhongParameter),
}

impl Reflection {
    pub open spec fn well_formed(&self) -> bool {
        match self {
            Reflection::Phong(p) => p.well_formed(),
            _ => true,
        }
    }

    pub fn is_well_formed(&self) -> (r: bool)
        ensures
            r == self.well_formed(),
    {
        match self {
            Reflection::Phong(p) => p.is_well_formed(),
            _ => true,
        }
    }

    /// Whether light sampling with shadow rays applies to this surface:
    /// it does for the models with a diffuse part.
    pub open spec fn spec_is_nee_target(&self) -> bool {
        self is Diffuse || self is Phong
    }

    pub fn is_nee_target(&self) -> (r: bool)
        ensures
            r == self.spec_is_nee_target(),
    {
        match self {
            Reflection::Diffuse => true,
            Reflection::Phong(_) => true,
            _ => false,
        }
    }
}

impl Default for Reflection {
    fn default() -> (r: Reflection)
        ensures
            r == Reflection::Diffuse,
    {
        Reflection::Diffuse
    }
}

} // verus!
