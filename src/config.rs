use vstd::prelude::*;

verus! {

/// The integration schemes a run can select.
#[derive(Clone, Copy, Debug, PartialEq, Eq, Structural)]
pub enum Scheme {
    Rk4,
    Verlet,
    Dop853,
    Dop853Hp,
    Feagin14,
}

/// The scheme a selector names, if any.
pub open spec fn scheme_named(name: Seq<char>) -> Option<Scheme> {
    if name == "rk4"@ {
        Some(Scheme::Rk4)
    } else if name == "verlet"@ {
        Some(Scheme::Verlet)
    } else if name == "dop853"@ {
        Some(Scheme::Dop853)
    } else if name == "dop853_hp"@ {
        Some(Scheme::Dop853Hp)
    } else if name == "feagin14"@ {
        Some(Scheme::Feagin14)
    } else {
        None
    }
}

impl Scheme {
    /// The scheme named by `name` (`rk4`, `verlet`, `dop853`, `dop853_hp`,
    /// `feagin14`); `None` for any other selector.
    pub fn from_name(name: &str) -> (r: Option<Scheme>)
        ensures
            r == scheme_named(name@),
    {
        let s = name.to_owned();
        if s == "rk4".to_owned() {
            Some(Scheme::Rk4)
        } else if s == "verlet".to_owned() {
            Some(Scheme::Verlet)
        } else if s == "dop853".to_owned() {
            Some(Scheme::Dop853)
        } else if s == "dop853_hp".to_owned() {
            Some(Scheme::Dop853Hp)
        } else if s == "feagin14".to_owned() {
            Some(Scheme::Feagin14)
        } else {
            None
        }
    }
}

/// The image path used when the configuration names none.
pub fn default_output() -> (r: String)
    ensures
        r@ == "orbit.png"@,
{
    "orbit.png".to_owned()
}

/// The image width in pixels used when the configuration names none.
pub fn default_width() -> (r: u32)
    ensures
        r == 1200,
{
    1200
}

/// The image height in pixels used when the configuration names none.
pub fn default_height() -> (r: u32)
    ensures
        r == 900,
{
    900
}

} // verus!
