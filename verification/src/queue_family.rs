//! Queue-family bookkeeping: the pair of family indices a device needs (one
//! that can draw, one that can present) and their merge into the distinct
//! list handed to swapchain creation.

use vstd::prelude::*;

verus! {

/// The graphics and presentation queue family indices discovered for a
/// surface, each absent until found.
#[derive(Clone, Copy, Debug)]
pub struct QueueFamilyIndices {
    pub graphic_family: Option<u32>,
    pub present_family: Option<u32>,
}

impl Default for QueueFamilyIndices {
    fn default() -> (r: Self)
        ensures
            r.graphic_family is None,
            r.present_family is None,
    {
        QueueFamilyIndices { graphic_family: None, present_family: None }
    }
}

impl QueueFamilyIndices {
    /// Whether both families have been found.
    pub fn is_ready(&self) -> (b: bool)
        ensures
            b == (self.graphic_family is Some && self.present_family is Some),
    {
        self.graphic_family.is_some() && self.present_family.is_some()
    }

    /// The distinct family indices, for swapchain creation: the graphics
    /// family, then the present family when it differs. `None` until both
    /// families have been found.
    pub fn merge(&self) -> (r: Option<Vec<u32>>)
        ensures
            r is Some <==> (self.graphic_family is Some && self.present_family is Some),
            r matches Some(v) ==> {
                let g = self.graphic_family->0;
                let p = self.present_family->0;
                &&& (g == p ==> v@ == seq![g])
                &&& (g != p ==> v@ == seq![g, p])
                &&& v@.contains(g)
                &&& v@.contains(p)
            },
    {
        if self.graphic_family.is_some() && self.present_family.is_some() {
            let g: u32 = self.graphic_family.unwrap();
            let p: u32 = self.present_family.unwrap();
            let mut v: Vec<u32> = Vec::new();
            v.push(g);
            if p != g {
                v.push(p);
            }
            proof {
                if g == p {
                    assert(v@ =~= seq![g]);
                    assert(v@[0] == g);
                } else {
                    assert(v@ =~= seq![g, p]);
                    assert(v@[0] == g && v@[1] == p);
                }
            }
            Some(v)
        } else {
            None
        }
    }
}

} // verus!
