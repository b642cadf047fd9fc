//! A flag that one path through a function writes and another reads.

use vstd::prelude::*;

verus! {

pub struct VolBool(bool);

impl VolBool {
    pub closed spec fn view(&self) -> bool {
        self.0
    }

    pub fn new(val: bool) -> (flag: VolBool)
        ensures
            flag@ == val,
    {
        VolBool(val)
    }

    pub fn read(&self) -> (val: bool)
        ensures
            val == self@,
    {
        self.0
    }

    pub fn write(&mut self, val: bool)
        ensures
            final(self)@ == val,
    {
        self.0 = val;
    }
}

} // verus!
