//! Which device has which streaming endpoint.

use vstd::prelude::*;
use crate::scrcpy::scrcpy::ScrcpyConnect;
use crate::text::same_text;

verus! {

/// The map that a list of endpoints stands for: where a serial occurs
/// more than once, the last occurrence counts.
pub open spec fn endpoints(devices: Seq<(String, ScrcpyConnect)>) -> Map<Seq<char>, ScrcpyConnect>
    decreases devices.len(),
{
    if devices.len() == 0 {
        Map::empty()
    } else {
        endpoints(devices.drop_last()).insert(devices.last().0@, devices.last().1)
    }
}

/// The streaming endpoints of the connected devices, by serial.
#[derive(Debug, Clone, PartialEq, Eq)]
pub struct ScrcpyServer {
    pub devices: Vec<(String, ScrcpyConnect)>,
}

impl View for ScrcpyServer {
    type V = Map<Seq<char>, ScrcpyConnect>;

    open spec fn view(&self) -> Map<Seq<char>, ScrcpyConnect> {
        endpoints(self.devices@)
    }
}

impl ScrcpyServer {
    /// A registry without devices.
    pub fn new() -> (r: Self)
        ensures
            r@ == Map::<Seq<char>, ScrcpyConnect>::empty(),
    {
        ScrcpyServer { devices: Vec::new() }
    }

    /// The endpoint of a device, where it is connected.
    pub fn get_device_connect(&self, serial: &str) -> (r: Option<ScrcpyConnect>)
        ensures
            match r {
                Some(c) => self@.contains_key(serial@) && self@[serial@] == c,
                None => !self@.contains_key(serial@),
            },
    {
        let mut i: usize = self.devices.len();
        proof {
            assert(self.devices@.take(i as int) =~= self.devices@);
        }
        while i > 0
            invariant
                i <= self.devices@.len(),
                endpoints(self.devices@).contains_key(serial@) == endpoints(
                    self.devices@.take(i as int),
                ).contains_key(serial@),
                endpoints(self.devices@).contains_key(serial@) ==> endpoints(self.devices@)[serial@]
                    == endpoints(self.devices@.take(i as int))[serial@],
            decreases i,
        {
            let ghost prefix = self.devices@.take(i as int);
            proof {
                assert(prefix.drop_last() =~= self.devices@.take(i - 1));
                assert(prefix.last() == self.devices@[i - 1]);
            }
            i -= 1;
            if same_text(self.devices[i].0.as_str(), serial) {
                return Some(self.devices[i].1);
            }
        }
        None
    }

    /// Whether a device is connected.
    pub fn is_device_connected(&self, serial: &str) -> (b: bool)
        ensures
            b == self@.contains_key(serial@),
    {
        self.get_device_connect(serial).is_some()
    }

    /// Enters the endpoint of a device, in place of any it had.
    pub fn add_device(&mut self, serial: String, connect: ScrcpyConnect)
        ensures
            final(self)@ == old(self)@.insert(serial@, connect),
    {
        self.devices.push((serial, connect));
        proof {
            assert(self.devices@.drop_last() =~= old(self).devices@);
        }
    }

    /// Removes a device.
    pub fn remove_device(&mut self, serial: &str)
        ensures
            final(self)@ == old(self)@.remove(serial@),
    {
        let mut kept: Vec<(String, ScrcpyConnect)> = Vec::new();
        let mut all: Vec<(String, ScrcpyConnect)> = Vec::new();
        std::mem::swap(&mut all, &mut self.devices);
        let mut i: usize = 0;
        proof {
            assert(endpoints(kept@) =~= endpoints(all@.take(0)).remove(serial@));
        }
        while i < all.len()
            invariant
                i <= all@.len(),
                all@ == old(self).devices@,
                endpoints(kept@) == endpoints(all@.take(i as int)).remove(serial@),
            decreases all@.len() - i,
        {
            let ghost next = all@.take(i + 1);
            proof {
                assert(next.drop_last() =~= all@.take(i as int));
                assert(next.last() == all@[i as int]);
            }
            if !same_text(all[i].0.as_str(), serial) {
                let ghost before = kept@;
                kept.push((all[i].0.clone(), all[i].1));
                proof {
                    assert(kept@.drop_last() =~= before);
                    assert(endpoints(kept@) =~= endpoints(next).remove(serial@));
                }
            } else {
                proof {
                    assert(endpoints(kept@) =~= endpoints(next).remove(serial@));
                }
            }
            i += 1;
        }
        proof {
            assert(all@.take(all@.len() as int) =~= all@);
        }
        self.devices = kept;
    }
}

impl Default for ScrcpyServer {
    fn default() -> (r: Self)
        ensures
            r@ == Map::<Seq<char>, ScrcpyConnect>::empty(),
    {
        Self::new()
    }
}

} // verus!
