use vstd::prelude::*;

verus! {

/// Failure of the host's randomness service.
#[derive(Clone, Copy, Debug, PartialEq, Eq, Structural)]
pub enum RandomReadErr {
    FailGetRandomSource,
}

impl RandomReadErr {
    /// Decode the host's status code: zero is success, one is the read
    /// failure. Any other code is a host fault, so it is excluded here.
    pub fn from_status_code(status_code: u32) -> (r: Result<(), RandomReadErr>)
        requires
            status_code == 0 || status_code == 1,
        ensures
            status_code == 0 ==> r == Ok::<(), RandomReadErr>(()),
            status_code == 1 ==> r == Err::<(), RandomReadErr>(RandomReadErr::FailGetRandomSource),
    {
        if status_code == 0 {
            Ok(())
        } else {
            Err(RandomReadErr::FailGetRandomSource)
        }
    }
}

/// The host's randomness service: fetch a 32-byte seed from outside the
/// component. Nothing is assumed about the bytes that come back, so every
/// caller is verified for every possible seed.
pub trait FetchRandom {
    fn fetch_random(&mut self) -> Result<[u8; 32], RandomReadErr>;
}

/// Recorded when the stored seed is replaced.
#[derive(Clone, Copy, Debug, PartialEq, Eq)]
pub struct RandomUpdated {
    pub new: [u8; 32],
}

/// A trivial state holder beside the ledger: one boolean toggle and the last
/// random seed fetched from the host, with its own event log.
pub struct Flipper {
    pub value: bool,
    pub rand: [u8; 32],
    pub events: Vec<RandomUpdated>,
}

impl Flipper {
    /// Store the given toggle value and seed.
    pub fn new(init_value: bool, rand_value: [u8; 32]) -> (f: Flipper)
        ensures
            f.value == init_value,
            f.rand == rand_value,
            f.events@.len() == 0,
    {
        Flipper { value: init_value, rand: rand_value, events: Vec::new() }
    }

    /// Start from a false toggle and an all-zero seed.
    pub fn default() -> (f: Flipper)
        ensures
            f.value == false,
            forall|i: int| 0 <= i < 32 ==> f.rand@[i] == 0,
            f.events@.len() == 0,
    {
        Flipper::new(false, [0u8; 32])
    }

    /// Invert the stored toggle.
    pub fn flip(&mut self)
        ensures
            final(self).value == !old(self).value,
            final(self).rand == old(self).rand,
            final(self).events == old(self).events,
    {
        self.value = !self.value;
    }

    /// The stored toggle.
    pub fn get_flip(&self) -> (r: bool)
        ensures
            r == self.value,
    {
        self.value
    }

    /// Fetch a fresh seed from the host service; on success store it and
    /// record the update, on failure change nothing and pass the error on.
    pub fn update_rand<F: FetchRandom>(&mut self, source: &mut F) -> (r: Result<
        (),
        RandomReadErr,
    >)
        ensures
            final(self).value == old(self).value,
            r.is_ok() ==> final(self).events@ == old(self).events@.push(
                (RandomUpdated { new: final(self).rand }),
            ),
            r.is_err() ==> *final(self) == *old(self) && r == Err::<(), RandomReadErr>(
                RandomReadErr::FailGetRandomSource,
            ),
    {
        match source.fetch_random() {
            Ok(new_random) => {
                self.rand = new_random;
                self.events.push(RandomUpdated { new: new_random });
                Ok(())
            },
            Err(e) => Err(e),
        }
    }

    /// The stored seed.
    pub fn get_rand(&self) -> (r: [u8; 32])
        ensures
            r == self.rand,
    {
        self.rand
    }
}

} // verus!
