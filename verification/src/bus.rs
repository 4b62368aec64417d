use vstd::prelude::*;

verus! {

/// The memory bus the core drives: a byte-addressed read/write capability.
/// An implementation is described by two spec functions: `contents`, the byte
/// visible at each address, and `writable`, the addresses where a write takes
/// effect (elsewhere it is silently dropped). Reads never disturb the bus.
pub trait Address: Sized {
    /// The byte visible at each address.
    spec fn contents(&self) -> Map<u32, u8>;

    /// Whether a write at `addr` takes effect.
    spec fn writable(&self, addr: u32) -> bool;

    /// Read one byte. Total: every address yields its visible byte.
    fn read(&mut self, addr: u32) -> (r: u8)
        ensures
            final(self).contents() == old(self).contents(),
            forall|a: u32| final(self).writable(a) == old(self).writable(a),
            r == old(self).contents()[addr],
    ;

    /// Write one byte. Takes effect exactly on the writable addresses.
    fn write(&mut self, addr: u32, data: u8)
        ensures
            final(self).contents() == (if old(self).writable(addr) {
                old(self).contents().insert(addr, data)
            } else {
                old(self).contents()
            }),
            forall|a: u32| final(self).writable(a) == old(self).writable(a),
    ;
}

/// How many bytes the default in-memory bus backs: a 24-bit physical space.
pub const SIMPLE_ADDRESS_SIZE: usize = 0x1000000;

/// The default bus: a 16-MiB RAM. Reads beyond the 24-bit space return 0 and
/// writes there are silently dropped.
pub struct SimpleAddress {
    memory: Vec<u8>,
}

impl SimpleAddress {
    #[verifier::type_invariant]
    spec fn wf(self) -> bool {
        self.memory@.len() == SIMPLE_ADDRESS_SIZE
    }

    /// Read a byte directly, bypassing nothing: the bus has no translation.
    /// Hosts and tests use this to inspect physical memory.
    pub fn peek(&self, addr: u32) -> (r: u8)
        ensures
            r == self.contents()[addr],
    {
        proof {
            use_type_invariant(self);
        }
        if addr < 0x1000000 {
            self.memory[addr as usize]
        } else {
            0
        }
    }
}

impl Default for SimpleAddress {
    /// A fresh 16-MiB RAM holding zeroes.
    fn default() -> (s: SimpleAddress)
        ensures
            forall|a: u32| s.contents()[a] == 0u8,
            forall|a: u32| s.writable(a) == (a < 0x1000000),
    {
        SimpleAddress { memory: vec![0u8; SIMPLE_ADDRESS_SIZE] }
    }
}

impl Address for SimpleAddress {
    closed spec fn contents(&self) -> Map<u32, u8> {
        Map::new(
            |a: u32| true,
            |a: u32|
                if a < 0x1000000 {
                    self.memory@[a as int]
                } else {
                    0u8
                },
        )
    }

    closed spec fn writable(&self, addr: u32) -> bool {
        addr < 0x1000000
    }

    fn read(&mut self, addr: u32) -> (r: u8) {
        proof {
            use_type_invariant(&*self);
        }
        if addr < 0x1000000 {
            self.memory[addr as usize]
        } else {
            0
        }
    }

    fn write(&mut self, addr: u32, data: u8) {
        proof {
            use_type_invariant(&*self);
        }
        if addr < 0x1000000 {
            self.memory[addr as usize] = data;
            proof {
                assert(self.contents() =~= old(self).contents().insert(addr, data));
            }
        }
    }
}

} // verus!
