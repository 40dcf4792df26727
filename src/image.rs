use vstd::prelude::*;
use crate::registers::R_PC;
use crate::vm::{Machine, Vm, MEMORY_SIZE};

verus! {

/// Why a program image cannot be loaded.
#[derive(Clone, Copy, Debug, PartialEq, Eq, Structural)]
pub enum LoadError {
    /// The image holds no base address.
    Empty,
    /// The image ends in the middle of a word.
    Truncated,
    /// The words run past the top of memory.
    TooLong,
}

/// Word `i` of an image: bytes `2i` and `2i + 1`, most significant first.
pub open spec fn image_word(b: Seq<u8>, i: int) -> u16 {
    (b[2 * i] as int * 256 + b[2 * i + 1] as int) as u16
}

/// Number of program words in an image: all words but the base address.
pub open spec fn program_len(b: Seq<u8>) -> int {
    b.len() / 2 - 1
}

/// The outcome of loading image `b`, if it is not well formed.
pub open spec fn image_error(b: Seq<u8>) -> Option<LoadError> {
    if b.len() == 0 {
        Some(LoadError::Empty)
    } else if b.len() % 2 == 1 {
        Some(LoadError::Truncated)
    } else if image_word(b, 0) + program_len(b) > MEMORY_SIZE {
        Some(LoadError::TooLong)
    } else {
        None
    }
}

/// Memory after loading image `b`: the program words from the base address
/// on, every other word as in `mem`.
pub open spec fn loaded_memory(mem: Seq<u16>, b: Seq<u8>) -> Seq<u16> {
    let base = image_word(b, 0) as int;
    Seq::new(
        mem.len(),
        |a: int|
            if base <= a < base + program_len(b) {
                image_word(b, a - base + 1)
            } else {
                mem[a]
            },
    )
}

/// `m` after loading the well-formed image `b`: memory filled and the
/// program counter at the base address.
pub open spec fn load_spec(m: Machine, b: Seq<u8>) -> Machine {
    Machine {
        registers: m.registers.set(R_PC as int, image_word(b, 0)),
        memory: loaded_memory(m.memory, b),
        output: m.output,
    }
}

/// Relies on byteorder's `BigEndian::read_u16`: the two bytes from `at` on,
/// most significant first.
#[verifier::external_body]
fn read_be_u16(bytes: &[u8], at: usize) -> (r: u16)
    requires
        at + 2 <= bytes@.len(),
    ensures
        r as int == bytes@[at as int] as int * 256 + bytes@[at + 1] as int,
{
    <byteorder::BigEndian as byteorder::ByteOrder>::read_u16(&bytes[at..])
}

impl Vm {
    /// Loads a program image: a base address, then the words to place from
    /// that address on, each big-endian. The program counter moves to the
    /// base address. A malformed image changes nothing.
    pub fn load(&mut self, image: &[u8]) -> (r: Result<(), LoadError>)
        requires
            old(self).wf(),
        ensures
            final(self).wf(),
            match image_error(image@) {
                Some(e) => r == Err::<(), LoadError>(e) && *final(self) == *old(self),
                None => r is Ok && final(self)@ == load_spec(old(self)@, image@),
            },
    {
        let len = image.len();
        if len == 0 {
            return Err(LoadError::Empty);
        }
        if len % 2 == 1 {
            return Err(LoadError::Truncated);
        }
        let base = read_be_u16(image, 0);
        assert(base == image_word(image@, 0));
        let count = len / 2 - 1;
        if base as usize + count > MEMORY_SIZE {
            return Err(LoadError::TooLong);
        }
        let ghost mem0 = self.memory@;
        let mut j: usize = 0;
        while j < count
            invariant
                self.wf(),
                count == program_len(image@),
                len == image@.len(),
                len % 2 == 0,
                base == image_word(image@, 0),
                base as int + count <= MEMORY_SIZE,
                j <= count,
                self.registers == old(self).registers,
                self.output@ == old(self).output@,
                forall|a: int|
                    0 <= a < MEMORY_SIZE ==> #[trigger] self.memory@[a] == if base <= a < base + j {
                        image_word(image@, a - base + 1)
                    } else {
                        mem0[a]
                    },
            decreases count - j,
        {
            let w = read_be_u16(image, 2 * j + 2);
            assert(w == image_word(image@, j + 1));
            self.write_memory(base as usize + j, w);
            j = j + 1;
        }
        self.registers.update(R_PC, base);
        assert(self.memory@ =~= loaded_memory(mem0, image@));
        Ok(())
    }
}

} // verus!
