//! Uniform blocks as the GPU reads them: a fixed run of 32-bit words, and
//! those words as the bytes of one buffer write.

use crate::scalar::Float32;
use crate::settings::SettingsUniform;
use vstd::prelude::*;

verus! {

/// Words in a camera block: a 4 by 4 matrix.
pub const CAMERA_WORDS: usize = 16;

/// Bytes in a camera block.
pub const CAMERA_BYTES: usize = 64;

/// Words in a settings block.
pub const SETTINGS_WORDS: usize = 12;

/// Bytes in a settings block.
pub const SETTINGS_BYTES: usize = 48;

/// Byte `k` of a word, counted from the least significant.
pub open spec fn word_byte(w: u32, k: int) -> u8 {
    if k == 0 {
        (w % 0x100) as u8
    } else if k == 1 {
        ((w / 0x100) % 0x100) as u8
    } else if k == 2 {
        ((w / 0x1_0000) % 0x100) as u8
    } else {
        (w / 0x100_0000) as u8
    }
}

/// The words one after the other, each with its least significant byte first.
pub open spec fn little_endian(words: Seq<u32>) -> Seq<u8> {
    Seq::new(4 * words.len(), |i: int| word_byte(words[i / 4], i % 4))
}

/// The words one after the other, each with its most significant byte first.
pub open spec fn big_endian(words: Seq<u32>) -> Seq<u8> {
    Seq::new(4 * words.len(), |i: int| word_byte(words[i / 4], 3 - i % 4))
}

/// Whether `bytes` are `words` as a machine lays them out in memory: in one
/// of the two byte orders, the same for every word.
pub open spec fn in_memory_order(bytes: Seq<u8>, words: Seq<u32>) -> bool {
    bytes == little_endian(words) || bytes == big_endian(words)
}

/// The word that holds a signed integer in two's complement.
pub open spec fn signed_word(x: i32) -> u32 {
    if x >= 0 {
        x as u32
    } else {
        (x + 0x1_0000_0000) as u32
    }
}

fn word_of_signed(x: i32) -> (w: u32)
    ensures
        w == signed_word(x),
{
    if x >= 0 {
        x as u32
    } else {
        (x as i64 + 0x1_0000_0000) as u32
    }
}

/// `bytemuck::cast_slice`, from 32-bit words to bytes. The call hands back
/// the memory of its argument under another type: four bytes for each word,
/// in the machine's byte order. From a wider to a narrower element it cannot
/// fail.
#[verifier::external_body]
pub(crate) fn words_as_bytes(words: &Vec<u32>) -> (bytes: Vec<u8>)
    ensures
        in_memory_order(bytes@, words@),
{
    bytemuck::cast_slice::<u32, u8>(words.as_slice()).to_vec()
}

/// The camera's transform: a 4 by 4 matrix of single-precision numbers, laid
/// out array after array.
#[derive(Clone, Copy, Debug)]
pub struct CameraUniform {
    pub matrix: [[Float32; 4]; 4],
}

impl CameraUniform {
    /// The block as words: `matrix[0]` first, each array in index order.
    pub open spec fn words(self) -> Seq<u32> {
        Seq::new(16, |i: int| self.matrix[i / 4][i % 4].bits)
    }

    pub fn new(matrix: [[Float32; 4]; 4]) -> (u: CameraUniform)
        ensures
            u.matrix == matrix,
    {
        CameraUniform { matrix }
    }

    /// The block as words.
    pub fn to_words(&self) -> (w: Vec<u32>)
        ensures
            w@ == self.words(),
            w@.len() == CAMERA_WORDS,
    {
        let mut w: Vec<u32> = Vec::new();
        let mut i: usize = 0;
        while i < 4
            invariant
                i <= 4,
                w@.len() == 4 * i,
                forall|n: int| 0 <= n < w@.len() ==> w@[n] == self.matrix[n / 4][n % 4].bits,
            decreases 4 - i,
        {
            let row = &self.matrix[i];
            let mut j: usize = 0;
            while j < 4
                invariant
                    i < 4,
                    j <= 4,
                    *row == self.matrix[i as int],
                    w@.len() == 4 * i + j,
                    forall|n: int| 0 <= n < w@.len() ==> w@[n] == self.matrix[n / 4][n % 4].bits,
                decreases 4 - j,
            {
                w.push(row[j].to_bits());
                j += 1;
            }
            i += 1;
        }
        assert(w@ =~= self.words());
        w
    }

    /// The bytes of one write of the whole block to its buffer.
    pub fn bytes(&self) -> (b: Vec<u8>)
        ensures
            b@.len() == CAMERA_BYTES,
            in_memory_order(b@, self.words()),
    {
        let w = self.to_words();
        words_as_bytes(&w)
    }
}

impl SettingsUniform {
    /// The block as words, field after field; `max_steps` in two's
    /// complement.
    pub open spec fn words(self) -> Seq<u32> {
        seq![
            signed_word(self.max_steps),
            self.epsilon.bits,
            self.max_dist.bits,
            self.sun_size.bits,
            self.sun_dir[0].bits,
            self.sun_dir[1].bits,
            self.sun_dir[2].bits,
            self.sun_sharpness.bits,
            self.alpha.bits,
            self.time.bits,
            self.scene,
            self._padding,
        ]
    }

    /// The block as words.
    pub fn to_words(&self) -> (w: Vec<u32>)
        ensures
            w@ == self.words(),
            w@.len() == SETTINGS_WORDS,
    {
        let mut w: Vec<u32> = Vec::new();
        w.push(word_of_signed(self.max_steps));
        w.push(self.epsilon.to_bits());
        w.push(self.max_dist.to_bits());
        w.push(self.sun_size.to_bits());
        w.push(self.sun_dir[0].to_bits());
        w.push(self.sun_dir[1].to_bits());
        w.push(self.sun_dir[2].to_bits());
        w.push(self.sun_sharpness.to_bits());
        w.push(self.alpha.to_bits());
        w.push(self.time.to_bits());
        w.push(self.scene);
        w.push(self._padding);
        assert(w@ =~= self.words());
        w
    }

    /// The bytes of one write of the whole block to its buffer.
    pub fn bytes(&self) -> (b: Vec<u8>)
        ensures
            b@.len() == SETTINGS_BYTES,
            in_memory_order(b@, self.words()),
    {
        let w = self.to_words();
        words_as_bytes(&w)
    }
}

} // verus!
