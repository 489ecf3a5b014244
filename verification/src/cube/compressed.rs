//! A state packed into a few bytes: three bits for each facelet.
//!
//! The colours follow one another without gaps, lowest bits first: colour `i`
//! takes the bits `3 * i` to `3 * i + 2` of the buffer, where bit `b` of the
//! buffer is bit `b % 8` of byte `b / 8`.

use vstd::prelude::*;
use super::state::{CubeState, Facelets, well_formed};

verus! {

/// The colour in field `i` of a packed buffer.
pub open spec fn packed_color(bytes: Seq<u8>, i: int) -> u8 {
    let idx = (3 * i) / 8;
    let off = ((3 * i) % 8) as u8;
    if off <= 5 {
        (bytes[idx] >> off) & 0x07
    } else {
        ((bytes[idx] >> off) | (bytes[idx + 1] << ((8 - off) as u8))) & 0x07
    }
}

/// All the bits of the buffer from bit `bit` on are zero.
pub open spec fn zero_from(bytes: Seq<u8>, bit: int) -> bool {
    &&& forall|b: int| bit / 8 < b < bytes.len() ==> #[trigger] bytes[b] == 0
    &&& bit / 8 < bytes.len() ==> bytes[bit / 8] >> ((bit % 8) as u8) == 0
}

/// The colour at place `i` of a state, the places numbered face by face.
pub open spec fn color_at(s: Facelets, i: int) -> u8 {
    s[i / 9][i % 9]
}

/// The place of the `k`-th facelet that is no centre: eight to a face.
pub open spec fn outer_place(k: int) -> int {
    9 * (k / 8) + (if k % 8 < 4 {
        k % 8
    } else {
        k % 8 + 1
    })
}

/// `bytes` is the full packing of `s`: twenty-one bytes, field `i` holding the
/// low three bits of the colour at place `i`, the six spare bits zero.
pub open spec fn is_full_packing(bytes: Seq<u8>, s: Facelets) -> bool {
    &&& bytes.len() == 21
    &&& forall|i: int| 0 <= i < 54 ==> #[trigger] packed_color(bytes, i) == color_at(s, i) & 0x07
    &&& bytes[20] >> 2u8 == 0
}

/// `bytes` is the packing of `s` without its centres: eighteen bytes, field
/// `k` holding the low three bits of the `k`-th colour that is no centre.
pub open spec fn is_outer_packing(bytes: Seq<u8>, s: Facelets) -> bool {
    &&& bytes.len() == 18
    &&& forall|k: int|
        0 <= k < 48 ==> #[trigger] packed_color(bytes, k) == color_at(s, outer_place(k)) & 0x07
}

/// The state that a full packing holds.
pub open spec fn unpacked_full(bytes: Seq<u8>) -> Facelets {
    Seq::new(6, |f: int| Seq::new(9, |p: int| packed_color(bytes, 9 * f + p)))
}

/// The state that a packing without centres holds: the centre of face `f`
/// is taken to show colour `f`.
pub open spec fn unpacked_outer(bytes: Seq<u8>) -> Facelets {
    Seq::new(
        6,
        |f: int|
            Seq::new(
                9,
                |p: int|
                    if p == 4 {
                        f as u8
                    } else if p < 4 {
                        packed_color(bytes, 8 * f + p)
                    } else {
                        packed_color(bytes, 8 * f + p - 1)
                    },
            ),
    )
}

/// Every colour of the state fits in three bits.
pub open spec fn fits_three_bits(s: Facelets) -> bool {
    forall|f: int, p: int| 0 <= f < 6 && 0 <= p < 9 ==> #[trigger] s[f][p] < 8
}

/// Every centre shows the colour of its face in the initial orientation.
pub open spec fn centers_in_place(s: Facelets) -> bool {
    forall|f: int| 0 <= f < 6 ==> (#[trigger] s[f])[4] == f
}

proof fn lemma_low_bits(x: u8)
    by (bit_vector)
    ensures
        x & 0x07 < 8,
        x < 8 ==> x & 0x07 == x,
{
}

proof fn lemma_field_written(x: u8, c: u8, off: u8)
    by (bit_vector)
    requires
        off <= 5,
        c < 8,
        x >> off == 0,
    ensures
        ((x | (c << off)) >> off) & 0x07 == c,
        off < 5 ==> (x | (c << off)) >> ((off + 3) as u8) == 0,
{
}

proof fn lemma_field_kept(x: u8, c: u8, off: u8, below: u8)
    by (bit_vector)
    requires
        off < 8,
        below + 3 <= off,
    ensures
        ((x | (c << off)) >> below) & 0x07 == (x >> below) & 0x07,
{
}

proof fn lemma_split_field_kept(y: u8, x: u8, c: u8, off: u8, below: u8)
    by (bit_vector)
    requires
        off < 8,
        6 <= below < 8,
        below <= off + 5,
    ensures
        ((y >> below) | ((x | (c << off)) << ((8 - below) as u8))) & 0x07 == ((y >> below) | (x << ((8
            - below) as u8))) & 0x07,
{
}

proof fn lemma_split_field_written(x: u8, c: u8, off: u8)
    by (bit_vector)
    requires
        6 <= off < 8,
        c < 8,
        x >> off == 0,
    ensures
        (((x | (c << off)) >> off) | ((0u8 | (c >> ((8 - off) as u8))) << ((8 - off) as u8))) & 0x07 == c,
        (0u8 | (c >> ((8 - off) as u8))) >> ((off - 5) as u8) == 0,
{
}

proof fn lemma_zero_shifted(off: u8)
    by (bit_vector)
    requires
        off < 8,
    ensures
        0u8 >> off == 0,
{
}

/// Writes `color` into field `i` of a buffer that is empty from that field
/// on.  The fields before it stay, and the buffer is empty behind it.
fn put_color<const N: usize>(data: &mut [u8; N], i: usize, color: u8)
    requires
        N <= 64,
        3 * i + 3 <= 8 * N,
        color < 8,
        zero_from(old(data)@, 3 * i),
    ensures
        forall|j: int| 0 <= j < i ==> #[trigger] packed_color(final(data)@, j) == packed_color(old(data)@, j),
        packed_color(final(data)@, i as int) == color,
        zero_from(final(data)@, 3 * i + 3),
{
    let bit_pos: usize = 3 * i;
    let byte_idx: usize = bit_pos / 8;
    let bit_offset: u8 = (bit_pos % 8) as u8;
    let ghost before = data@;
    let x = data[byte_idx];
    if bit_offset <= 5 {
        data[byte_idx] = x | (color << bit_offset);
        proof {
            lemma_field_written(x, color, bit_offset);
            if bit_offset == 5 {
                assert((3 * i + 3) / 8 == byte_idx + 1 && (3 * i + 3) % 8 == 0);
                if byte_idx + 1 < N {
                    lemma_zero_shifted(0);
                }
            } else {
                assert((3 * i + 3) / 8 == byte_idx && (3 * i + 3) % 8 == bit_offset + 3);
            }
        }
    } else {
        assert(byte_idx + 1 < N);
        assert(before[byte_idx + 1] == 0);
        data[byte_idx] = x | (color << bit_offset);
        data[byte_idx + 1] = data[byte_idx + 1] | (color >> (8 - bit_offset));
        proof {
            lemma_split_field_written(x, color, bit_offset);
            assert((3 * i + 3) / 8 == byte_idx + 1 && (3 * i + 3) % 8 == bit_offset - 5);
        }
    }
    proof {
        assert forall|j: int| 0 <= j < i implies #[trigger] packed_color(data@, j) == packed_color(
            before,
            j,
        ) by {
            let idx = (3 * j) / 8;
            let off = ((3 * j) % 8) as u8;
            if idx == byte_idx {
                lemma_field_kept(x, color, bit_offset, off);
            } else if off > 5 && idx + 1 == byte_idx {
                lemma_split_field_kept(before[idx], x, color, bit_offset, off);
            }
        }
    }
}

/// Reads field `i` of a buffer.
fn get_color<const N: usize>(data: &[u8; N], i: usize) -> (color: u8)
    requires
        N <= 64,
        3 * i + 3 <= 8 * N,
    ensures
        color == packed_color(data@, i as int),
{
    let bit_pos: usize = 3 * i;
    let byte_idx: usize = bit_pos / 8;
    let bit_offset: u8 = (bit_pos % 8) as u8;
    if bit_offset <= 5 {
        (data[byte_idx] >> bit_offset) & 0x07
    } else {
        let low = data[byte_idx] >> bit_offset;
        let high = data[byte_idx + 1] << (8 - bit_offset);
        (low | high) & 0x07
    }
}

/// A state packed into twenty-one bytes, every facelet included.
#[derive(Clone, Copy, Debug, PartialEq, Eq, Hash)]
pub struct CompressedState {
    data: [u8; 21],
}

impl CompressedState {
    /// The bytes of the packing.
    pub closed spec fn bytes(&self) -> Seq<u8> {
        self.data@
    }

    /// Packs a state.  Of each colour the low three bits are kept.
    pub fn from_cube_state(state: &CubeState) -> (packed: Self)
        ensures
            is_full_packing(packed.bytes(), state@),
    {
        let mut data = [0u8; 21];
        proof {
            lemma_zero_shifted(0);
        }
        let mut face: usize = 0;
        while face < 6
            invariant
                face <= 6,
                zero_from(data@, 27 * face),
                forall|i: int|
                    0 <= i < 9 * face ==> #[trigger] packed_color(data@, i) == color_at(state@, i) & 0x07,
            decreases 6 - face,
        {
            let mut sticker: usize = 0;
            while sticker < 9
                invariant
                    face < 6,
                    sticker <= 9,
                    zero_from(data@, 3 * (9 * face + sticker)),
                    forall|i: int|
                        0 <= i < 9 * face + sticker ==> #[trigger] packed_color(data@, i) == color_at(
                            state@,
                            i,
                        ) & 0x07,
                decreases 9 - sticker,
            {
                let color = state.faces[face][sticker] & 0x07;
                proof {
                    lemma_low_bits(state.faces[face as int][sticker as int]);
                    assert((9 * face + sticker) / 9 == face && (9 * face + sticker) % 9 == sticker);
                }
                put_color(&mut data, 9 * face + sticker, color);
                sticker += 1;
            }
            face += 1;
        }
        CompressedState { data }
    }

    /// Unpacks the state that the bytes hold.
    pub fn to_cube_state(&self) -> (state: CubeState)
        ensures
            state@ == unpacked_full(self.bytes()),
    {
        let mut faces = [[0u8; 9]; 6];
        let mut face_idx: usize = 0;
        while face_idx < 6
            invariant
                face_idx <= 6,
                forall|f: int, p: int|
                    0 <= f < face_idx && 0 <= p < 9 ==> #[trigger] faces[f][p] == packed_color(
                        self.data@,
                        9 * f + p,
                    ),
            decreases 6 - face_idx,
        {
            let mut sticker_idx: usize = 0;
            while sticker_idx < 9
                invariant
                    face_idx < 6,
                    sticker_idx <= 9,
                    forall|f: int, p: int|
                        0 <= f < face_idx && 0 <= p < 9 ==> #[trigger] faces[f][p] == packed_color(
                            self.data@,
                            9 * f + p,
                        ),
                    forall|p: int|
                        0 <= p < sticker_idx ==> #[trigger] faces[face_idx as int][p] == packed_color(
                            self.data@,
                            9 * face_idx + p,
                        ),
                decreases 9 - sticker_idx,
            {
                let color = get_color(&self.data, 9 * face_idx + sticker_idx);
                faces[face_idx][sticker_idx] = color;
                sticker_idx += 1;
            }
            face_idx += 1;
        }
        let state = CubeState { faces };
        proof {
            let model = unpacked_full(self.bytes());
            assert forall|f: int| 0 <= f < 6 implies #[trigger] state@[f] == model[f] by {
                assert forall|p: int| 0 <= p < 9 implies state@[f][p] == model[f][p] by {
                    assert(faces[f][p] == packed_color(self.data@, 9 * f + p));
                }
                assert(state@[f] =~= model[f]);
            }
            assert(state@ =~= model);
        }
        state
    }

    /// The bytes of the packing, for storage.
    pub fn as_bytes(&self) -> (bytes: &[u8; 21])
        ensures
            bytes@ == self.bytes(),
    {
        &self.data
    }

    /// The packing that the bytes are.
    pub fn from_bytes(bytes: [u8; 21]) -> (packed: Self)
        ensures
            packed.bytes() == bytes@,
    {
        CompressedState { data: bytes }
    }
}

/// A state packed into eighteen bytes: the six centres are left out.
#[derive(Clone, Copy, Debug, PartialEq, Eq, Hash)]
pub struct CompressedStateNoCenter {
    data: [u8; 18],
}

impl CompressedStateNoCenter {
    /// The bytes of the packing.
    pub closed spec fn bytes(&self) -> Seq<u8> {
        self.data@
    }

    /// Packs a state without its centres.  Of each colour the low three bits
    /// are kept.
    pub fn from_cube_state(state: &CubeState) -> (packed: Self)
        ensures
            is_outer_packing(packed.bytes(), state@),
    {
        let mut data = [0u8; 18];
        proof {
            lemma_zero_shifted(0);
        }
        let mut face: usize = 0;
        while face < 6
            invariant
                face <= 6,
                zero_from(data@, 24 * face),
                forall|k: int|
                    0 <= k < 8 * face ==> #[trigger] packed_color(data@, k) == color_at(
                        state@,
                        outer_place(k),
                    ) & 0x07,
            decreases 6 - face,
        {
            let mut sticker_idx: usize = 0;
            let mut written: usize = 0;
            while sticker_idx < 9
                invariant
                    face < 6,
                    sticker_idx <= 9,
                    written == if sticker_idx <= 4 {
                        sticker_idx as int
                    } else {
                        sticker_idx - 1
                    },
                    zero_from(data@, 3 * (8 * face + written)),
                    forall|k: int|
                        0 <= k < 8 * face + written ==> #[trigger] packed_color(data@, k) == color_at(
                            state@,
                            outer_place(k),
                        ) & 0x07,
                decreases 9 - sticker_idx,
            {
                if sticker_idx != 4 {
                    let color = state.faces[face][sticker_idx] & 0x07;
                    proof {
                        lemma_low_bits(state.faces[face as int][sticker_idx as int]);
                        let k = 8 * face + written;
                        assert(k / 8 == face && k % 8 == written);
                        assert(outer_place(k) == 9 * face + sticker_idx);
                        assert((9 * face + sticker_idx) / 9 == face && (9 * face + sticker_idx) % 9
                            == sticker_idx);
                    }
                    put_color(&mut data, 8 * face + written, color);
                    written += 1;
                }
                sticker_idx += 1;
            }
            face += 1;
        }
        CompressedStateNoCenter { data }
    }

    /// Unpacks the state that the bytes hold.  Each centre gets the colour
    /// of its face in the initial orientation.
    pub fn to_cube_state(&self) -> (state: CubeState)
        ensures
            state@ == unpacked_outer(self.bytes()),
    {
        let mut faces = [[0u8; 9]; 6];
        let mut face_idx: usize = 0;
        while face_idx < 6
            invariant
                face_idx <= 6,
                forall|f: int, p: int|
                    0 <= f < face_idx && 0 <= p < 9 ==> #[trigger] faces[f][p] == unpacked_outer(
                        self.data@,
                    )[f][p],
            decreases 6 - face_idx,
        {
            let mut sticker_idx: usize = 0;
            let mut read: usize = 0;
            while sticker_idx < 9
                invariant
                    face_idx < 6,
                    sticker_idx <= 9,
                    read == if sticker_idx <= 4 {
                        sticker_idx as int
                    } else {
                        sticker_idx - 1
                    },
                    forall|f: int, p: int|
                        0 <= f < face_idx && 0 <= p < 9 ==> #[trigger] faces[f][p] == unpacked_outer(
                            self.data@,
                        )[f][p],
                    forall|p: int|
                        0 <= p < sticker_idx ==> #[trigger] faces[face_idx as int][p] == unpacked_outer(
                            self.data@,
                        )[face_idx as int][p],
                decreases 9 - sticker_idx,
            {
                if sticker_idx == 4 {
                    faces[face_idx][4] = face_idx as u8;
                } else {
                    let color = get_color(&self.data, 8 * face_idx + read);
                    faces[face_idx][sticker_idx] = color;
                    read += 1;
                }
                sticker_idx += 1;
            }
            face_idx += 1;
        }
        let state = CubeState { faces };
        proof {
            let model = unpacked_outer(self.bytes());
            assert forall|f: int| 0 <= f < 6 implies #[trigger] state@[f] == model[f] by {
                assert forall|p: int| 0 <= p < 9 implies state@[f][p] == model[f][p] by {
                    assert(faces[f][p] == model[f][p]);
                }
                assert(state@[f] =~= model[f]);
            }
            assert(state@ =~= model);
        }
        state
    }

    /// The bytes of the packing, for storage.
    pub fn as_bytes(&self) -> (bytes: &[u8; 18])
        ensures
            bytes@ == self.bytes(),
    {
        &self.data
    }

    /// The packing that the bytes are.
    pub fn from_bytes(bytes: [u8; 18]) -> (packed: Self)
        ensures
            packed.bytes() == bytes@,
    {
        CompressedStateNoCenter { data: bytes }
    }
}

/// Packing a state in full and unpacking it gives the state back, if every
/// colour fits in three bits.
pub proof fn lemma_full_roundtrip(s: Facelets, bytes: Seq<u8>)
    requires
        well_formed(s),
        fits_three_bits(s),
        is_full_packing(bytes, s),
    ensures
        unpacked_full(bytes) == s,
{
    let back = unpacked_full(bytes);
    assert forall|f: int| 0 <= f < 6 implies #[trigger] back[f] == s[f] by {
        assert forall|p: int| 0 <= p < 9 implies back[f][p] == s[f][p] by {
            let i = 9 * f + p;
            assert(i / 9 == f && i % 9 == p);
            assert(packed_color(bytes, i) == color_at(s, i) & 0x07);
            assert(s[f][p] < 8);
            lemma_low_bits(s[f][p]);
        }
        assert(back[f] =~= s[f]);
    }
    assert(back =~= s);
}

/// Packing a state without its centres and unpacking it gives the state
/// back, if every colour fits in three bits and every centre shows the
/// colour of its face in the initial orientation.
pub proof fn lemma_outer_roundtrip(s: Facelets, bytes: Seq<u8>)
    requires
        well_formed(s),
        fits_three_bits(s),
        centers_in_place(s),
        is_outer_packing(bytes, s),
    ensures
        unpacked_outer(bytes) == s,
{
    let back = unpacked_outer(bytes);
    assert forall|f: int| 0 <= f < 6 implies #[trigger] back[f] == s[f] by {
        assert forall|p: int| 0 <= p < 9 implies back[f][p] == s[f][p] by {
            if p != 4 {
                let k = if p < 4 {
                    8 * f + p
                } else {
                    8 * f + p - 1
                };
                assert(k / 8 == f);
                assert(outer_place(k) == 9 * f + p);
                assert((9 * f + p) / 9 == f && (9 * f + p) % 9 == p);
                assert(packed_color(bytes, k) == color_at(s, outer_place(k)) & 0x07);
                assert(s[f][p] < 8);
                lemma_low_bits(s[f][p]);
            }
        }
        assert(back[f] =~= s[f]);
    }
    assert(back =~= s);
}

} // verus!
