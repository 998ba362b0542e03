//! The uniform parameter block handed to the ray-tracing compute shader.

use vstd::prelude::*;
use vstd::endian::{endianness, Endian};

verus! {

/// The four bytes of `x`, least significant first.
pub open spec fn le_bytes(x: u32) -> Seq<u8> {
    seq![
        (x % 0x100) as u8,
        (x / 0x100 % 0x100) as u8,
        (x / 0x1_0000 % 0x100) as u8,
        (x / 0x100_0000) as u8,
    ]
}

/// The four bytes of `x`, most significant first.
pub open spec fn be_bytes(x: u32) -> Seq<u8> {
    seq![
        (x / 0x100_0000) as u8,
        (x / 0x1_0000 % 0x100) as u8,
        (x / 0x100 % 0x100) as u8,
        (x % 0x100) as u8,
    ]
}

/// `bytes` is the in-memory representation of `x` in one of the two byte
/// orders a target can have.
pub open spec fn is_native_bytes_of(bytes: Seq<u8>, x: u32) -> bool {
    bytes == le_bytes(x) || bytes == be_bytes(x)
}

/// The four bytes of `x` in the byte order of the machine the code runs on
/// (`endianness()`, one order for the whole run).
pub open spec fn native_bytes(x: u32) -> Seq<u8> {
    match endianness() {
        Endian::Little => le_bytes(x),
        Endian::Big => be_bytes(x),
    }
}

/// The number that four bytes stand for when read as a `u32` in the byte
/// order of the machine: the weights of the bytes, least significant first,
/// are 1, 2^8, 2^16 and 2^24.
pub open spec fn native_value(bytes: Seq<u8>) -> int {
    match endianness() {
        Endian::Little => bytes[0] + 0x100 * bytes[1] + 0x1_0000 * bytes[2] + 0x100_0000 * bytes[3],
        Endian::Big => bytes[3] + 0x100 * bytes[2] + 0x1_0000 * bytes[1] + 0x100_0000 * bytes[0],
    }
}

/// Calls `bytemuck::cast_slice::<u32, u8>` on the one-element slice `[value]`
/// and copies the result. The cast reinterprets the memory of the slice, so
/// the result is the four bytes of `value` in the byte order of the machine,
/// the target's one fixed order, which vstd names `endianness()`; which of the
/// two orders that is, is not stated.
/// The cast cannot fail for these types (the target alignment is 1 and every
/// length is a multiple of 1), so it does not panic.
#[verifier::external_body]
fn u32_to_native_bytes(value: u32) -> (bytes: Vec<u8>)
    ensures
        is_native_bytes_of(bytes@, value),
        bytes@ == native_bytes(value),
{
    bytemuck::cast_slice::<u32, u8>(&[value]).to_vec()
}

/// Parameters read by the compute shader each frame.
#[derive(Clone, Copy, Debug, PartialEq, Eq, Structural)]
pub struct ShaderParams {
    frame_count: u32,
}

impl View for ShaderParams {
    type V = u32;

    /// The number of frames rendered so far.
    closed spec fn view(&self) -> u32 {
        self.frame_count
    }
}

impl ShaderParams {
    /// Parameters for the first frame: no frame has been rendered yet.
    pub fn new() -> (params: Self)
        ensures
            params@ == 0,
    {
        Self { frame_count: 0 }
    }

    /// The number of frames rendered so far.
    pub fn frame_count(&self) -> (count: u32)
        ensures
            count == self@,
    {
        self.frame_count
    }

    /// Counts one more rendered frame. The count must not be at its maximum,
    /// where the addition overflows.
    pub fn increment_frame_count(&mut self)
        requires
            old(self)@ < u32::MAX,
        ensures
            final(self)@ == old(self)@ + 1,
    {
        self.frame_count += 1;
    }

    /// The bytes that are written to the shader's uniform buffer: the block
    /// laid out as in memory, that is the frame count in native byte order.
    pub fn uniform_bytes(&self) -> (bytes: Vec<u8>)
        ensures
            is_native_bytes_of(bytes@, self@),
            bytes@ == native_bytes(self@),
            native_value(bytes@) == self@ as int,
            bytes@.len() == 4,
    {
        let bytes = u32_to_native_bytes(self.frame_count);
        proof {
            lemma_native_bytes_read_back(self.frame_count);
        }
        bytes
    }
}

/// The four bytes of a `u32`, as the byte order lists them, determine it.
proof fn lemma_bytes_determine_value(x: u32, y: u32)
    requires
        (x % 0x100) as u8 == (y % 0x100) as u8,
        (x / 0x100 % 0x100) as u8 == (y / 0x100 % 0x100) as u8,
        (x / 0x1_0000 % 0x100) as u8 == (y / 0x1_0000 % 0x100) as u8,
        (x / 0x100_0000) as u8 == (y / 0x100_0000) as u8,
    ensures
        x == y,
{
    assert((x % 0x100) as u8 == (y % 0x100) as u8 && (x / 0x100 % 0x100) as u8 == (y / 0x100
        % 0x100) as u8 && (x / 0x1_0000 % 0x100) as u8 == (y / 0x1_0000 % 0x100) as u8 && (x
        / 0x100_0000) as u8 == (y / 0x100_0000) as u8 ==> x == y) by (bit_vector);
}

/// Different frame counts give different uniform-buffer contents in either
/// byte order, so the shader can tell every frame apart.
pub proof fn lemma_uniform_bytes_injective(x: u32, y: u32)
    requires
        le_bytes(x) == le_bytes(y) || be_bytes(x) == be_bytes(y),
    ensures
        x == y,
{
    if le_bytes(x) == le_bytes(y) {
        assert(le_bytes(x)[0] == le_bytes(y)[0]);
        assert(le_bytes(x)[1] == le_bytes(y)[1]);
        assert(le_bytes(x)[2] == le_bytes(y)[2]);
        assert(le_bytes(x)[3] == le_bytes(y)[3]);
    } else {
        assert(be_bytes(x)[0] == be_bytes(y)[0]);
        assert(be_bytes(x)[1] == be_bytes(y)[1]);
        assert(be_bytes(x)[2] == be_bytes(y)[2]);
        assert(be_bytes(x)[3] == be_bytes(y)[3]);
    }
    lemma_bytes_determine_value(x, y);
}

/// Reading the uniform bytes of a count back in the machine's byte order
/// gives that count: the shader sees the frame count the CPU wrote.
pub proof fn lemma_native_bytes_read_back(x: u32)
    ensures
        native_value(native_bytes(x)) == x as int,
        native_bytes(x).len() == 4,
{
    let b0 = x % 0x100;
    let b1 = x / 0x100 % 0x100;
    let b2 = x / 0x1_0000 % 0x100;
    let b3 = x / 0x100_0000;
    assert(b0 + 0x100 * b1 + 0x1_0000 * b2 + 0x100_0000 * b3 == x) by (bit_vector)
        requires
            b0 == x % 0x100,
            b1 == x / 0x100 % 0x100,
            b2 == x / 0x1_0000 % 0x100,
            b3 == x / 0x100_0000,
    ;
    assert(b0 < 0x100 && b1 < 0x100 && b2 < 0x100 && b3 < 0x100);
    assert(le_bytes(x)[0] == b0 && le_bytes(x)[1] == b1 && le_bytes(x)[2] == b2
        && le_bytes(x)[3] == b3);
    assert(be_bytes(x)[3] == b0 && be_bytes(x)[2] == b1 && be_bytes(x)[1] == b2
        && be_bytes(x)[0] == b3);
}

/// The uniform bytes of any two counts are laid out in the same byte order:
/// either both least significant byte first, or both most significant byte
/// first. Reading them back in that one order tells the counts apart.
pub proof fn lemma_native_bytes_one_order(x: u32, y: u32)
    ensures
        (native_bytes(x) == le_bytes(x) && native_bytes(y) == le_bytes(y))
            || (native_bytes(x) == be_bytes(x) && native_bytes(y) == be_bytes(y)),
        native_bytes(x) == native_bytes(y) <==> x == y,
{
    lemma_native_bytes_read_back(x);
    lemma_native_bytes_read_back(y);
}

/// Counting frames one by one: along any run of `increment_frame_count`
/// calls, whose successive values are `counts`, the count after `i` calls is
/// the starting count plus `i`. From `ShaderParams::new` (count 0) that is
/// `i` itself, and `k` calls followed by `m` more give `k + m`.
pub proof fn lemma_increments_count_calls(counts: Seq<ShaderParams>)
    requires
        counts.len() >= 1,
        forall|i: int| 0 <= i < counts.len() - 1 ==> #[trigger] counts[i + 1]@ == counts[i]@ + 1,
    ensures
        forall|i: int| 0 <= i < counts.len() ==> #[trigger] counts[i]@ == counts[0]@ + i,
        counts[0]@ == 0 ==> forall|i: int| 0 <= i < counts.len() ==> #[trigger] counts[i]@ == i,
    decreases counts.len(),
{
    if counts.len() > 1 {
        let prefix = counts.drop_last();
        assert forall|i: int| 0 <= i < prefix.len() - 1 implies #[trigger] prefix[i + 1]@
            == prefix[i]@ + 1 by {
            assert(counts[i + 1]@ == counts[i]@ + 1);
        }
        lemma_increments_count_calls(prefix);
        assert forall|i: int| 0 <= i < counts.len() implies #[trigger] counts[i]@ == counts[0]@
            + i by {
            if i < counts.len() - 1 {
                assert(prefix[i] == counts[i]);
            } else {
                assert(prefix[i - 1] == counts[i - 1]);
                assert(counts[(i - 1) + 1]@ == counts[i - 1]@ + 1);
            }
        }
    }
}

} // verus!
