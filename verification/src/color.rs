//! Identity-via-color picking: a node id is offset by one and packed
//! bijectively into the red (low byte), green (next byte) and blue (next
//! byte) channels of the color used by the picking tessellation pass. The
//! zero color is reserved for "background / no node", and the reserved-zero
//! and overflow policy is centralized here.
use vstd::prelude::*;
use crate::MAX_NODE_ID;

verus! {

/// An opaque 8-bit-per-channel RGB color.
#[derive(Clone, Copy, Debug, PartialEq, Eq, Structural)]
pub struct Color {
    pub r: u8,
    pub g: u8,
    pub b: u8,
}

/// The fixed visual fill color of path shapes (a light red).
pub open spec fn draw_color() -> Color {
    Color { r: 255, g: 128, b: 128 }
}

/// The numeric value a color read back from the picking buffer stands for.
pub open spec fn color_value(c: Color) -> int {
    c.r + 256 * c.g + 65536 * c.b
}

/// The picking color of the node with the given id: `id + 1` packed into the
/// three channels, low byte in red.
pub open spec fn encode_spec(id: u64) -> Color
    recommends
        id <= MAX_NODE_ID,
{
    Color {
        r: (((id + 1) % 256) as u8),
        g: ((((id + 1) / 256) % 256) as u8),
        b: ((((id + 1) / 65536) % 256) as u8),
    }
}

/// What decoding a read-back color yields: `None` for the reserved zero
/// color (background), else the id whose encoding the color is.
pub open spec fn decode_spec(c: Color) -> Option<u64> {
    if color_value(c) == 0 {
        None
    } else {
        Some((color_value(c) - 1) as u64)
    }
}

/// Packs `id + 1` into the color channels. Ids beyond `MAX_NODE_ID` have no
/// encoding and are rejected at node creation, so they are excluded here.
pub fn encode_id(id: u64) -> (c: Color)
    requires
        id <= MAX_NODE_ID,
    ensures
        c == encode_spec(id),
{
    let n = id + 1;
    Color { r: (n % 256) as u8, g: ((n / 256) % 256) as u8, b: ((n / 65536) % 256) as u8 }
}

/// Decodes a color read back from the picking buffer: the reserved zero
/// color means "no node"; any other color yields the encoded id.
pub fn decode_color(c: Color) -> (r: Option<u64>)
    ensures
        r == decode_spec(c),
{
    let n: u64 = c.r as u64 + 256 * (c.g as u64) + 65536 * (c.b as u64);
    if n == 0 {
        None
    } else {
        Some(n - 1)
    }
}

/// Law: decoding inverts encoding on every valid id, so the picking color
/// of a live node always resolves back to exactly that node.
pub proof fn lemma_pick_round_trip(id: u64)
    requires
        id <= MAX_NODE_ID,
    ensures
        color_value(encode_spec(id)) == id + 1,
        decode_spec(encode_spec(id)) == Some(id),
{
    let n = (id + 1) as int;
    assert(n == 256 * (n / 256) + n % 256) by (nonlinear_arith)
        requires
            n >= 1,
    ;
    assert(n / 256 == 256 * ((n / 256) / 256) + (n / 256) % 256) by (nonlinear_arith)
        requires
            n >= 1,
    ;
    assert((n / 256) / 256 == n / 65536) by (nonlinear_arith)
        requires
            n >= 1,
    ;
    assert(n / 65536 < 256) by (nonlinear_arith)
        requires
            1 <= n <= 16777215,
    ;
    assert((n / 65536) % 256 == n / 65536);
    assert(color_value(encode_spec(id)) == n % 256 + 256 * ((n / 256) % 256) + 65536 * (n
        / 65536));
}

/// Law: the encoding is injective over the whole valid id range, so two
/// live nodes can never share a picking color.
pub proof fn lemma_encode_injective(a: u64, b: u64)
    requires
        a <= MAX_NODE_ID,
        b <= MAX_NODE_ID,
        encode_spec(a) == encode_spec(b),
    ensures
        a == b,
{
    lemma_pick_round_trip(a);
    lemma_pick_round_trip(b);
}

} // verus!
