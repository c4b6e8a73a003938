use vstd::prelude::*;

verus! {

/// The little-endian value of the first eight bytes of `b`.
pub open spec fn le_u64(b: Seq<u8>) -> int
    recommends
        b.len() >= 8,
{
    b[0] as int + 256 * (b[1] as int + 256 * (b[2] as int + 256 * (b[3] as int + 256 * (
    b[4] as int + 256 * (b[5] as int + 256 * (b[6] as int + 256 * (b[7] as int)))))))
}

/// The price that an oracle feed publishes: the first eight bytes of its data,
/// little-endian; none when fewer than eight bytes are there.
pub open spec fn feed_price(data: Seq<u8>) -> Option<u64> {
    if data.len() < 8 {
        None
    } else {
        Some(le_u64(data) as u64)
    }
}

/// Reads the price that an oracle feed publishes in the first eight bytes of its
/// data. Fails when fewer than eight bytes are there.
pub fn read_price(data: &[u8]) -> (r: Option<u64>)
    ensures
        r == feed_price(data@),
        data@.len() < 8 <==> r is None,
        r matches Some(p) ==> p as int == le_u64(data@),
{
    if data.len() < 8 {
        return None;
    }
    let mut acc: u64 = data[7] as u64;
    acc = acc * 256 + data[6] as u64;
    acc = acc * 256 + data[5] as u64;
    acc = acc * 256 + data[4] as u64;
    acc = acc * 256 + data[3] as u64;
    acc = acc * 256 + data[2] as u64;
    acc = acc * 256 + data[1] as u64;
    acc = acc * 256 + data[0] as u64;
    Some(acc)
}

} // verus!
