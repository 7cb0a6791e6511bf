//! Specification-level parsing primitives.
//!
//! Every decode operation of the library is described by a spec function
//! here or in a record module. A parser takes the whole byte buffer and a
//! position, and yields either the parsed value together with the position
//! just after it, or the error the decoder reports there.

use vstd::prelude::*;

use crate::error::ErrorView;

verus! {

/// Little-endian 16-bit value of two bytes.
pub open spec fn le_u16(b0: u8, b1: u8) -> u16 {
    (b0 + b1 * 0x100) as u16
}

/// Little-endian 32-bit value of four bytes.
pub open spec fn le_u32(b0: u8, b1: u8, b2: u8, b3: u8) -> u32 {
    (b0 + b1 * 0x100 + b2 * 0x10000 + b3 * 0x1000000) as u32
}

/// One byte at `pos`.
pub open spec fn spec_u8(d: Seq<u8>, pos: int) -> Result<(u8, int), ErrorView> {
    if 0 <= pos && pos + 1 <= d.len() {
        Ok((d[pos], pos + 1))
    } else {
        Err(ErrorView::UnexpectedEof)
    }
}

/// A little-endian unsigned 16-bit field at `pos`.
pub open spec fn spec_u16(d: Seq<u8>, pos: int) -> Result<(u16, int), ErrorView> {
    if 0 <= pos && pos + 2 <= d.len() {
        Ok((le_u16(d[pos], d[pos + 1]), pos + 2))
    } else {
        Err(ErrorView::UnexpectedEof)
    }
}

/// A little-endian unsigned 32-bit field at `pos`.
pub open spec fn spec_u32(d: Seq<u8>, pos: int) -> Result<(u32, int), ErrorView> {
    if 0 <= pos && pos + 4 <= d.len() {
        Ok((le_u32(d[pos], d[pos + 1], d[pos + 2], d[pos + 3]), pos + 4))
    } else {
        Err(ErrorView::UnexpectedEof)
    }
}

/// A little-endian signed 32-bit field at `pos`.
pub open spec fn spec_i32(d: Seq<u8>, pos: int) -> Result<(i32, int), ErrorView> {
    match spec_u32(d, pos) {
        Ok((u, p)) => Ok((u as i32, p)),
        Err(e) => Err(e),
    }
}

/// `n` raw bytes starting at `pos`.
pub open spec fn spec_bytes(d: Seq<u8>, pos: int, n: int) -> Result<(Seq<u8>, int), ErrorView> {
    if 0 <= pos && 0 <= n && pos + n <= d.len() {
        Ok((d.subrange(pos, pos + n), pos + n))
    } else {
        Err(ErrorView::UnexpectedEof)
    }
}

/// The views of a sequence of decoded records.
pub open spec fn seq_views<T: View>(vs: Seq<T>) -> Seq<T::V> {
    vs.map_values(|x: T| x@)
}

/// `k` consecutive records parsed by `step`, starting at `pos`. Yields the
/// records in order and the position after the last one, or the first
/// record's error. A non-positive `k` parses nothing.
pub open spec fn spec_records<V>(
    step: spec_fn(int) -> Result<(V, int), ErrorView>,
    pos: int,
    k: int,
) -> Result<(Seq<V>, int), ErrorView>
    decreases k,
{
    if k <= 0 {
        Ok((Seq::empty(), pos))
    } else {
        match step(pos) {
            Ok((v, p)) => match spec_records(step, p, k - 1) {
                Ok((vs, p2)) => Ok((seq![v] + vs, p2)),
                Err(e) => Err(e),
            },
            Err(e) => Err(e),
        }
    }
}

/// A run of records either fails or yields exactly `k` of them.
pub proof fn lemma_spec_records_len<V>(
    step: spec_fn(int) -> Result<(V, int), ErrorView>,
    pos: int,
    k: int,
)
    ensures
        spec_records(step, pos, k) matches Ok((vs, p)) ==> vs.len() == if k <= 0 {
            0int
        } else {
            k
        },
    decreases k,
{
    if k > 0 {
        match step(pos) {
            Ok((v, p)) => {
                lemma_spec_records_len(step, p, k - 1);
            },
            Err(e) => {},
        }
    }
}

/// Splitting a run of `k` records after the first `j` of them: the whole
/// run is the first `j` records followed by the remaining `k - j`, parsed
/// from where the first part stopped; and if the first part already fails,
/// so does the whole run.
pub proof fn lemma_spec_records_split<V>(
    step: spec_fn(int) -> Result<(V, int), ErrorView>,
    pos: int,
    j: int,
    k: int,
)
    requires
        0 <= j <= k,
    ensures
        (match spec_records(step, pos, j) {
            Ok((vs, p)) => spec_records(step, pos, k) == (match spec_records(step, p, k - j) {
                Ok((vs2, p2)) => Ok::<(Seq<V>, int), ErrorView>((vs + vs2, p2)),
                Err(e) => Err::<(Seq<V>, int), ErrorView>(e),
            }),
            Err(e) => spec_records(step, pos, k) == Err::<(Seq<V>, int), ErrorView>(e),
        }),
    decreases j,
{
    if j <= 0 {
        match spec_records(step, pos, k) {
            Ok((vs2, p2)) => {
                assert(Seq::<V>::empty() + vs2 =~= vs2);
            },
            Err(e) => {},
        }
    } else {
        match step(pos) {
            Ok((v, p1)) => {
                lemma_spec_records_split(step, p1, j - 1, k - 1);
                match spec_records(step, p1, j - 1) {
                    Ok((vs1, p)) => {
                        match spec_records(step, p, k - j) {
                            Ok((vs2, p2)) => {
                                assert((seq![v] + vs1) + vs2 =~= seq![v] + (vs1 + vs2));
                            },
                            Err(e) => {},
                        }
                    },
                    Err(e) => {},
                }
            },
            Err(e) => {},
        }
    }
}

/// The record count and start position of the next section: skip `rem`
/// records of the current one, then read the next section's four-byte
/// signed count prefix.
pub open spec fn spec_open_section<V>(
    step: spec_fn(int) -> Result<(V, int), ErrorView>,
    d: Seq<u8>,
    pos: int,
    rem: int,
) -> Result<(i32, int), ErrorView> {
    match spec_records(step, pos, rem) {
        Ok((vs, p)) => spec_i32(d, p),
        Err(e) => Err(e),
    }
}

/// Reading only `j` of the `rem` remaining records of a section and then
/// opening the next section from there lands at the same place — with the
/// same count and the same errors — as opening it with all `rem` records
/// still unread.
pub proof fn lemma_open_section_after_partial_read<V>(
    step: spec_fn(int) -> Result<(V, int), ErrorView>,
    d: Seq<u8>,
    pos: int,
    j: int,
    rem: int,
)
    requires
        0 <= j <= rem,
    ensures
        (match spec_records(step, pos, j) {
            Ok((vs, p)) => spec_open_section(step, d, p, rem - j) == spec_open_section(
                step,
                d,
                pos,
                rem,
            ),
            Err(e) => spec_open_section(step, d, pos, rem) == Err::<(i32, int), ErrorView>(e),
        }),
{
    lemma_spec_records_split(step, pos, j, rem);
}

} // verus!
