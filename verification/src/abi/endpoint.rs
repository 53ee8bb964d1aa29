//! Endpoints: a generation and a process number packed into one `i32`.
use vstd::prelude::*;

verus! {

/// A process-table slot; kernel tasks are negative.
pub type ProcNr = i32;

/// A packed `(generation, process number)` pair.
pub type Endpoint = i32;

/// Bits the process number occupies.
pub const ENDPOINT_GEN_SHIFT: i32 = 15;

/// Mask of the process-number field.
pub const ENDPOINT_PROC_MASK: i32 = 0x7fff;

/// Largest generation that keeps an endpoint non-negative.
pub const ENDPOINT_MAX_GENERATION: i32 = 0xffff;

/// Largest process number the field can carry.
pub const ENDPOINT_SLOT_TOP: ProcNr = 16383;

/// Wildcard source of a receive.
pub const ANY: Endpoint = 16382;

/// The absent endpoint.
pub const NONE: Endpoint = 0;

/// The caller itself.
pub const SELF: Endpoint = 16380;

/// Distinct endpoints at generation zero exist for `-16384..=16383`.
pub open spec fn proc_in_range(p: int) -> bool {
    -16384 <= p <= 16383
}

/// The packed form of generation `g` and process number `p`: the process number
/// is kept modulo `2^15`.
pub open spec fn endpoint_spec(g: int, p: int) -> int {
    g * 0x8000 + (p % 0x8000)
}

/// The process number an endpoint names: its low 15 bits, sign-extended.
pub open spec fn proc_spec(e: int) -> int {
    let low = e % 0x8000;
    if low >= 0x4000 {
        low - 0x8000
    } else {
        low
    }
}

/// Pack generation `g` and process number `p`.
pub fn make_endpoint(g: i32, p: ProcNr) -> (e: Endpoint)
    requires
        0 <= g <= ENDPOINT_MAX_GENERATION,
    ensures
        e == endpoint_spec(g as int, p as int),
{
    let low: i32 = p & 0x7fff;
    assert(0 <= low < 0x8000 && low == p % 0x8000) by (bit_vector)
        requires
            low == p & 0x7fff,
    ;
    g * 0x8000 + low
}

/// The process number `e` names.
pub fn endpoint_proc(e: Endpoint) -> (p: ProcNr)
    ensures
        p == proc_spec(e as int),
        proc_in_range(p as int),
{
    let low: i32 = e & 0x7fff;
    assert(0 <= low < 0x8000 && low == e % 0x8000) by (bit_vector)
        requires
            low == e & 0x7fff,
    ;
    if low >= 0x4000 {
        low - 0x8000
    } else {
        low
    }
}

/// The generation `e` carries.
pub fn endpoint_gen(e: Endpoint) -> (g: i32)
    ensures
        g == (e as int) / 0x8000,
{
    let g: i32 = e >> 15;
    assert(g == e / 0x8000) by (bit_vector)
        requires
            g == e >> 15,
    ;
    g
}

/// Packing loses nothing: the process number and the generation both come back.
pub proof fn law_endpoint_round_trip(g: int, p: int)
    requires
        0 <= g <= ENDPOINT_MAX_GENERATION,
        proc_in_range(p),
    ensures
        proc_spec(endpoint_spec(g, p)) == p,
        endpoint_spec(g, p) / 0x8000 == g,
        0 <= endpoint_spec(g, p) <= i32::MAX,
{
}

/// Any number is taken apart into its two fields: the process number, which is what is
/// left of it modulo the field's width and lies around zero, and the generation above.
pub proof fn law_endpoint_is_its_two_fields(e: int)
    ensures
        -0x4000 <= proc_spec(e) < 0x4000,
        (e - proc_spec(e)) % 0x8000 == 0,
        endpoint_spec(e / 0x8000, proc_spec(e)) == e,
{
}

/// Process numbers do not depend on the generation: a slot that is used again has the
/// same number, under another endpoint.
pub proof fn law_generations_share_a_slot(g: int, h: int, p: int)
    requires
        proc_in_range(p),
    ensures
        proc_spec(endpoint_spec(g, p)) == proc_spec(endpoint_spec(h, p)),
        g != h ==> endpoint_spec(g, p) != endpoint_spec(h, p),
{
}

} // verus!
