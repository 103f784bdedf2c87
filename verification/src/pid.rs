//! Process identifiers: the id that the standard library reports for a child, and the
//! `nix` identifier through which the child is signalled and polled.
use vstd::prelude::*;
use nix::unistd::Pid;

verus! {

#[verifier::external_type_specification]
#[verifier::external_body]
pub struct ExPid(Pid);

/// The `nix` identifier that `Pid::from_raw` makes of the raw identifier `raw`.
pub uninterp spec fn nix_pid(raw: i32) -> Pid;

/// Calls `nix::unistd::Pid::from_raw`, which wraps the raw identifier and does nothing else:
/// the same raw identifier always gives the same `Pid`.
#[verifier::external_body]
fn pid_from_raw(raw: nix::libc::pid_t) -> (pid: Pid)
    ensures
        pid == nix_pid(raw),
{
    Pid::from_raw(raw)
}

/// The bits of `id` read as a signed 32-bit number: ids above `i32::MAX` wrap to negative
/// values.
pub open spec fn signed(id: u32) -> int {
    if id <= 0x7fff_ffff {
        id as int
    } else {
        id as int - 0x1_0000_0000
    }
}

/// The raw process identifier that the operating system uses for a child with the id `id`.
pub fn raw_pid(id: u32) -> (pid: nix::libc::pid_t)
    ensures
        pid as int == signed(id),
        pid == id as i32,
        id <= i32::MAX ==> pid as int == id as int,
        id > i32::MAX ==> pid as int == id as int - 0x1_0000_0000,
{
    let pid = id as i32;
    assert(pid as int == if id <= 0x7fff_ffff {
        id as int
    } else {
        id as int - 0x1_0000_0000
    }) by (bit_vector)
        requires
            pid == id as i32,
    ;
    pid
}

/// The raw identifier is the id's bits read as a signed number: it is the one 32-bit signed
/// number that agrees with the id modulo 2^32, so an id that fits in `i32` is kept as it is,
/// and two ids give the same raw identifier only if they are equal.
pub proof fn lemma_signed_is_the_id(id: u32, other: u32)
    ensures
        i32::MIN <= signed(id) <= i32::MAX,
        (signed(id) - id) % 0x1_0000_0000 == 0,
        id <= i32::MAX ==> signed(id) == id as int,
        signed(id) == (id as i32) as int,
        signed(id) == signed(other) ==> id == other,
{
    let r = id as i32;
    assert(r as int == if id <= 0x7fff_ffff {
        id as int
    } else {
        id as int - 0x1_0000_0000
    }) by (bit_vector)
        requires
            r == id as i32,
    ;
    if id > 0x7fff_ffff {
        assert((signed(id) - id) == -0x1_0000_0000int);
    }
}

/// The `nix` identifier of a child with the id `id`.
pub fn pid(id: u32) -> (pid: Pid)
    ensures
        pid == nix_pid(signed(id) as i32),
        pid == nix_pid(id as i32),
        id <= i32::MAX ==> pid == nix_pid(id as int as i32),
{
    pid_from_raw(raw_pid(id))
}

/// The `nix` identifier of a child, if the child still has an id.
pub fn pid_if_any(id: Option<u32>) -> (pid: Option<Pid>)
    ensures
        pid is Some <==> id is Some,
        id matches Some(id) ==> pid == Some(nix_pid(signed(id) as i32)),
        id matches Some(id) ==> pid == Some(nix_pid(id as i32)),
{
    match id {
        Some(id) => Some(pid(id)),
        None => None,
    }
}

} // verus!
