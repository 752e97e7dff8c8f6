//! Candidate-address resolution: creating a socket for the first
//! candidate address the operating system accepts.
//!
//! Zero candidates is an input-validation error, distinct from any
//! operating-system error; if at least one candidate was attempted and
//! none succeeded, the last operating-system error observed is returned.

use vstd::prelude::*;
use crate::SocketError;
use crate::addr::{IpAddress, SocketAddress};
use crate::sys::sys_socket;

verus! {

/// What resolution yields from candidate addresses and the per-candidate
/// socket-creation outcomes: the first successful candidate's descriptor
/// and address; with no candidates, the input-validation error; with
/// only failures, the last errno observed.
pub open spec fn resolve_spec(
    addrs: Seq<SocketAddress>,
    outcomes: Seq<Result<i32, i32>>,
) -> Result<(i32, SocketAddress), SocketError>
    decreases addrs.len(),
{
    if addrs.len() == 0 {
        Err(SocketError::InvalidInput)
    } else {
        match outcomes.first() {
            Ok(fd) => Ok((fd, addrs.first())),
            Err(e) => match resolve_spec(addrs.drop_first(), outcomes.drop_first()) {
                Err(SocketError::InvalidInput) => Err(SocketError::Os(e)),
                other => other,
            },
        }
    }
}

/// The decision part of resolution, on the creation outcomes alone:
/// exactly [`resolve_spec`] of its arguments. The outcome at each index
/// answers for the candidate at the same index; entries past the first
/// success are never examined.
pub fn resolve_from_outcomes(
    addrs: &Vec<SocketAddress>,
    outcomes: &Vec<Result<i32, i32>>,
) -> (r: Result<(i32, SocketAddress), SocketError>)
    requires
        addrs@.len() == outcomes@.len(),
    ensures
        r == resolve_spec(addrs@, outcomes@),
{
    proof {
        assert(addrs@.skip(0) =~= addrs@);
        assert(outcomes@.skip(0) =~= outcomes@);
    }
    resolve_from(addrs, outcomes, 0)
}

fn resolve_from(
    addrs: &Vec<SocketAddress>,
    outcomes: &Vec<Result<i32, i32>>,
    i: usize,
) -> (r: Result<(i32, SocketAddress), SocketError>)
    requires
        addrs@.len() == outcomes@.len(),
        i <= addrs@.len(),
    ensures
        r == resolve_spec(addrs@.skip(i as int), outcomes@.skip(i as int)),
    decreases addrs@.len() - i,
{
    if i == addrs.len() {
        assert(addrs@.skip(i as int).len() == 0);
        Err(SocketError::InvalidInput)
    } else {
        proof {
            assert(addrs@.skip(i as int).first() == addrs@[i as int]);
            assert(outcomes@.skip(i as int).first() == outcomes@[i as int]);
            assert(addrs@.skip(i as int).drop_first() =~= addrs@.skip(i as int + 1));
            assert(outcomes@.skip(i as int).drop_first() =~= outcomes@.skip(i as int + 1));
        }
        match outcomes[i] {
            Ok(fd) => Ok((fd, addrs[i])),
            Err(e) => match resolve_from(addrs, outcomes, i + 1) {
                Err(SocketError::InvalidInput) => Err(SocketError::Os(e)),
                other => other,
            },
        }
    }
}

/// Creates a TCP socket for the first candidate address the operating
/// system accepts. With zero candidates this is the input-validation
/// error; once at least one candidate was attempted, a failure carries
/// the last errno observed. Success hands back a non-negative
/// descriptor together with the candidate it was created for.
pub fn socket(addrs: &Vec<SocketAddress>) -> (r: Result<(i32, SocketAddress), SocketError>)
    ensures
        addrs@.len() == 0 ==> r == Err::<(i32, SocketAddress), SocketError>(
            SocketError::InvalidInput,
        ),
        r matches Ok((fd, a)) ==> fd >= 0 && exists|j: int|
            0 <= j < addrs@.len() && addrs@[j] == a,
        r matches Err(e) ==> (e is InvalidInput <==> addrs@.len() == 0),
{
    let mut last_err = SocketError::InvalidInput;
    let mut i: usize = 0;
    while i < addrs.len()
        invariant
            i <= addrs@.len(),
            i == 0 ==> last_err is InvalidInput,
            i > 0 ==> last_err matches SocketError::Os(_),
        decreases addrs@.len() - i,
    {
        let a = addrs[i];
        let ipv6 = match a.ip {
            IpAddress::V4(_) => false,
            IpAddress::V6(_) => true,
        };
        match sys_socket(ipv6) {
            Ok(fd) => {
                assert(addrs@[i as int] == a);
                return Ok((fd, a));
            }
            Err(e) => {
                last_err = SocketError::Os(e);
            }
        }
        i = i + 1;
    }
    Err(last_err)
}

} // verus!

