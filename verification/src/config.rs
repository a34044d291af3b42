//! Startup configuration: the ephemeral port draw and the command-line
//! argument rule.

use vstd::prelude::*;
use rand::Rng;

verus! {

/// Relies on rand::Rng::gen_range on the thread-local generator: a draw
/// from a half-open range lies in that range, here [1024, 65535).
#[verifier::external_body]
fn random_port() -> (p: u16)
    ensures
        1024 <= p < 65535,
{
    rand::thread_rng().gen_range(1024..65535)
}

/// Draws the port to bind: an ephemeral port in [1024, 65535), chosen
/// once at startup.
pub fn pick_ephemeral_port() -> (p: u16)
    ensures
        1024 <= p < 65535,
{
    random_port()
}

/// Whether the command line is acceptable: exactly the program name and
/// one positional argument, the path of the file to serve.
pub fn args_are_valid(arg_count: usize) -> (r: bool)
    ensures
        r == (arg_count == 2),
{
    arg_count == 2
}

} // verus!
