//! Session framing for one tick's transmission: a start sentinel, every
//! panel's packet body in bus order, then an end sentinel.

use vstd::prelude::*;

verus! {

/// First byte of every session.
pub const SESSION_START: u8 = 255;

/// Last byte of every session.
pub const SESSION_END: u8 = 254;

/// The first `k` panel bodies, concatenated in order with nothing between.
pub open spec fn concat_bodies(bodies: Seq<Vec<u8>>, k: int) -> Seq<u8>
    decreases k,
{
    if k <= 0 {
        Seq::empty()
    } else {
        concat_bodies(bodies, k - 1) + bodies[k - 1]@
    }
}

/// The bodies of the first `k` panels that produced a packet this tick,
/// concatenated in panel order; panels without a packet contribute nothing.
pub open spec fn present_bodies(packets: Seq<Option<Vec<u8>>>, k: int) -> Seq<u8>
    decreases k,
{
    if k <= 0 {
        Seq::empty()
    } else {
        present_bodies(packets, k - 1) + match packets[k - 1] {
            Some(b) => b@,
            None => Seq::empty(),
        }
    }
}

/// Frames one tick's transmission: the start sentinel, each panel body in
/// order with no framing between bodies, then the end sentinel.
pub fn encode_session(bodies: &Vec<Vec<u8>>) -> (out: Vec<u8>)
    ensures
        out@ == seq![SESSION_START] + concat_bodies(bodies@, bodies@.len() as int)
            + seq![SESSION_END],
{
    let mut out: Vec<u8> = Vec::new();
    out.push(SESSION_START);
    let mut i: usize = 0;
    while i < bodies.len()
        invariant
            i <= bodies@.len(),
            out@ == seq![SESSION_START] + concat_bodies(bodies@, i as int),
        decreases bodies@.len() - i,
    {
        let body = &bodies[i];
        let mut j: usize = 0;
        while j < body.len()
            invariant
                i < bodies@.len(),
                j <= body@.len(),
                body == &bodies@[i as int],
                out@ == seq![SESSION_START] + concat_bodies(bodies@, i as int)
                    + body@.subrange(0, j as int),
            decreases body@.len() - j,
        {
            out.push(body[j]);
            j = j + 1;
            proof {
                assert(body@.subrange(0, j as int)
                    =~= body@.subrange(0, j - 1) + seq![body@[j - 1]]);
            }
        }
        proof {
            assert(body@.subrange(0, body@.len() as int) =~= body@);
        }
        i = i + 1;
    }
    out.push(SESSION_END);
    out
}

/// Frames one tick's transmission when some panels had no frame to send:
/// those panels are skipped, the rest appear in panel order between the
/// two sentinels.
pub fn encode_session_available(packets: &Vec<Option<Vec<u8>>>) -> (out: Vec<u8>)
    ensures
        out@ == seq![SESSION_START] + present_bodies(packets@, packets@.len() as int)
            + seq![SESSION_END],
{
    let mut out: Vec<u8> = Vec::new();
    out.push(SESSION_START);
    let mut i: usize = 0;
    while i < packets.len()
        invariant
            i <= packets@.len(),
            out@ == seq![SESSION_START] + present_bodies(packets@, i as int),
        decreases packets@.len() - i,
    {
        match &packets[i] {
            Some(body) => {
                let mut j: usize = 0;
                while j < body.len()
                    invariant
                        i < packets@.len(),
                        j <= body@.len(),
                        packets@[i as int] matches Some(b) && body == &b,
                        out@ == seq![SESSION_START] + present_bodies(packets@, i as int)
                            + body@.subrange(0, j as int),
                    decreases body@.len() - j,
                {
                    out.push(body[j]);
                    j = j + 1;
                    proof {
                        assert(body@.subrange(0, j as int)
                            =~= body@.subrange(0, j - 1) + seq![body@[j - 1]]);
                    }
                }
                proof {
                    assert(body@.subrange(0, body@.len() as int) =~= body@);
                }
            },
            None => {
                proof {
                    assert(present_bodies(packets@, i + 1)
                        =~= present_bodies(packets@, i as int));
                }
            },
        }
        i = i + 1;
    }
    out.push(SESSION_END);
    out
}

} // verus!
