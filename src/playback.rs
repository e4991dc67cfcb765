//! The playback side of the voice stream: what the output device is handed on
//! each callback.
use vstd::prelude::*;

use crate::packet::Sample;

verus! {

/// Sample `i` of an output buffer after a callback that took `incoming` from
/// the delivery queue (`None`: the queue was empty).
pub open spec fn played_at(incoming: Option<Seq<Sample>>, i: int) -> Sample {
    match incoming {
        Some(f) => if i < f.len() {
            f[i]
        } else {
            Sample { b0: 0, b1: 0, b2: 0, b3: 0 }
        },
        None => Sample { b0: 0, b1: 0, b2: 0, b3: 0 },
    }
}

/// Fills an output buffer from at most one delivered frame: its first samples
/// as far as they fit, silence after them; all silence when nothing was
/// delivered. The buffer keeps its length and excess samples are dropped.
pub fn fill_output(out: &mut Vec<Sample>, incoming: Option<&Vec<Sample>>)
    ensures
        final(out)@.len() == old(out)@.len(),
        forall|i: int|
            0 <= i < final(out)@.len() ==> #[trigger] final(out)@[i] == played_at(
                match incoming {
                    Some(f) => Some(f@),
                    None => None,
                },
                i,
            ),
        incoming is None ==> forall|i: int| 0 <= i < final(out)@.len() ==> (#[trigger] final(out)@[i]).is_silence(),
{
    let ghost inc = match incoming {
        Some(f) => Some(f@),
        None => None,
    };
    let n = out.len();
    let avail: usize = match incoming {
        Some(f) => if f.len() < n {
            f.len()
        } else {
            n
        },
        None => 0,
    };
    let mut i: usize = 0;
    while i < n
        invariant
            n == out@.len(),
            n == old(out)@.len(),
            avail <= n,
            incoming is None ==> avail == 0,
            incoming is Some ==> avail as int == if incoming.unwrap()@.len() < n {
                incoming.unwrap()@.len() as int
            } else {
                n as int
            },
            inc == match incoming {
                Some(f) => Some(f@),
                None => None,
            },
            i <= n,
            forall|k: int| 0 <= k < i ==> #[trigger] out@[k] == played_at(inc, k),
        decreases n - i,
    {
        let v = if i < avail {
            match incoming {
                Some(f) => f[i],
                None => Sample::silence(),
            }
        } else {
            Sample::silence()
        };
        out.set(i, v);
        i = i + 1;
    }
}

} // verus!
