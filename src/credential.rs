use vstd::prelude::*;

verus! {

/// Relies on zeroize's `Zeroize` impl for `Vec<u8>`: the bytes, spare
/// capacity included, are overwritten with zeros and the vector is cleared.
#[verifier::external_body]
fn wipe(buf: &mut Vec<u8>)
    ensures
        final(buf)@.len() == 0,
{
    zeroize::Zeroize::zeroize(buf)
}

/// Whether the hash computed from a candidate secret, salted by the stored
/// credential, is byte for byte the stored credential. `None` stands for a
/// failure of the hash primitive, which denies. Both buffers are wiped
/// before returning, whatever the outcome.
pub fn verify_secret(computed: Option<Vec<u8>>, stored: Vec<u8>) -> (r: bool)
    ensures
        r == match computed {
            Some(c) => c@ == stored@,
            None => false,
        },
{
    let mut stored = stored;
    match computed {
        None => {
            wipe(&mut stored);
            false
        },
        Some(c) => {
            let mut c = c;
            let mut same = c.len() == stored.len();
            if same {
                let mut i: usize = 0;
                while i < c.len()
                    invariant
                        c.len() == stored.len(),
                        i <= c.len(),
                        same == forall|j: int| 0 <= j < i ==> c@[j] == stored@[j],
                    decreases c.len() - i,
                {
                    if c[i] != stored[i] {
                        same = false;
                    }
                    i = i + 1;
                }
                proof {
                    if same {
                        assert(c@ =~= stored@);
                    }
                }
            }
            wipe(&mut c);
            wipe(&mut stored);
            same
        },
    }
}

} // verus!
