//! Blocks of the Gnosis node: Ethereum blocks whose headers (and ommer
//! headers) are of the Gnosis header type.

use vstd::prelude::*;
use crate::primitives::Address;

verus! {

/// A validator withdrawal (EIP-4895).
#[derive(Clone, Copy, Debug, PartialEq, Eq)]
pub struct Withdrawal {
    pub index: u64,
    pub validator_index: u64,
    pub address: Address,
    pub amount: u64,
}

/// The withdrawals of a block.
#[derive(Debug)]
pub struct Withdrawals(pub Vec<Withdrawal>);

/// The body of a block: its transactions, its ommer headers and, from
/// Shanghai on, its withdrawals.
#[derive(Debug)]
pub struct BlockBody<T, H> {
    pub transactions: Vec<T>,
    pub ommers: Vec<H>,
    pub withdrawals: Option<Withdrawals>,
}

/// A block: a header and a body.
#[derive(Debug)]
pub struct Block<T, H> {
    pub header: H,
    pub body: BlockBody<T, H>,
}

/// Re-types a block's headers: the header and every ommer header go through
/// `header_from` (the conversion into the Gnosis header type), in order; the
/// transactions and withdrawals are kept as they are.
pub fn to_gnosis_block<T, H, G, F: Fn(H) -> G>(block: Block<T, H>, header_from: F) -> (r: Block<T, G>)
    requires
        forall|h: H| header_from.requires((h,)),
    ensures
        header_from.ensures((block.header,), r.header),
        r.body.transactions@ == block.body.transactions@,
        r.body.withdrawals == block.body.withdrawals,
        r.body.ommers@.len() == block.body.ommers@.len(),
        forall|i: int|
            0 <= i < block.body.ommers@.len() ==> header_from.ensures(
                (block.body.ommers@[i],),
                #[trigger] r.body.ommers@[i],
            ),
{
    let Block { header, body } = block;
    let BlockBody { transactions, ommers, withdrawals } = body;
    let ghost all = ommers@;
    let n = ommers.len();
    let mut rest = ommers;
    let mut converted: Vec<G> = Vec::new();
    let mut k: usize = 0;
    while rest.len() > 0
        invariant
            forall|h: H| header_from.requires((h,)),
            k <= all.len(),
            all.len() == n,
            rest@ == all.skip(k as int),
            converted@.len() == k,
            forall|i: int| 0 <= i < k ==> header_from.ensures((all[i],), #[trigger] converted@[i]),
        decreases rest.len(),
    {
        let h = rest.remove(0);
        proof {
            assert(h == all[k as int]);
        }
        let g = header_from(h);
        converted.push(g);
        k = k + 1;
        proof {
            assert(rest@ =~= all.skip(k as int));
        }
    }
    let gnosis_header = header_from(header);
    Block {
        header: gnosis_header,
        body: BlockBody { transactions, ommers: converted, withdrawals },
    }
}

} // verus!
