use reth_gnosis::primitives::block::{to_gnosis_block, Block, BlockBody, Withdrawal, Withdrawals};
use reth_gnosis::primitives::Address;

#[derive(Debug, PartialEq)]
struct EthHeader(u64);

#[derive(Debug, PartialEq)]
struct GnosisHeader {
    number: u64,
    aura: bool,
}

fn retype(h: EthHeader) -> GnosisHeader {
    GnosisHeader { number: h.0, aura: false }
}

#[test]
fn headers_are_retyped_and_body_kept() {
    let withdrawal = Withdrawal { index: 1, validator_index: 2, address: Address([3; 20]), amount: 4 };
    let block = Block {
        header: EthHeader(100),
        body: BlockBody {
            transactions: vec!["tx0", "tx1"],
            ommers: vec![EthHeader(98), EthHeader(99)],
            withdrawals: Some(Withdrawals(vec![withdrawal])),
        },
    };
    let gnosis = to_gnosis_block(block, retype);
    assert_eq!(gnosis.header, GnosisHeader { number: 100, aura: false });
    assert_eq!(gnosis.body.transactions, vec!["tx0", "tx1"]);
    assert_eq!(
        gnosis.body.ommers,
        vec![GnosisHeader { number: 98, aura: false }, GnosisHeader { number: 99, aura: false }]
    );
    assert_eq!(gnosis.body.withdrawals.unwrap().0, vec![withdrawal]);
}

#[test]
fn block_without_ommers_or_withdrawals() {
    let block: Block<u8, EthHeader> = Block {
        header: EthHeader(1),
        body: BlockBody { transactions: vec![], ommers: vec![], withdrawals: None },
    };
    let gnosis = to_gnosis_block(block, retype);
    assert_eq!(gnosis.header.number, 1);
    assert!(gnosis.body.ommers.is_empty());
    assert!(gnosis.body.transactions.is_empty());
    assert!(gnosis.body.withdrawals.is_none());
}
