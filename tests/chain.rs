use minichain::chain::{Block, BlockChain};
use minichain::tx::Transaction;

#[test]
fn get_block_by_height() {
    let mut chain = BlockChain::new();
    assert!(chain.get_block(0).is_none());
    chain.add_block(Block::new(String::from("aa"), 0));
    chain.add_block(Block::new(String::from("bb"), 1));
    chain.add_block(Block::new(String::from("cc"), 2));
    assert_eq!(chain.get_block(0).unwrap().hash, "aa");
    assert_eq!(chain.get_block(1).unwrap().id, 1);
    assert_eq!(chain.get_block(2).unwrap().hash, "cc");
    assert!(chain.get_block(3).is_none());
    assert!(chain.get_block(usize::MAX).is_none());
}

#[test]
fn get_block_by_hash_first_match() {
    let mut chain = BlockChain::new();
    assert!(chain.get_block_by_hash("aa").is_none());
    chain.add_block(Block::new(String::from("aa"), 10));
    chain.add_block(Block::new(String::from("bb"), 11));
    chain.add_block(Block::new(String::from("bb"), 12));
    assert_eq!(chain.get_block_by_hash("bb").unwrap().id, 11);
    assert_eq!(chain.get_block_by_hash("aa").unwrap().id, 10);
    assert!(chain.get_block_by_hash("cc").is_none());
    assert!(chain.get_block_by_hash("").is_none());
}

#[test]
fn block_holds_appended_transactions() {
    let mut block = Block::new(String::from("h"), 3);
    assert_eq!(block.transactions.len(), 0);
    block.add_transaction(Transaction::new(vec![], vec![], String::from("t1"), 0));
    block.add_transaction(Transaction::new(vec![], vec![], String::from("t2"), 0));
    assert_eq!(block.transactions.len(), 2);
    assert_eq!(block.transactions[1].txid, "t2");
    assert_eq!(block.hash, "h");
    assert_eq!(block.id, 3);
}
