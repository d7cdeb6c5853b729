use token22_swap::gateway::{
    transfer_tokens_from_pool, transfer_tokens_to_pool, Authority, PoolSigner, TransferRequest,
};
use token22_swap::identity::Identity;

fn id(n: u8) -> Identity {
    Identity { bytes: [n; 32] }
}

#[test]
fn movement_into_the_pool_is_signed_by_the_user() {
    assert_eq!(
        transfer_tokens_to_pool(id(1), id(2), id(3), id(4), 500),
        TransferRequest {
            from: id(1),
            to: id(2),
            authority: Authority::User(id(3)),
            asset: id(4),
            amount: 500,
        }
    );
}

#[test]
fn movement_out_of_the_pool_is_signed_by_the_pool() {
    let signer = PoolSigner { mint_a: id(8), mint_b: id(9), bump: 17 };
    assert_eq!(
        transfer_tokens_from_pool(id(1), id(2), id(4), 0, signer),
        TransferRequest {
            from: id(1),
            to: id(2),
            authority: Authority::Pool(signer),
            asset: id(4),
            amount: 0,
        }
    );
}

#[test]
fn seeds_are_the_tag_the_pair_and_the_bump() {
    let mut first = [0u8; 32];
    for (i, byte) in first.iter_mut().enumerate() {
        *byte = i as u8;
    }
    let signer = PoolSigner { mint_a: Identity::new(first), mint_b: id(9), bump: 17 };
    let seeds = signer.seeds();
    assert_eq!(seeds.len(), 4);
    assert_eq!(seeds[0], vec![112, 111, 111, 108]);
    assert_eq!(seeds[0], b"pool".to_vec());
    assert_eq!(seeds[1], first.to_vec());
    assert_eq!(seeds[2], vec![9u8; 32]);
    assert_eq!(seeds[3], vec![17]);
}
