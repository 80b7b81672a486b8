use clock_sync::peer::{peer_id, peer_id_from_bytes};
use solana_pubkey::Pubkey;

#[test]
fn identity_is_the_two_big_endian_halves() {
    let mut bytes = [0u8; 32];
    bytes[0] = 1;
    bytes[14] = 2;
    bytes[15] = 3;
    bytes[31] = 4;
    let expected = (0x0100_0000_0000_0000_0000_0000_0000_0203u128, 4u128);
    assert_eq!(peer_id_from_bytes(&bytes), expected);
    assert_eq!(peer_id(&Pubkey::new_from_array(bytes)), expected);
    assert_eq!(peer_id_from_bytes(&[255; 32]), (u128::MAX, u128::MAX));
}

#[test]
fn keys_are_told_apart_by_any_byte() {
    let base = Pubkey::new_from_array([7; 32]);
    for i in 0..32 {
        let mut bytes = [7u8; 32];
        bytes[i] = 8;
        let other = Pubkey::new_from_array(bytes);
        assert_ne!(peer_id(&base), peer_id(&other));
    }
    assert_eq!(peer_id(&base), peer_id(&Pubkey::new_from_array([7; 32])));
}
