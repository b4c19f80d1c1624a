use dex::{xfer_checked, Address, AuthoritySeeds, Pool, TransferChannel};

const CLASSIC: [u8; 32] = [
    6, 221, 246, 225, 215, 101, 161, 147, 217, 203, 225, 70, 206, 235, 121, 172, 28, 180, 133,
    237, 95, 91, 55, 145, 58, 140, 245, 133, 126, 255, 0, 169,
];

const TOKEN_2022: [u8; 32] = [
    6, 221, 246, 225, 238, 117, 143, 222, 24, 66, 93, 188, 228, 108, 205, 218, 182, 26, 252, 77,
    131, 185, 13, 39, 254, 189, 249, 40, 216, 161, 139, 252,
];

fn address(tag: u8) -> Address {
    Address::new([tag; 32])
}

#[test]
fn the_channels_name_the_two_token_programs() {
    assert_eq!(TransferChannel::Classic.program_id().to_bytes(), CLASSIC);
    assert_eq!(TransferChannel::Token2022.program_id().to_bytes(), TOKEN_2022);
    assert_eq!(
        TransferChannel::Classic.program_id().to_bytes(),
        anchor_spl::token::ID.to_bytes()
    );
    assert_eq!(
        TransferChannel::Token2022.program_id().to_bytes(),
        anchor_spl::token_2022::ID.to_bytes()
    );
    assert_eq!(
        anchor_spl::token::ID.to_string(),
        "TokenkegQfeZyiNwAJbNbGKPFXCWuBvf9Ss623VQ5DA"
    );
    assert_eq!(
        anchor_spl::token_2022::ID.to_string(),
        "TokenzQdBNbLqP5VEhdkAS6EPFLC1PHnBqCXEpPxuEb"
    );
}

#[test]
fn an_owner_is_told_apart_by_its_program() {
    assert_eq!(
        TransferChannel::of_owner(&Address::new(CLASSIC)),
        Some(TransferChannel::Classic)
    );
    assert_eq!(
        TransferChannel::of_owner(&Address::new(TOKEN_2022)),
        Some(TransferChannel::Token2022)
    );
    assert_eq!(TransferChannel::of_owner(&address(0)), None);
    let mut nearly = CLASSIC;
    nearly[31] = 170;
    assert_eq!(TransferChannel::of_owner(&Address::new(nearly)), None);
}

#[test]
fn addresses_compare_by_their_bytes() {
    assert_eq!(address(7), address(7));
    assert_ne!(address(7), address(8));
    let mut bytes = [7u8; 32];
    bytes[31] = 8;
    assert_ne!(address(7), Address::new(bytes));
    bytes[31] = 7;
    assert_eq!(address(7), Address::new(bytes));
    assert_eq!(Address::new(bytes).to_bytes(), bytes);
}

#[test]
fn the_authority_is_derived_from_label_pool_and_bump() {
    let mut key = [0u8; 32];
    for (i, byte) in key.iter_mut().enumerate() {
        *byte = i as u8;
    }
    let seeds = AuthoritySeeds { pool: Address::new(key), bump: 254 };
    let parts = seeds.to_parts();
    assert_eq!(parts.len(), 3);
    assert_eq!(parts[0], b"vault".to_vec());
    assert_eq!(parts[1], key.to_vec());
    assert_eq!(parts[2], vec![254u8]);
}

#[test]
fn a_request_holds_what_it_was_made_of() {
    let seeds = AuthoritySeeds { pool: address(9), bump: 3 };
    let request = xfer_checked(
        TransferChannel::Token2022,
        &address(1),
        &address(2),
        &address(3),
        &address(4),
        Some(seeds),
        77,
        6,
    );
    assert_eq!(request.channel, TransferChannel::Token2022);
    assert_eq!(request.from, address(1));
    assert_eq!(request.to, address(2));
    assert_eq!(request.mint, address(3));
    assert_eq!(request.authority, address(4));
    assert_eq!(request.signer_seeds, Some(seeds));
    assert_eq!(request.amount, 77);
    assert_eq!(request.decimals, 6);

    let direct = xfer_checked(
        TransferChannel::Classic,
        &address(1),
        &address(2),
        &address(3),
        &address(4),
        None,
        0,
        9,
    );
    assert_eq!(direct.channel, TransferChannel::Classic);
    assert_eq!(direct.signer_seeds, None);
    assert_eq!(direct.amount, 0);
}

#[test]
fn the_record_takes_178_bytes() {
    assert_eq!(Pool::LEN, 178);
}
