use dex::{
    initialize, Action, Address, DexError, InitState, Initialize, MintInfo, Pool, TransferChannel,
    TransferRequest,
};

const SIGNER: u8 = 1;
const AUTHORITY: u8 = 3;
const VAULT_TOKEN: u8 = 4;
const VAULT_WSOL: u8 = 5;
const USER_TOKEN: u8 = 6;
const USER_WSOL: u8 = 7;
const MINT_TOKEN: u8 = 8;
const MINT_WSOL: u8 = 9;

fn address(tag: u8) -> Address {
    Address::new([tag; 32])
}

fn blank() -> Pool {
    Pool {
        admin: address(0),
        mint_token: address(0),
        mint_wsol: address(0),
        vault_token: address(0),
        vault_wsol: address(0),
        vault_bump: 0,
        decimals: 0,
        reserve_token: 0,
        reserve_wsol: 0,
    }
}

fn classic() -> Address {
    TransferChannel::Classic.program_id()
}

fn token_2022() -> Address {
    TransferChannel::Token2022.program_id()
}

fn setting_up(token: (Address, u8), wsol: (Address, u8)) -> Initialize {
    Initialize {
        signer: address(SIGNER),
        pool: blank(),
        vault_authority: address(AUTHORITY),
        vault_bump: 251,
        vault_token: address(VAULT_TOKEN),
        vault_wsol: address(VAULT_WSOL),
        user_token: address(USER_TOKEN),
        user_wsol: address(USER_WSOL),
        mint_token: MintInfo { key: address(MINT_TOKEN), owner: token.0, decimals: token.1 },
        mint_wsol: MintInfo { key: address(MINT_WSOL), owner: wsol.0, decimals: wsol.1 },
    }
}

/// Steps the setting up through as a host does, with every transfer going
/// well.
fn run(
    ctx: &mut Initialize,
    amount_token: u64,
    amount_wsol: u64,
) -> Result<Vec<TransferRequest>, DexError> {
    let mut transfers = Vec::new();
    let mut state = InitState::Start;
    for _ in 0..16 {
        let (next, action) = initialize(ctx, state, amount_token, amount_wsol)?;
        state = next;
        match action {
            Action::Transfer(request) => transfers.push(request),
            Action::Proceed => {}
            Action::Finish => {
                assert_eq!(state, InitState::Recorded);
                return Ok(transfers);
            }
        }
    }
    panic!("the setting up did not come to an end");
}

#[test]
fn a_pool_is_set_up_with_its_seeds_as_reserves() {
    let mut ctx = setting_up((token_2022(), 9), (classic(), 9));
    let transfers = run(&mut ctx, 1000, 1000).unwrap();
    assert_eq!(
        ctx.pool,
        Pool {
            admin: address(SIGNER),
            mint_token: address(MINT_TOKEN),
            mint_wsol: address(MINT_WSOL),
            vault_token: address(VAULT_TOKEN),
            vault_wsol: address(VAULT_WSOL),
            vault_bump: 251,
            decimals: 9,
            reserve_token: 1000,
            reserve_wsol: 1000,
        }
    );
    assert_eq!(
        transfers,
        vec![
            TransferRequest {
                channel: TransferChannel::Token2022,
                from: address(USER_TOKEN),
                to: address(VAULT_TOKEN),
                mint: address(MINT_TOKEN),
                authority: address(SIGNER),
                signer_seeds: None,
                amount: 1000,
                decimals: 9,
            },
            TransferRequest {
                channel: TransferChannel::Classic,
                from: address(USER_WSOL),
                to: address(VAULT_WSOL),
                mint: address(MINT_WSOL),
                authority: address(SIGNER),
                signer_seeds: None,
                amount: 1000,
                decimals: 9,
            },
        ]
    );
}

#[test]
fn the_seeds_may_differ_and_may_be_nothing() {
    let mut ctx = setting_up((token_2022(), 6), (classic(), 6));
    let transfers = run(&mut ctx, 0, u64::MAX).unwrap();
    assert_eq!(ctx.pool.reserve_token, 0);
    assert_eq!(ctx.pool.reserve_wsol, u64::MAX);
    assert_eq!(ctx.pool.decimals, 6);
    assert_eq!(transfers[0].amount, 0);
    assert_eq!(transfers[1].amount, u64::MAX);
}

#[test]
fn setting_up_goes_through_its_states_in_order() {
    let mut ctx = setting_up((token_2022(), 9), (classic(), 9));
    let before = ctx;

    let (state, action) = initialize(&mut ctx, InitState::Start, 5, 7).unwrap();
    assert_eq!(state, InitState::Checked);
    assert_eq!(action, Action::Proceed);
    assert_eq!(ctx, before);

    let (state, action) = initialize(&mut ctx, state, 5, 7).unwrap();
    assert_eq!(state, InitState::TokenSeeded);
    assert!(matches!(action, Action::Transfer(request) if request.amount == 5));
    assert_eq!(ctx, before);

    let (state, action) = initialize(&mut ctx, state, 5, 7).unwrap();
    assert_eq!(state, InitState::WsolSeeded);
    assert!(matches!(action, Action::Transfer(request) if request.amount == 7));
    assert_eq!(ctx, before);

    let (state, action) = initialize(&mut ctx, state, 5, 7).unwrap();
    assert_eq!(state, InitState::Recorded);
    assert_eq!(action, Action::Finish);
    assert_eq!(ctx.pool.reserve_token, 5);
    assert_eq!(ctx.pool.reserve_wsol, 7);
    let recorded = ctx;

    let (state, action) = initialize(&mut ctx, state, 5, 7).unwrap();
    assert_eq!(state, InitState::Recorded);
    assert_eq!(action, Action::Finish);
    assert_eq!(ctx, recorded);
}

#[test]
fn swapped_mints_are_refused() {
    let mut ctx = setting_up((classic(), 9), (token_2022(), 9));
    assert_eq!(run(&mut ctx, 1000, 1000), Err(DexError::WrongProgramToken));
    assert_eq!(ctx.pool, blank());
}

#[test]
fn a_token_mint_under_the_wrong_program_is_refused() {
    let mut ctx = setting_up((classic(), 9), (classic(), 9));
    assert_eq!(run(&mut ctx, 1000, 1000), Err(DexError::WrongProgramToken));
    let mut ctx = setting_up((address(42), 9), (classic(), 9));
    assert_eq!(run(&mut ctx, 1000, 1000), Err(DexError::WrongProgramToken));
    assert_eq!(ctx.pool, blank());
}

#[test]
fn a_wsol_mint_under_the_wrong_program_is_refused() {
    let mut ctx = setting_up((token_2022(), 9), (token_2022(), 9));
    assert_eq!(run(&mut ctx, 1000, 1000), Err(DexError::WrongProgramWsol));
    let mut ctx = setting_up((token_2022(), 9), (address(42), 9));
    assert_eq!(run(&mut ctx, 1000, 1000), Err(DexError::WrongProgramWsol));
    assert_eq!(ctx.pool, blank());
}

#[test]
fn unequal_decimals_are_refused() {
    let mut ctx = setting_up((token_2022(), 6), (classic(), 9));
    assert_eq!(run(&mut ctx, 1000, 1000), Err(DexError::DecimalsMismatch));
    assert_eq!(ctx.pool, blank());
}

#[test]
fn the_programs_are_looked_at_before_the_decimals() {
    let mut ctx = setting_up((classic(), 6), (token_2022(), 9));
    assert_eq!(run(&mut ctx, 1, 1), Err(DexError::WrongProgramToken));
    let mut ctx = setting_up((token_2022(), 6), (token_2022(), 9));
    assert_eq!(run(&mut ctx, 1, 1), Err(DexError::WrongProgramWsol));
}

#[test]
fn nothing_is_asked_of_the_host_before_the_mints_are_in_order() {
    let mut ctx = setting_up((token_2022(), 6), (classic(), 9));
    assert_eq!(
        initialize(&mut ctx, InitState::Start, 1000, 1000),
        Err(DexError::DecimalsMismatch)
    );
}
