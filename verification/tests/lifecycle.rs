use poll_market::{
    add_liquidity, cancel_poll, create_poll, get_price, resolve_poll, vote, AddLiquidity,
    AmmError, CancelPoll, CreatePoll, Poll, PollCanceledEvent, PollCreatedEvent,
    PollResolvedEvent, PollStatus, Pubkey, ResolvePoll, TokenAccount, TransferRequest, Vote,
    VoteOnPoll, VoteReceipt,
};

fn key(n: u8) -> Pubkey {
    Pubkey { bytes: [n; 32] }
}

const CREATOR: u8 = 10;
const ADMIN: u8 = 11;
const USER: u8 = 20;
const STRANGER: u8 = 66;
const POLL: u8 = 30;
const MINT: u8 = 40;
const OTHER_MINT: u8 = 41;
const NFT1: u8 = 1;
const NFT2: u8 = 2;

fn new_poll(a: u64, b: u64) -> Poll {
    let ctx = CreatePoll { poll: key(POLL), authority: key(CREATOR), token_mint: key(MINT) };
    let title = vec![b'r', b'a', b'i', b'n'];
    match create_poll(&ctx, title, 1_000, key(NFT1), key(NFT2), a, b) {
        Ok((poll, _)) => poll,
        Err(e) => panic!("create_poll failed: {:?}", e),
    }
}

fn account(at: u8, mint: u8, owner: u8) -> TokenAccount {
    TokenAccount { key: key(at), mint: key(mint), owner: key(owner) }
}

fn vote_ctx() -> VoteOnPoll {
    VoteOnPoll {
        poll: key(POLL),
        user: key(USER),
        user_token_account: account(50, MINT, USER),
        pool_vault: account(51, MINT, POLL),
        fee_vault: account(52, MINT, CREATOR),
    }
}

fn resolve_ctx(caller: u8, admin: u8) -> ResolvePoll {
    ResolvePoll { poll: key(POLL), authority: key(caller), admin: key(admin) }
}

fn cancel_ctx(caller: u8, admin: u8) -> CancelPoll {
    CancelPoll { poll: key(POLL), authority: key(caller), admin: key(admin) }
}

fn liquidity_ctx() -> AddLiquidity {
    AddLiquidity {
        user: key(USER),
        user_token_account1: account(53, MINT, USER),
        user_token_account2: account(54, MINT, USER),
        pool_vault1: account(55, MINT, POLL),
        pool_vault2: account(56, MINT, POLL),
    }
}

#[test]
fn create_poll_fills_the_record() {
    let ctx = CreatePoll { poll: key(POLL), authority: key(CREATOR), token_mint: key(MINT) };
    let title = vec![b'r', b'a', b'i', b'n'];
    let (poll, event) = create_poll(&ctx, title, 1_000, key(NFT1), key(NFT2), 1000, 2000).unwrap();
    assert_eq!(poll, Poll {
        authority: key(CREATOR),
        title: vec![b'r', b'a', b'i', b'n'],
        closes_at: 1_000,
        nft1: key(NFT1),
        nft2: key(NFT2),
        nft1_shares: 1000,
        nft2_shares: 2000,
        k: 2_000_000,
        status: PollStatus::Active,
        winning_nft: None,
        token_mint: key(MINT),
    });
    assert_eq!(event, PollCreatedEvent {
        poll: key(POLL),
        authority: key(CREATOR),
        nft1: key(NFT1),
        nft2: key(NFT2),
        closes_at: 1_000,
    });
}

#[test]
fn create_poll_then_price_is_one_half() {
    let poll = new_poll(500, 500);
    assert_eq!(poll.k, 250_000);
    assert_eq!(get_price(poll.nft1_shares, poll.nft2_shares, 1), 5000);
    assert_eq!(get_price(poll.nft1_shares, poll.nft2_shares, 2), 5000);
}

#[test]
fn create_poll_takes_a_title_of_64_bytes_and_no_more() {
    let ctx = CreatePoll { poll: key(POLL), authority: key(CREATOR), token_mint: key(MINT) };
    let fits = create_poll(&ctx, vec![b'x'; 64], 0, key(NFT1), key(NFT2), 1, 1);
    assert_eq!(fits.map(|(poll, _)| poll.title.len()), Ok(64));
    let empty = create_poll(&ctx, vec![], 0, key(NFT1), key(NFT2), 1, 1);
    assert!(empty.is_ok());
    let long = create_poll(&ctx, vec![b'x'; 65], 0, key(NFT1), key(NFT2), 1, 1);
    assert_eq!(long, Err(AmmError::TitleTooLong));
}

#[test]
fn create_poll_wants_two_positive_reserves() {
    let ctx = CreatePoll { poll: key(POLL), authority: key(CREATOR), token_mint: key(MINT) };
    assert_eq!(
        create_poll(&ctx, vec![], 0, key(NFT1), key(NFT2), 0, 5),
        Err(AmmError::InvalidShares)
    );
    assert_eq!(
        create_poll(&ctx, vec![], 0, key(NFT1), key(NFT2), 5, 0),
        Err(AmmError::InvalidShares)
    );
    assert_eq!(
        create_poll(&ctx, vec![], 0, key(NFT1), key(NFT2), 0, 0),
        Err(AmmError::InvalidShares)
    );
    // The title is looked at first.
    assert_eq!(
        create_poll(&ctx, vec![0; 100], 0, key(NFT1), key(NFT2), 0, 0),
        Err(AmmError::TitleTooLong)
    );
}

#[test]
fn create_poll_reports_a_product_beyond_64_bits() {
    let ctx = CreatePoll { poll: key(POLL), authority: key(CREATOR), token_mint: key(MINT) };
    assert_eq!(
        create_poll(&ctx, vec![], 0, key(NFT1), key(NFT2), 1 << 32, 1 << 32),
        Err(AmmError::ArithmeticOverflow)
    );
    let largest = create_poll(&ctx, vec![], 0, key(NFT1), key(NFT2), u64::MAX, 1);
    assert_eq!(largest.map(|(poll, _)| poll.k), Ok(u64::MAX));
}

#[test]
fn vote_moves_the_reserves_and_fills_the_record() {
    let mut poll = new_poll(1000, 1000);
    let receipt = vote(&vote_ctx(), &mut poll, 1, 103, 999).unwrap();
    assert_eq!(poll.nft1_shares, 909);
    assert_eq!(poll.nft2_shares, 1100);
    assert_eq!(poll.k, 1_000_000);
    assert_eq!(poll.status, PollStatus::Active);
    assert_eq!(receipt, VoteReceipt {
        vote: Vote {
            poll: key(POLL),
            user: key(USER),
            voted_for_nft: 1,
            amount: 91,
            value: 103,
            price_at_transaction: 5475,
            claimed: false,
        },
        pool_transfer: TransferRequest {
            from: key(50),
            to: key(51),
            authority: key(USER),
            amount: 100,
        },
        fee_transfer: TransferRequest {
            from: key(50),
            to: key(52),
            authority: key(USER),
            amount: 3,
        },
    });
}

#[test]
fn vote_on_the_second_outcome_is_the_mirror_image() {
    let mut poll = new_poll(1000, 1000);
    let receipt = vote(&vote_ctx(), &mut poll, 2, 103, 0).unwrap();
    assert_eq!((poll.nft1_shares, poll.nft2_shares, poll.k), (1100, 909, 1_000_000));
    assert_eq!(receipt.vote.voted_for_nft, 2);
    assert_eq!(receipt.vote.amount, 91);
    assert_eq!(receipt.vote.price_at_transaction, 5475);
}

#[test]
fn vote_changes_nothing_but_the_reserves() {
    let before = new_poll(1000, 1000);
    let mut poll = before.clone();
    vote(&vote_ctx(), &mut poll, 1, 103, 0).unwrap();
    assert_eq!(poll, Poll { nft1_shares: 909, nft2_shares: 1100, ..before });
}

#[test]
fn vote_wants_an_active_poll() {
    for status in [PollStatus::Closed, PollStatus::Resolved, PollStatus::Canceled] {
        let mut poll = new_poll(1000, 1000);
        poll.status = status;
        let before = poll.clone();
        assert_eq!(vote(&vote_ctx(), &mut poll, 1, 103, 0), Err(AmmError::PollNotActive));
        assert_eq!(poll, before);
    }
}

#[test]
fn vote_ends_at_the_deadline() {
    let mut poll = new_poll(1000, 1000);
    let before = poll.clone();
    assert_eq!(vote(&vote_ctx(), &mut poll, 1, 103, 1_000), Err(AmmError::PollClosed));
    assert_eq!(vote(&vote_ctx(), &mut poll, 1, 103, 1_001), Err(AmmError::PollClosed));
    assert_eq!(vote(&vote_ctx(), &mut poll, 1, 103, i64::MAX), Err(AmmError::PollClosed));
    assert_eq!(poll, before);
    assert!(vote(&vote_ctx(), &mut poll, 1, 103, 999).is_ok());
    assert!(vote(&vote_ctx(), &mut poll, 1, 103, i64::MIN).is_ok());
}

#[test]
fn vote_wants_one_of_the_two_outcomes() {
    let mut poll = new_poll(1000, 1000);
    let before = poll.clone();
    assert_eq!(vote(&vote_ctx(), &mut poll, 0, 103, 0), Err(AmmError::InvalidNftChoice));
    assert_eq!(vote(&vote_ctx(), &mut poll, 3, 103, 0), Err(AmmError::InvalidNftChoice));
    assert_eq!(poll, before);
}

#[test]
fn vote_wants_enough_liquidity() {
    let mut poll = new_poll(1000, 1000);
    let before = poll.clone();
    assert_eq!(vote(&vote_ctx(), &mut poll, 1, 1031, 0), Err(AmmError::NotEnoughLiquidity));
    assert_eq!(poll, before);
    assert!(vote(&vote_ctx(), &mut poll, 1, 1030, 0).is_ok());
    assert_eq!((poll.nft1_shares, poll.nft2_shares), (500, 2000));
}

#[test]
fn vote_wants_token_accounts_of_the_polls_mint() {
    let mut poll = new_poll(1000, 1000);
    let before = poll.clone();
    let mut ctx = vote_ctx();
    ctx.user_token_account.mint = key(OTHER_MINT);
    assert_eq!(vote(&ctx, &mut poll, 1, 103, 0), Err(AmmError::InvalidTokenMint));
    let mut ctx = vote_ctx();
    ctx.pool_vault.mint = key(OTHER_MINT);
    assert_eq!(vote(&ctx, &mut poll, 1, 103, 0), Err(AmmError::InvalidTokenMint));
    let mut ctx = vote_ctx();
    ctx.fee_vault.mint = key(OTHER_MINT);
    assert_eq!(vote(&ctx, &mut poll, 1, 103, 0), Err(AmmError::InvalidTokenMint));
    assert_eq!(ctx.validate(&poll), Err(AmmError::InvalidTokenMint));
    assert_eq!(vote_ctx().validate(&poll), Ok(()));
    assert_eq!(poll, before);
}

#[test]
fn vote_wants_the_callers_own_token_account() {
    let mut poll = new_poll(1000, 1000);
    let before = poll.clone();
    let mut ctx = vote_ctx();
    ctx.user_token_account.owner = key(STRANGER);
    assert_eq!(vote(&ctx, &mut poll, 1, 103, 0), Err(AmmError::InvalidTokenOwner));
    assert_eq!(poll, before);
}

#[test]
fn vote_reports_the_first_condition_that_fails() {
    let mut poll = new_poll(1000, 1000);
    let mut ctx = vote_ctx();
    ctx.user_token_account.owner = key(STRANGER);
    ctx.pool_vault.mint = key(OTHER_MINT);
    // The owner of the paying account comes before the vaults.
    assert_eq!(vote(&ctx, &mut poll, 3, 5000, 2_000), Err(AmmError::InvalidTokenOwner));
    ctx.user_token_account.mint = key(OTHER_MINT);
    assert_eq!(vote(&ctx, &mut poll, 3, 5000, 2_000), Err(AmmError::InvalidTokenMint));
    // The status comes before everything.
    poll.status = PollStatus::Canceled;
    assert_eq!(vote(&ctx, &mut poll, 3, 5000, 2_000), Err(AmmError::PollNotActive));
    // Deadline before choice, choice before liquidity.
    let mut poll = new_poll(1000, 1000);
    assert_eq!(vote(&vote_ctx(), &mut poll, 3, 5000, 2_000), Err(AmmError::PollClosed));
    assert_eq!(vote(&vote_ctx(), &mut poll, 3, 5000, 0), Err(AmmError::InvalidNftChoice));
    assert_eq!(vote(&vote_ctx(), &mut poll, 2, 5000, 0), Err(AmmError::NotEnoughLiquidity));
}

#[test]
fn vote_reports_arithmetic_that_has_no_result() {
    let mut poll = new_poll(5, 20);
    // A vote on the first outcome leaves (5, 19) under k = 100.
    poll.nft2_shares = 19;
    let before = poll.clone();
    assert_eq!(vote(&vote_ctx(), &mut poll, 2, 0, 0), Err(AmmError::ArithmeticOverflow));
    assert_eq!(poll, before);
}

#[test]
fn votes_never_raise_the_product_above_k() {
    let mut poll = new_poll(1000, 1000);
    let calls: [(u8, u64); 10] = [
        (1, 103),
        (2, 50),
        (2, 700),
        (1, 1),
        (3, 10),
        (1, 0),
        (2, 999_999),
        (1, 400),
        (1, 1),
        (2, 33),
    ];
    for (choice, amount) in calls {
        let before = poll.clone();
        match vote(&vote_ctx(), &mut poll, choice, amount, 0) {
            Ok(_) => {},
            Err(_) => assert_eq!(poll, before),
        }
        assert_eq!(poll.k, 1_000_000);
        assert!(poll.nft1_shares as u128 * poll.nft2_shares as u128 <= 1_000_000);
        assert!(poll.nft1_shares > 0 && poll.nft2_shares > 0);
    }
}

#[test]
fn a_vote_can_empty_the_backed_reserve() {
    // With one share on the first outcome, k is 1000; a stake of 100 after the fee
    // brings the second reserve to 1100, beyond k.
    let mut poll = new_poll(1, 1000);
    let receipt = vote(&vote_ctx(), &mut poll, 1, 103, 0).unwrap();
    assert_eq!((poll.nft1_shares, poll.nft2_shares, poll.k), (0, 1100, 1000));
    assert_eq!(receipt.vote.amount, 1);
    assert_eq!(receipt.vote.price_at_transaction, 10000);
}

#[test]
fn resolve_by_the_authority() {
    let mut poll = new_poll(1000, 1000);
    let before = poll.clone();
    let event = resolve_poll(&resolve_ctx(CREATOR, ADMIN), &mut poll, key(NFT2)).unwrap();
    assert_eq!(event, PollResolvedEvent {
        poll: key(POLL),
        authority: key(CREATOR),
        winning_nft: key(NFT2),
    });
    assert_eq!(poll, Poll {
        status: PollStatus::Resolved,
        winning_nft: Some(key(NFT2)),
        ..before
    });
}

#[test]
fn resolve_by_the_authority_whatever_the_admin() {
    for admin in [ADMIN, CREATOR, STRANGER, 0] {
        let mut poll = new_poll(1000, 1000);
        assert!(resolve_poll(&resolve_ctx(CREATOR, admin), &mut poll, key(NFT1)).is_ok());
        assert_eq!(poll.winning_nft, Some(key(NFT1)));
        let mut poll = new_poll(1000, 1000);
        assert!(cancel_poll(&cancel_ctx(CREATOR, admin), &mut poll).is_ok());
        assert_eq!(poll.status, PollStatus::Canceled);
    }
}

#[test]
fn resolve_by_a_stranger_is_unauthorized() {
    let mut poll = new_poll(1000, 1000);
    let before = poll.clone();
    assert_eq!(
        resolve_poll(&resolve_ctx(STRANGER, ADMIN), &mut poll, key(NFT1)),
        Err(AmmError::Unauthorized)
    );
    assert_eq!(cancel_poll(&cancel_ctx(STRANGER, ADMIN), &mut poll), Err(AmmError::Unauthorized));
    assert_eq!(poll, before);
}

#[test]
fn resolve_by_a_caller_who_names_itself_admin_goes_through() {
    // The admin is whoever the call says it is: a known weakness.
    let mut poll = new_poll(1000, 1000);
    let event = resolve_poll(&resolve_ctx(STRANGER, STRANGER), &mut poll, key(NFT1)).unwrap();
    assert_eq!(event.authority, key(STRANGER));
    assert_eq!(poll.status, PollStatus::Resolved);
    let mut poll = new_poll(1000, 1000);
    assert!(cancel_poll(&cancel_ctx(STRANGER, STRANGER), &mut poll).is_ok());
    assert_eq!(poll.status, PollStatus::Canceled);
}

#[test]
fn resolve_wants_one_of_the_two_outcomes() {
    let mut poll = new_poll(1000, 1000);
    let before = poll.clone();
    assert_eq!(
        resolve_poll(&resolve_ctx(CREATOR, ADMIN), &mut poll, key(3)),
        Err(AmmError::InvalidNftChoice)
    );
    assert_eq!(poll, before);
}

#[test]
fn resolve_takes_a_poll_stored_as_closed_or_past_its_deadline() {
    let mut poll = new_poll(1000, 1000);
    poll.status = PollStatus::Closed;
    assert!(resolve_poll(&resolve_ctx(CREATOR, ADMIN), &mut poll, key(NFT1)).is_ok());
    assert_eq!(poll.status, PollStatus::Resolved);
    // The deadline plays no part: this poll closed at 1000 and no time is asked for.
    let mut poll = new_poll(1000, 1000);
    assert_eq!(vote(&vote_ctx(), &mut poll, 1, 103, 5_000), Err(AmmError::PollClosed));
    assert!(resolve_poll(&resolve_ctx(CREATOR, ADMIN), &mut poll, key(NFT1)).is_ok());
}

#[test]
fn a_poll_that_has_ended_stays_as_it_is() {
    let mut resolved = new_poll(1000, 1000);
    resolve_poll(&resolve_ctx(CREATOR, ADMIN), &mut resolved, key(NFT1)).unwrap();
    let mut canceled = new_poll(1000, 1000);
    cancel_poll(&cancel_ctx(CREATOR, ADMIN), &mut canceled).unwrap();
    for poll in [&mut resolved, &mut canceled] {
        let before = poll.clone();
        assert_eq!(
            resolve_poll(&resolve_ctx(CREATOR, ADMIN), poll, key(NFT2)),
            Err(AmmError::PollNotActive)
        );
        assert_eq!(
            resolve_poll(&resolve_ctx(ADMIN, ADMIN), poll, key(NFT2)),
            Err(AmmError::PollNotActive)
        );
        assert_eq!(cancel_poll(&cancel_ctx(CREATOR, ADMIN), poll), Err(AmmError::PollNotActive));
        assert_eq!(vote(&vote_ctx(), poll, 1, 103, 0), Err(AmmError::PollNotActive));
        // The caller is looked at before the status.
        assert_eq!(
            resolve_poll(&resolve_ctx(STRANGER, ADMIN), poll, key(NFT2)),
            Err(AmmError::Unauthorized)
        );
        assert_eq!(cancel_poll(&cancel_ctx(STRANGER, ADMIN), poll), Err(AmmError::Unauthorized));
        assert_eq!(*poll, before);
    }
}

#[test]
fn cancel_by_the_authority() {
    let mut poll = new_poll(1000, 1000);
    let before = poll.clone();
    let event = cancel_poll(&cancel_ctx(CREATOR, ADMIN), &mut poll).unwrap();
    assert_eq!(event, PollCanceledEvent { poll: key(POLL), authority: key(CREATOR) });
    assert_eq!(poll, Poll { status: PollStatus::Canceled, ..before });
}

#[test]
fn cancel_takes_a_poll_stored_as_closed() {
    let mut poll = new_poll(1000, 1000);
    poll.status = PollStatus::Closed;
    assert!(cancel_poll(&cancel_ctx(CREATOR, ADMIN), &mut poll).is_ok());
    assert_eq!(poll.status, PollStatus::Canceled);
}

#[test]
fn add_liquidity_grows_the_reserves_and_resets_k() {
    let mut poll = new_poll(1000, 1000);
    vote(&vote_ctx(), &mut poll, 1, 103, 0).unwrap();
    let before = poll.clone();
    let (first, second) = add_liquidity(&liquidity_ctx(), &mut poll, 91, 900).unwrap();
    assert_eq!(poll, Poll { nft1_shares: 1000, nft2_shares: 2000, k: 2_000_000, ..before });
    assert_eq!(first, TransferRequest {
        from: key(53),
        to: key(55),
        authority: key(USER),
        amount: 91,
    });
    assert_eq!(second, TransferRequest {
        from: key(54),
        to: key(56),
        authority: key(USER),
        amount: 900,
    });
}

#[test]
fn add_liquidity_does_not_ask_for_the_status() {
    for status in [PollStatus::Closed, PollStatus::Resolved, PollStatus::Canceled] {
        let mut poll = new_poll(10, 10);
        poll.status = status;
        assert!(add_liquidity(&liquidity_ctx(), &mut poll, 1, 2).is_ok());
        assert_eq!((poll.nft1_shares, poll.nft2_shares, poll.k), (11, 12, 132));
        assert_eq!(poll.status, status);
    }
}

#[test]
fn add_liquidity_reports_what_does_not_fit_in_64_bits() {
    let mut poll = new_poll(u64::MAX, 1);
    let before = poll.clone();
    assert_eq!(
        add_liquidity(&liquidity_ctx(), &mut poll, 1, 0),
        Err(AmmError::ArithmeticOverflow)
    );
    assert_eq!(
        add_liquidity(&liquidity_ctx(), &mut poll, 0, 1),
        Err(AmmError::ArithmeticOverflow)
    );
    assert_eq!(poll, before);
    let mut poll = new_poll(1, u64::MAX);
    assert_eq!(
        add_liquidity(&liquidity_ctx(), &mut poll, 0, 1),
        Err(AmmError::ArithmeticOverflow)
    );
    assert_eq!(add_liquidity(&liquidity_ctx(), &mut poll, 0, 0), Ok((
        TransferRequest { from: key(53), to: key(55), authority: key(USER), amount: 0 },
        TransferRequest { from: key(54), to: key(56), authority: key(USER), amount: 0 },
    )));
}
