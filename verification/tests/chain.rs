use swap_chain::{
    init_program, orca_swap, profit_or_revert, raydium_swap, run_transaction, saber_swap,
    start_swap, ErrorCode, InitSwapState, LegAction, LegEvent, LegRequest, OrcaSwap, RaydiumSwap,
    SaberSwap, Side, Step, SwapState, TokenAccount, TokenAndSwapState, VenueCall, VenueOutcome,
};

fn fresh() -> SwapState {
    let mut ctx = InitSwapState {
        swap_state: SwapState { swap_input: 0, start_balance: 0, is_valid: false },
    };
    init_program(&mut ctx).unwrap();
    ctx.swap_state
}

fn leg(request: LegRequest, dst_before: u64, dst_after: u64) -> Step {
    Step::Leg { request, dst_before, outcome: VenueOutcome::Executed { dst_after } }
}

#[test]
fn non_origin_chain_is_judged_on_the_origin_asset() {
    let mut origin = TokenAndSwapState { src: TokenAccount { amount: 100 }, swap_state: fresh() };
    start_swap(&mut origin, 100).unwrap();

    let mut leg = RaydiumSwap { user_dst: TokenAccount { amount: 0 }, swap_state: origin.swap_state };
    assert_eq!(
        raydium_swap(&mut leg, true, LegEvent::Executed { dst_amount: 80 }),
        Ok(LegAction::Settled { amount_out: 80 })
    );

    // The destination rose by 80, the origin asset did not move: no profit.
    let mut close = TokenAndSwapState { src: TokenAccount { amount: 100 }, swap_state: leg.swap_state };
    assert_eq!(profit_or_revert(&mut close), Err(ErrorCode::NoProfit));

    // Judged against the pending input (80) this would pass; it must not.
    let mut close = TokenAndSwapState { src: TokenAccount { amount: 81 }, swap_state: leg.swap_state };
    assert_eq!(profit_or_revert(&mut close), Err(ErrorCode::NoProfit));

    let mut close = TokenAndSwapState { src: TokenAccount { amount: 101 }, swap_state: leg.swap_state };
    assert_eq!(profit_or_revert(&mut close), Ok(()));
}

#[test]
fn zero_output_leg_then_close_has_no_profit() {
    let mut origin = TokenAndSwapState { src: TokenAccount { amount: 100 }, swap_state: fresh() };
    start_swap(&mut origin, 100).unwrap();

    let mut leg = SaberSwap { user_dst: TokenAccount { amount: 40 }, swap_state: origin.swap_state };
    assert_eq!(
        saber_swap(&mut leg, LegEvent::Executed { dst_amount: 40 }),
        Ok(LegAction::Settled { amount_out: 0 })
    );

    let mut close = TokenAndSwapState { src: TokenAccount { amount: 100 }, swap_state: leg.swap_state };
    assert_eq!(profit_or_revert(&mut close), Err(ErrorCode::NoProfit));
}

#[test]
fn profitable_single_leg_closes() {
    let mut origin = TokenAndSwapState { src: TokenAccount { amount: 100 }, swap_state: fresh() };
    start_swap(&mut origin, 100).unwrap();

    let mut leg = OrcaSwap {
        token_owner_account_a: TokenAccount { amount: 100 },
        token_owner_account_b: TokenAccount { amount: 0 },
        swap_state: origin.swap_state,
    };
    assert_eq!(
        orca_swap(&mut leg, false, LegEvent::Executed { dst_amount: 105 }),
        Ok(LegAction::Settled { amount_out: 5 })
    );

    let mut close = TokenAndSwapState { src: TokenAccount { amount: 105 }, swap_state: leg.swap_state };
    assert_eq!(profit_or_revert(&mut close), Ok(()));
    assert!(!close.swap_state.is_valid);
}

#[test]
fn leg_before_any_open_is_rejected() {
    let mut leg = RaydiumSwap { user_dst: TokenAccount { amount: 0 }, swap_state: fresh() };
    assert_eq!(raydium_swap(&mut leg, true, LegEvent::Requested), Err(ErrorCode::ChainClosed));
    assert_eq!(leg.swap_state, fresh());

    let mut state = fresh();
    let steps = vec![leg_step_saber()];
    assert_eq!(run_transaction(&mut state, &steps), Err(ErrorCode::ChainClosed));
    assert_eq!(state, fresh());
}

fn leg_step_saber() -> Step {
    leg(LegRequest::Saber, 0, 10)
}

#[test]
fn chain_without_legs_has_no_profit() {
    let mut state = fresh();
    let steps = vec![
        Step::Open { origin_amount: 100, swap_input: 100 },
        Step::Close { origin_amount: 100 },
    ];
    assert_eq!(run_transaction(&mut state, &steps), Err(ErrorCode::NoProfit));
    assert_eq!(state, fresh());
}

#[test]
fn empty_transaction_changes_nothing() {
    let mut state = SwapState { swap_input: 3, start_balance: 4, is_valid: true };
    assert_eq!(run_transaction(&mut state, &Vec::new()), Ok(Vec::new()));
    assert_eq!(state, SwapState { swap_input: 3, start_balance: 4, is_valid: true });
}

#[test]
fn transaction_of_three_legs_threads_amounts() {
    let mut state = fresh();
    let steps = vec![
        Step::Open { origin_amount: 1_000, swap_input: 100 },
        leg(LegRequest::Orca { a_to_b: true }, 50, 140),
        leg(LegRequest::Serum { side: Side::Bid }, 0, 77),
        leg(LegRequest::Raydium { a_to_b: false }, 900, 1_012),
        Step::Close { origin_amount: 1_012 },
    ];
    let handed = run_transaction(&mut state, &steps).unwrap();
    let amounts: Vec<u64> = handed.iter().map(|call| call.amount_in()).collect();
    // first the opening amount, then what each leg before produced
    assert_eq!(amounts, vec![100, 90, 77]);
    assert!(matches!(handed[0], VenueCall::Orca(_)));
    assert!(matches!(handed[1], VenueCall::Serum { side: Side::Bid, .. }));
    assert!(matches!(handed[2], VenueCall::Raydium(_)));
    assert_eq!(state, SwapState { swap_input: 112, start_balance: 1_000, is_valid: false });
}

#[test]
fn open_transaction_without_close_stays_open() {
    let mut state = fresh();
    let steps = vec![
        Step::Open { origin_amount: 10, swap_input: 5 },
        leg(LegRequest::Saber, 1, 9),
    ];
    assert_eq!(run_transaction(&mut state, &steps), Ok(vec![VenueCall::Saber { amount_in: 5 }]));
    assert_eq!(state, SwapState { swap_input: 8, start_balance: 10, is_valid: true });
}

#[test]
fn failed_leg_leaves_nothing_behind() {
    let before = SwapState { swap_input: 11, start_balance: 22, is_valid: false };
    for failing in 1..4usize {
        let mut steps = vec![
            Step::Open { origin_amount: 1_000, swap_input: 100 },
            leg(LegRequest::Saber, 0, 90),
            leg(LegRequest::Saber, 0, 80),
            leg(LegRequest::Saber, 0, 70),
            Step::Close { origin_amount: 2_000 },
        ];
        steps[failing] =
            Step::Leg { request: LegRequest::Saber, dst_before: 0, outcome: VenueOutcome::Failed };
        let mut state = before;
        assert_eq!(run_transaction(&mut state, &steps), Err(ErrorCode::VenueExecutionFailed));
        assert_eq!(state, before);
    }
}

#[test]
fn underflowing_leg_leaves_nothing_behind() {
    let before = fresh();
    let mut state = before;
    let steps = vec![
        Step::Open { origin_amount: 1_000, swap_input: 100 },
        leg(LegRequest::Saber, 0, 90),
        leg(LegRequest::Saber, 10, 9),
        Step::Close { origin_amount: 2_000 },
    ];
    assert_eq!(run_transaction(&mut state, &steps), Err(ErrorCode::ArithmeticUnderflow));
    assert_eq!(state, before);
}

#[test]
fn first_rejection_decides_the_error() {
    let mut state = fresh();
    let steps = vec![
        Step::Open { origin_amount: 100, swap_input: 100 },
        Step::Close { origin_amount: 100 },
        leg(LegRequest::Saber, 10, 9),
    ];
    assert_eq!(run_transaction(&mut state, &steps), Err(ErrorCode::NoProfit));

    let steps = vec![
        Step::Open { origin_amount: 100, swap_input: 100 },
        Step::Close { origin_amount: 101 },
        Step::Close { origin_amount: 500 },
    ];
    assert_eq!(run_transaction(&mut state, &steps), Err(ErrorCode::ChainClosed));
    assert_eq!(state, fresh());
}

#[test]
fn chain_can_be_opened_again_after_close() {
    let mut state = fresh();
    let steps = vec![
        Step::Open { origin_amount: 100, swap_input: 100 },
        leg(LegRequest::Saber, 0, 5),
        Step::Close { origin_amount: 105 },
        Step::Open { origin_amount: 105, swap_input: 50 },
        leg(LegRequest::Saber, 5, 11),
        Step::Close { origin_amount: 106 },
    ];
    let handed = run_transaction(&mut state, &steps).unwrap();
    assert_eq!(
        handed,
        vec![VenueCall::Saber { amount_in: 100 }, VenueCall::Saber { amount_in: 50 }]
    );
    assert_eq!(state, SwapState { swap_input: 6, start_balance: 105, is_valid: false });
}
