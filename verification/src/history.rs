//! What holds over every history of a vault: from its funding on, whatever is called, by
//! whomever and with whatever accounts.

use vstd::prelude::*;

use crate::accounts::{
    AccountInfo, AdvanceClock, AdvanceClockArgs, AttestCpc, ClaimRelease, CloseVault, FundVault,
    FundVaultArgs, VaultAccount,
};
use crate::error::{Error, VeritaError};
use crate::keys::Pubkey;
use crate::program::Opening;
use crate::state::{Build, STATUS_FUNDED, VAULT_SPACE};

verus! {

// ---------------------------------------------------------------------------
// Model
// ---------------------------------------------------------------------------
/// `vault` is what a funding opened: `fund_vault` accepted it at the canonical address,
/// with the given rent-exempt minimum, and what it ordered has been carried out.
pub open spec fn funds(
    accounts: FundVault,
    args: FundVaultArgs,
    program_id: Pubkey,
    found: Option<(Pubkey, u8)>,
    rent_minimum: u64,
    opening: Opening,
    vault: VaultAccount,
) -> bool {
    &&& crate::address::is_canonical_address(
        crate::address::vault_seeds(
            args.project_id@,
            args.subcontractor,
            accounts.main_contractor.info.key,
        ),
        program_id@,
        found,
    )
    &&& crate::program::fund_vault_result(
        accounts,
        args,
        program_id,
        found,
        Ok(rent_minimum),
        Ok(opening),
    )
    &&& opening.opens(accounts, vault)
}

/// A vault as it is right after its funding.
pub open spec fn is_funded(vault: VaultAccount, program_id: Pubkey, rent_minimum: u64) -> bool {
    exists|
        accounts: FundVault,
        args: FundVaultArgs,
        found: Option<(Pubkey, u8)>,
        opening: Opening,
    | #[trigger]
        funds(accounts, args, program_id, found, rent_minimum, opening, vault)
}

/// Something that happens to a vault: an instruction is called on it, and accepted or
/// refused, or somebody sends lamports to its address.
pub enum Event {
    Claim {
        before: ClaimRelease,
        after: ClaimRelease,
        build: Build,
        now: Result<i64, Error>,
        rent: Result<u64, Error>,
        done: Result<(), Error>,
    },
    Attest {
        before: AttestCpc,
        after: AttestCpc,
        rent: Result<u64, Error>,
        done: Result<(), Error>,
    },
    Close { before: CloseVault, after: CloseVault, done: Result<(), Error> },
    Clock {
        before: AdvanceClock,
        after: AdvanceClock,
        args: AdvanceClockArgs,
        build: Build,
        done: Result<(), Error>,
    },
    Deposit { lamports: u64 },
}

/// Whether the account still stores a vault, so that instructions can load it.
pub open spec fn is_open(vault: VaultAccount) -> bool {
    vault.data_len > 0
}

/// `event` takes the vault from `from` to `to`.
pub open spec fn happens(
    program_id: Pubkey,
    from: VaultAccount,
    event: Event,
    to: VaultAccount,
) -> bool {
    let derived = crate::address::stored_address(from.state, program_id);
    match event {
        Event::Claim { before, after, build, now, rent, done } => {
            &&& is_open(from)
            &&& before.vault == from
            &&& after.vault == to
            &&& crate::program::claim_release_result(before, derived, build, now, rent, after, done)
        },
        Event::Attest { before, after, rent, done } => {
            &&& is_open(from)
            &&& before.vault == from
            &&& after.vault == to
            &&& crate::program::attest_cpc_result(before, derived, rent, after, done)
        },
        Event::Close { before, after, done } => {
            &&& is_open(from)
            &&& before.vault == from
            &&& after.vault == to
            &&& crate::program::close_vault_result(before, derived, after, done)
        },
        Event::Clock { before, after, args, build, done } => {
            &&& is_open(from)
            &&& before.vault == from
            &&& after.vault == to
            &&& crate::program::advance_clock_result(before, args, build, derived, after, done)
        },
        Event::Deposit { lamports } => {
            &&& from.info.lamports + lamports <= u64::MAX
            &&& to == (VaultAccount { info: from.info.credited(lamports as int), ..from })
        },
    }
}

/// `states` are the states of a vault from its funding on, and `events` what happened
/// between them.
pub open spec fn is_history(
    program_id: Pubkey,
    rent_minimum: u64,
    states: Seq<VaultAccount>,
    events: Seq<Event>,
) -> bool {
    &&& states.len() == events.len() + 1
    &&& is_funded(states[0], program_id, rent_minimum)
    &&& forall|i: int|
        0 <= i < events.len() ==> happens(
            program_id,
            states[i],
            #[trigger] events[i],
            states[i + 1],
        )
}

/// Retention that an event pays out.
pub open spec fn retention(event: Event) -> int {
    match event {
        Event::Claim { before, done: Ok(()), .. } => before.vault.state.claimable(),
        Event::Attest { before, done: Ok(()), .. } => before.vault.state.moiety(),
        _ => 0,
    }
}

/// What is left in the vault and handed over when it closes.
pub open spec fn refund(event: Event) -> int {
    match event {
        Event::Close { before, done: Ok(()), .. } => before.vault.info.lamports as int,
        _ => 0,
    }
}

/// Lamports that an event brings in.
pub open spec fn deposit(event: Event) -> int {
    match event {
        Event::Deposit { lamports } => lamports as int,
        _ => 0,
    }
}

/// What `account`, if it is the one with the given key, gains from before to after.
pub open spec fn gain(key: Pubkey, account: AccountInfo, after: AccountInfo) -> int {
    if account.key == key {
        after.lamports - account.lamports
    } else {
        0
    }
}

/// What the account with the given key gains by an event, in whatever role it takes
/// part. A deposit is made by its sender alone and counts for nobody here.
pub open spec fn received(event: Event, key: Pubkey) -> int {
    match event {
        Event::Claim { before, after, .. } => gain(
            key,
            before.subcontractor.info,
            after.subcontractor.info,
        ) + gain(key, before.rent_payer.info, after.rent_payer.info),
        Event::Attest { before, after, .. } => gain(
            key,
            before.certifier.info,
            after.certifier.info,
        ) + gain(key, before.subcontractor.info, after.subcontractor.info),
        Event::Close { before, after, .. } => gain(
            key,
            before.rent_payer.info,
            after.rent_payer.info,
        ),
        Event::Clock { before, after, .. } => gain(
            key,
            before.demo_authority.info,
            after.demo_authority.info,
        ),
        Event::Deposit { .. } => 0,
    }
}

/// Whether an event sets the clock offset.
pub open spec fn rolls_clock(event: Event) -> bool {
    event matches Event::Clock { done: Ok(()), .. }
}

/// Retention paid out over a history.
pub open spec fn total_paid(events: Seq<Event>) -> int
    decreases events.len(),
{
    if events.len() == 0 {
        0
    } else {
        total_paid(events.drop_last()) + retention(events.last())
    }
}

/// What was handed over on close over a history.
pub open spec fn total_refunded(events: Seq<Event>) -> int
    decreases events.len(),
{
    if events.len() == 0 {
        0
    } else {
        total_refunded(events.drop_last()) + refund(events.last())
    }
}

/// Lamports sent to the vault over a history.
pub open spec fn total_deposited(events: Seq<Event>) -> int
    decreases events.len(),
{
    if events.len() == 0 {
        0
    } else {
        total_deposited(events.drop_last()) + deposit(events.last())
    }
}

/// What the account with the given key gained over a history.
pub open spec fn total_received(events: Seq<Event>, key: Pubkey) -> int
    decreases events.len(),
{
    if events.len() == 0 {
        0
    } else {
        total_received(events.drop_last(), key) + received(events.last(), key)
    }
}

// ---------------------------------------------------------------------------
// Steps
// ---------------------------------------------------------------------------
/// What a funding leaves behind.
proof fn lemma_funded(vault: VaultAccount, program_id: Pubkey, rent_minimum: u64)
    requires
        is_funded(vault, program_id, rent_minimum),
    ensures
        vault.state.wf(),
        vault.state.status == STATUS_FUNDED,
        vault.state.released_cumulative == 0,
        vault.state.clock_offset == 0,
        vault.info.lamports >= vault.state.amount + rent_minimum,
        vault.data_len == VAULT_SPACE,
        crate::address::stored_address(vault.state, program_id) == Some(vault.info.key@),
{
}

/// What every event keeps, and what it adds to the totals.
proof fn lemma_event(program_id: Pubkey, from: VaultAccount, event: Event, to: VaultAccount)
    requires
        from.state.wf(),
        happens(program_id, from, event, to),
    ensures
        to.state.wf(),
        to.state.same_terms(from.state),
        to.info.key == from.info.key,
        is_open(to) ==> to.data_len == from.data_len && refund(event) == 0,
        retention(event) >= 0,
        refund(event) >= 0,
        to.state.released_cumulative == from.state.released_cumulative + retention(event),
        to.info.lamports == from.info.lamports + deposit(event) - retention(event) - refund(event),
        from.state.cpc_attested ==> to.state.cpc_attested,
        rolls_clock(event) || to.state.clock_offset == from.state.clock_offset,
{
    assert(to.state.moiety_product() == from.state.moiety_product());
}

/// Who gains by an event: the stored subcontractor gains the retention, the stored rent
/// payer what is left on close, and nobody else anything.
proof fn lemma_received(
    program_id: Pubkey,
    from: VaultAccount,
    event: Event,
    to: VaultAccount,
    key: Pubkey,
)
    requires
        from.state.wf(),
        happens(program_id, from, event, to),
    ensures
        received(event, key) == (if key == from.state.subcontractor {
            retention(event)
        } else {
            0
        }) + (if key == from.state.rent_payer {
            refund(event)
        } else {
            0
        }),
{
}

/// A history without its last event is a history, and the last event follows it.
proof fn lemma_shorter(
    program_id: Pubkey,
    rent_minimum: u64,
    states: Seq<VaultAccount>,
    events: Seq<Event>,
)
    requires
        is_history(program_id, rent_minimum, states, events),
        events.len() > 0,
    ensures
        is_history(program_id, rent_minimum, states.drop_last(), events.drop_last()),
        happens(program_id, states.drop_last().last(), events.last(), states.last()),
{
    let n = events.len() as int;
    assert forall|i: int| 0 <= i < n - 1 implies happens(
        program_id,
        states.drop_last()[i],
        #[trigger] events.drop_last()[i],
        states.drop_last()[i + 1],
    ) by {
        assert(events.drop_last()[i] == events[i]);
    }
    assert(happens(program_id, states[n - 1], events[n - 1], states[n]));
}

/// A history up to any of its states is a history.
proof fn lemma_prefix(
    program_id: Pubkey,
    rent_minimum: u64,
    states: Seq<VaultAccount>,
    events: Seq<Event>,
    i: int,
)
    requires
        is_history(program_id, rent_minimum, states, events),
        0 <= i < states.len(),
    ensures
        is_history(program_id, rent_minimum, states.take(i + 1), events.take(i)),
        states.take(i + 1).last() == states[i],
{
    let s = states.take(i + 1);
    let e = events.take(i);
    assert forall|k: int| 0 <= k < e.len() implies happens(
        program_id,
        s[k],
        #[trigger] e[k],
        s[k + 1],
    ) by {
        assert(e[k] == events[k]);
    }
}

// ---------------------------------------------------------------------------
// Laws
// ---------------------------------------------------------------------------
/// A vault that was just funded opens a history.
pub proof fn law_funding_opens_a_history(
    accounts: FundVault,
    args: FundVaultArgs,
    program_id: Pubkey,
    found: Option<(Pubkey, u8)>,
    rent_minimum: u64,
    opening: Opening,
    vault: VaultAccount,
)
    requires
        funds(accounts, args, program_id, found, rent_minimum, opening, vault),
    ensures
        is_history(program_id, rent_minimum, seq![vault], Seq::<Event>::empty()),
{
}

/// Over every history of a vault: the stored state stays well formed, the parties and
/// terms stay those of the funding, the vault stays at the address that its state
/// derives, the released total is exactly what was paid out and never more than the
/// amount, and the balance is exactly the opening balance plus deposits less payments.
/// While the vault is open nothing of the reserve has been handed over.
pub proof fn law_history_accounts(
    program_id: Pubkey,
    rent_minimum: u64,
    states: Seq<VaultAccount>,
    events: Seq<Event>,
)
    requires
        is_history(program_id, rent_minimum, states, events),
    ensures
        states.last().state.wf(),
        states.last().state.same_terms(states[0].state),
        states.last().info.key == states[0].info.key,
        crate::address::stored_address(states.last().state, program_id) == Some(
            states.last().info.key@,
        ),
        states.last().state.released_cumulative == total_paid(events),
        0 <= total_paid(events) <= states[0].state.amount,
        states.last().info.lamports == states[0].info.lamports + total_deposited(events)
            - total_paid(events) - total_refunded(events),
        total_deposited(events) >= 0,
        total_refunded(events) >= 0,
        is_open(states.last()) ==> states.last().data_len == VAULT_SPACE && total_refunded(events)
            == 0,
    decreases events.len(),
{
    lemma_funded(states[0], program_id, rent_minimum);
    if events.len() > 0 {
        lemma_shorter(program_id, rent_minimum, states, events);
        law_history_accounts(program_id, rent_minimum, states.drop_last(), events.drop_last());
        lemma_event(program_id, states.drop_last().last(), events.last(), states.last());
    }
}

/// Over every history, from any point to any later one, the released total only grows,
/// the amount stays and a certificate stays recorded.
pub proof fn law_history_is_monotone(
    program_id: Pubkey,
    rent_minimum: u64,
    states: Seq<VaultAccount>,
    events: Seq<Event>,
    i: int,
    j: int,
)
    requires
        is_history(program_id, rent_minimum, states, events),
        0 <= i <= j < states.len(),
    ensures
        states[i].state.released_cumulative <= states[j].state.released_cumulative,
        states[i].state.amount == states[j].state.amount,
        states[i].state.cpc_attested ==> states[j].state.cpc_attested,
    decreases j - i,
{
    if i < j {
        law_history_is_monotone(program_id, rent_minimum, states, events, i, j - 1);
        lemma_prefix(program_id, rent_minimum, states, events, j - 1);
        law_history_accounts(program_id, rent_minimum, states.take(j), events.take(j - 1));
        assert(happens(program_id, states[j - 1], events[j - 1], states[j]));
        lemma_event(program_id, states[j - 1], events[j - 1], states[j]);
    }
}

/// At every point of its history at which it is open, a vault holds at least what it still
/// owes plus the rent-exempt minimum that it was funded with; and exactly its opening
/// balance less what it paid where nobody sent it anything. So the rent reserve is
/// never paid out as retention.
pub proof fn law_vault_stays_solvent(
    program_id: Pubkey,
    rent_minimum: u64,
    states: Seq<VaultAccount>,
    events: Seq<Event>,
)
    requires
        is_history(program_id, rent_minimum, states, events),
        is_open(states.last()),
    ensures
        states.last().state.released_cumulative <= states.last().state.amount,
        states.last().info.lamports >= rent_minimum + (states.last().state.amount
            - states.last().state.released_cumulative),
        total_deposited(events) == 0 ==> states.last().info.lamports == states[0].info.lamports
            - states.last().state.released_cumulative,
{
    lemma_funded(states[0], program_id, rent_minimum);
    law_history_accounts(program_id, rent_minimum, states, events);
}

/// Lamports leave a vault only to the parties that its funding named: over every history,
/// the subcontractor gains exactly the retention that was paid out, the rent payer
/// exactly what was handed over on close, and no other account anything, whoever
/// called what and with which accounts.
pub proof fn law_payments_go_to_the_named_parties(
    program_id: Pubkey,
    rent_minimum: u64,
    states: Seq<VaultAccount>,
    events: Seq<Event>,
    key: Pubkey,
)
    requires
        is_history(program_id, rent_minimum, states, events),
    ensures
        total_received(events, key) == (if key == states[0].state.subcontractor {
            total_paid(events)
        } else {
            0
        }) + (if key == states[0].state.rent_payer {
            total_refunded(events)
        } else {
            0
        }),
    decreases events.len(),
{
    if events.len() > 0 {
        lemma_shorter(program_id, rent_minimum, states, events);
        law_payments_go_to_the_named_parties(
            program_id,
            rent_minimum,
            states.drop_last(),
            events.drop_last(),
            key,
        );
        law_history_accounts(program_id, rent_minimum, states.drop_last(), events.drop_last());
        lemma_received(
            program_id,
            states.drop_last().last(),
            events.last(),
            states.last(),
            key,
        );
    }
}

/// The main contractor has no withdrawal path: where it is neither the subcontractor nor
/// the rent payer of the vault, no event of any history pays it a lamport.
pub proof fn law_contractor_is_never_paid(
    program_id: Pubkey,
    rent_minimum: u64,
    states: Seq<VaultAccount>,
    events: Seq<Event>,
    i: int,
)
    requires
        is_history(program_id, rent_minimum, states, events),
        states[0].state.main_contractor != states[0].state.subcontractor,
        states[0].state.main_contractor != states[0].state.rent_payer,
        0 <= i < events.len(),
    ensures
        received(events[i], states[0].state.main_contractor) == 0,
        total_received(events, states[0].state.main_contractor) == 0,
{
    let contractor = states[0].state.main_contractor;
    lemma_prefix(program_id, rent_minimum, states, events, i);
    law_history_accounts(program_id, rent_minimum, states.take(i + 1), events.take(i));
    assert(happens(program_id, states[i], events[i], states[i + 1]));
    lemma_received(program_id, states[i], events[i], states[i + 1], contractor);
    law_payments_go_to_the_named_parties(program_id, rent_minimum, states, events, contractor);
}

/// At any point of its history at which a vault is open and something is left, and once the
/// backstop has passed, a claim that the stored subcontractor signs, naming the stored
/// rent payer, goes through: it takes nobody else, the rent floor never stands in the
/// way, and the subcontractor gets the whole rest, which completes the release. It takes
/// a balance that can hold the payment.
pub proof fn law_claim_succeeds_after_backstop(
    program_id: Pubkey,
    rent_minimum: u64,
    states: Seq<VaultAccount>,
    events: Seq<Event>,
    before: ClaimRelease,
    build: Build,
    now: Result<i64, Error>,
    after: ClaimRelease,
    done: Result<(), Error>,
)
    requires
        is_history(program_id, rent_minimum, states, events),
        is_open(states.last()),
        before.vault == states.last(),
        before.subcontractor.info.key == before.vault.state.subcontractor,
        before.rent_payer.info.key == before.vault.state.rent_payer,
        before.vault.state.released_cumulative < before.vault.state.amount,
        before.vault.state.effective_time(build, now) is Ok,
        before.vault.state.effective_time(build, now)->Ok_0 >= before.vault.state.backstop(),
        before.subcontractor.info.lamports + before.vault.state.amount
            - before.vault.state.released_cumulative <= u64::MAX,
        crate::program::claim_release_result(
            before,
            crate::address::stored_address(before.vault.state, program_id),
            build,
            now,
            Ok(rent_minimum),
            after,
            done,
        ),
    ensures
        done is Ok,
        after.subcontractor.info.lamports == before.subcontractor.info.lamports
            + before.vault.state.amount - before.vault.state.released_cumulative,
        after.vault.state.released_cumulative == before.vault.state.amount,
        after.vault.info.lamports >= rent_minimum,
{
    law_history_accounts(program_id, rent_minimum, states, events);
    law_vault_stays_solvent(program_id, rent_minimum, states, events);
}

/// At any point of its history at which a vault is open and nothing has been released, a
/// certificate that the stored certifier signs goes through and pays the stored
/// subcontractor the first moiety: the rent floor never stands in the way. It takes a
/// moiety of at least one lamport, a product of amount and share that fits in 64 bits,
/// and a balance that can hold the payment.
pub proof fn law_attest_succeeds_before_release(
    program_id: Pubkey,
    rent_minimum: u64,
    states: Seq<VaultAccount>,
    events: Seq<Event>,
    before: AttestCpc,
    after: AttestCpc,
    done: Result<(), Error>,
)
    requires
        is_history(program_id, rent_minimum, states, events),
        is_open(states.last()),
        before.vault == states.last(),
        before.vault.state.released_cumulative == 0,
        before.certifier.info.key == before.vault.state.certifier,
        before.subcontractor.info.key == before.vault.state.subcontractor,
        0 < before.vault.state.moiety(),
        before.vault.state.moiety_product() <= u64::MAX,
        before.subcontractor.info.lamports + before.vault.state.moiety() <= u64::MAX,
        crate::program::attest_cpc_result(
            before,
            crate::address::stored_address(before.vault.state, program_id),
            Ok(rent_minimum),
            after,
            done,
        ),
    ensures
        done is Ok,
        after.subcontractor.info.lamports == before.subcontractor.info.lamports
            + before.vault.state.moiety(),
        after.vault.state.released_cumulative == before.vault.state.moiety(),
        after.vault.info.lamports >= rent_minimum,
{
    law_history_accounts(program_id, rent_minimum, states, events);
    law_vault_stays_solvent(program_id, rent_minimum, states, events);
    crate::laws::law_moiety_within_amount(before.vault.state);
}

/// Once everything is released, a history admits no further payment of retention: claims
/// and certificates are refused at every time, for every recipient.
pub proof fn law_released_vault_pays_nothing(
    program_id: Pubkey,
    rent_minimum: u64,
    states: Seq<VaultAccount>,
    events: Seq<Event>,
    recipient: AccountInfo,
    build: Build,
    now: Result<i64, Error>,
    rent: Result<u64, Error>,
)
    requires
        is_history(program_id, rent_minimum, states, events),
        states.last().state.released_cumulative == states.last().state.amount,
    ensures
        crate::instructions::claim_refusal(states.last(), recipient, build, now, rent) is Some,
        crate::instructions::attest_refusal(states.last(), recipient, rent) is Some,
{
    law_history_accounts(program_id, rent_minimum, states, events);
}

/// Over every history an open vault can be closed exactly from the moment at which
/// everything is released: earlier the residual stands in the way, and from then on
/// anybody can close it who names the stored rent payer, unless that payer's balance
/// cannot hold what is left. The rent payer is a wallet and not the vault itself.
pub proof fn law_close_succeeds_iff_released(
    program_id: Pubkey,
    rent_minimum: u64,
    states: Seq<VaultAccount>,
    events: Seq<Event>,
    accounts: CloseVault,
)
    requires
        is_history(program_id, rent_minimum, states, events),
        accounts.vault == states.last(),
        accounts.rent_payer.info.key == accounts.vault.state.rent_payer,
        accounts.rent_payer.info.key != accounts.vault.info.key,
        accounts.rent_payer.info.lamports + accounts.vault.info.lamports <= u64::MAX,
    ensures
        crate::program::close_refusal(
            accounts,
            crate::address::stored_address(accounts.vault.state, program_id),
        ) == (if total_paid(events) == states[0].state.amount {
            None
        } else {
            Some(Error::Verita(VeritaError::NonzeroResidual))
        }),
{
    law_history_accounts(program_id, rent_minimum, states, events);
}

/// Over every history in which nobody rolls the clock, which only a demo build allows, the
/// stored offset stays zero.
pub proof fn law_offset_stays_zero_unless_rolled(
    program_id: Pubkey,
    rent_minimum: u64,
    states: Seq<VaultAccount>,
    events: Seq<Event>,
)
    requires
        is_history(program_id, rent_minimum, states, events),
        forall|i: int| 0 <= i < events.len() ==> !rolls_clock(#[trigger] events[i]),
    ensures
        states.last().state.clock_offset == 0,
    decreases events.len(),
{
    lemma_funded(states[0], program_id, rent_minimum);
    if events.len() > 0 {
        lemma_shorter(program_id, rent_minimum, states, events);
        assert forall|i: int| 0 <= i < events.len() - 1 implies !rolls_clock(
            #[trigger] events.drop_last()[i],
        ) by {
            assert(events.drop_last()[i] == events[i]);
        }
        law_offset_stays_zero_unless_rolled(
            program_id,
            rent_minimum,
            states.drop_last(),
            events.drop_last(),
        );
        law_history_accounts(program_id, rent_minimum, states.drop_last(), events.drop_last());
        lemma_event(program_id, states.drop_last().last(), events.last(), states.last());
    }
}

/// What was agreed at the funding holds for good: every later state of the vault has the
/// parties and the terms of the funding's arguments, field for field.
pub proof fn law_terms_stay_as_agreed(
    accounts: FundVault,
    args: FundVaultArgs,
    program_id: Pubkey,
    found: Option<(Pubkey, u8)>,
    rent_minimum: u64,
    opening: Opening,
    states: Seq<VaultAccount>,
    events: Seq<Event>,
    i: int,
)
    requires
        is_history(program_id, rent_minimum, states, events),
        funds(accounts, args, program_id, found, rent_minimum, opening, states[0]),
        0 <= i < states.len(),
    ensures
        ({
            let v = states[i].state;
            &&& v.main_contractor == accounts.main_contractor.info.key
            &&& v.rent_payer == accounts.rent_payer.info.key
            &&& v.subcontractor == args.subcontractor
            &&& v.certifier == args.certifier
            &&& v.adjudicator == args.adjudicator
            &&& v.demo_authority == args.demo_authority
            &&& v.project_id@ == args.project_id@
            &&& v.amount == args.amount
            &&& v.practical_completion_ts == args.practical_completion_ts
            &&& v.dlp_days == args.dlp_days
            &&& v.grace_days == args.grace_days
            &&& v.release_schedule_bps == args.release_schedule_bps
            &&& found matches Some((key, bump)) && v.bump == bump && states[i].info.key == key
        }),
{
    lemma_prefix(program_id, rent_minimum, states, events, i);
    law_history_accounts(program_id, rent_minimum, states.take(i + 1), events.take(i));
    crate::effects::law_funding_stores_what_was_agreed(
        accounts,
        args,
        found->Some_0.1,
        opening.funding,
    );
}

/// No claim on a vault goes through before the time that was agreed at its funding:
/// completion plus the days of the defects-liability period and of grace. In a production
/// build that is the time the runtime's clock answered.
pub proof fn law_no_claim_before_the_agreed_time(
    accounts: FundVault,
    args: FundVaultArgs,
    program_id: Pubkey,
    found: Option<(Pubkey, u8)>,
    rent_minimum: u64,
    opening: Opening,
    states: Seq<VaultAccount>,
    events: Seq<Event>,
    i: int,
)
    requires
        is_history(program_id, rent_minimum, states, events),
        funds(accounts, args, program_id, found, rent_minimum, opening, states[0]),
        0 <= i < events.len(),
    ensures
        events[i] matches Event::Claim { build, now, done: Ok(()), .. } ==> {
            let agreed = args.practical_completion_ts + args.dlp_days * 86_400 + args.grace_days
                * 86_400;
            &&& now is Ok
            &&& build == Build::Production ==> now->Ok_0 >= agreed
            &&& build == Build::Demo ==> now->Ok_0 + states[i].state.clock_offset >= agreed
        },
{
    law_terms_stay_as_agreed(
        accounts,
        args,
        program_id,
        found,
        rent_minimum,
        opening,
        states,
        events,
        i,
    );
    assert(happens(program_id, states[i], events[i], states[i + 1]));
    if let Event::Claim { before, after, build, now, rent, done } = events[i] {
        if done is Ok {
            crate::effects::law_claim_takes_everything_undisputed(
                before,
                build,
                now,
                rent,
                after,
                done,
            );
        }
    }
}

/// At every point of its history nothing is frozen, and the released total is nothing, the
/// certified share of the amount in basis points rounded down, or the whole amount.
pub proof fn law_released_total_takes_three_values(
    program_id: Pubkey,
    rent_minimum: u64,
    states: Seq<VaultAccount>,
    events: Seq<Event>,
)
    requires
        is_history(program_id, rent_minimum, states, events),
    ensures
        ({
            let v = states.last().state;
            let released = v.released_cumulative;
            &&& v.aggregate_frozen == 0
            &&& v.status == 0 || v.status == 1
            &&& v.cpc_attested <==> v.status == 1
            &&& released == v.amount || (!v.cpc_attested && released == 0) || (v.cpc_attested
                && released * 10_000 <= v.amount * v.release_schedule_bps < (released + 1)
                * 10_000)
        }),
{
    law_history_accounts(program_id, rent_minimum, states, events);
}

} // verus!
