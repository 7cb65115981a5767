//! The payout engine.
//!
//! For each contributor of a purchased dataset a fixed reward is split: 85
//! percent go to the contributor and the rest to the platform treasury. The
//! treasury's part is what is left of the reward after the contributor's part,
//! so the two parts always add up to the reward. A payout pays every
//! contributor or nobody.

use crate::address::{address_views, optional_view, Address};
use crate::asset_ledger::{moved, transfer_outcome, AssetLedger, Balances};
use vstd::prelude::*;

verus! {

/// The reward per contributor and purchase: 10 units with 7 decimal places.
pub const BASE_REWARD: i128 = 10_0000000;

/// The contributor's part of a reward, in percent.
pub const CONTRIBUTOR_PERCENT: i128 = 85;

/// The platform's part of a reward, in percent.
pub const PLATFORM_PERCENT: i128 = 15;

/// The event written for each contributor that a payout has paid.
#[derive(Debug, PartialEq, Eq)]
pub struct ContributorRewarded {
    pub dataset_id: Vec<u8>,
    pub contributor: Address,
    pub user_amount: i128,
    pub platform_amount: i128,
}

/// The event written once a payout has paid all contributors.
#[derive(Debug, PartialEq, Eq)]
pub struct DatasetPayoutCompleted {
    pub dataset_id: Vec<u8>,
    pub num_contributors: u32,
    pub total_user_amount: i128,
    pub total_platform_amount: i128,
}

/// An entry of the payout engine's event log.
#[derive(Debug, PartialEq, Eq)]
pub enum Event {
    ContributorRewarded(ContributorRewarded),
    DatasetPayoutCompleted(DatasetPayoutCompleted),
}

/// Why the payout engine refused a request.
#[derive(Clone, Copy, Debug, PartialEq, Eq)]
pub enum Error {
    NotInitialized,
    InvalidContributors,
    InvalidAmount,
    TransferFailed,
    TreasuryNotSet,
    TokenNotSet,
}

/// What a `ContributorRewarded` event holds.
pub struct ContributorRewardedView {
    pub dataset_id: Seq<u8>,
    pub contributor: Seq<u8>,
    pub user_amount: int,
    pub platform_amount: int,
}

/// What a `DatasetPayoutCompleted` event holds.
pub struct DatasetPayoutCompletedView {
    pub dataset_id: Seq<u8>,
    pub num_contributors: int,
    pub total_user_amount: int,
    pub total_platform_amount: int,
}

/// What an entry of the event log holds.
pub enum EventView {
    ContributorRewarded(ContributorRewardedView),
    DatasetPayoutCompleted(DatasetPayoutCompletedView),
}

impl View for ContributorRewarded {
    type V = ContributorRewardedView;

    open spec fn view(&self) -> ContributorRewardedView {
        ContributorRewardedView {
            dataset_id: self.dataset_id@,
            contributor: self.contributor@,
            user_amount: self.user_amount as int,
            platform_amount: self.platform_amount as int,
        }
    }
}

impl View for DatasetPayoutCompleted {
    type V = DatasetPayoutCompletedView;

    open spec fn view(&self) -> DatasetPayoutCompletedView {
        DatasetPayoutCompletedView {
            dataset_id: self.dataset_id@,
            num_contributors: self.num_contributors as int,
            total_user_amount: self.total_user_amount as int,
            total_platform_amount: self.total_platform_amount as int,
        }
    }
}

impl View for Event {
    type V = EventView;

    open spec fn view(&self) -> EventView {
        match self {
            Event::ContributorRewarded(e) => EventView::ContributorRewarded(e@),
            Event::DatasetPayoutCompleted(e) => EventView::DatasetPayoutCompleted(e@),
        }
    }
}

impl Clone for ContributorRewarded {
    fn clone(&self) -> (copy: Self)
        ensures
            copy@ == self@,
    {
        let dataset_id = self.dataset_id.clone();
        assert(dataset_id@ =~= self.dataset_id@);
        ContributorRewarded {
            dataset_id,
            contributor: self.contributor.clone(),
            user_amount: self.user_amount,
            platform_amount: self.platform_amount,
        }
    }
}

impl Clone for DatasetPayoutCompleted {
    fn clone(&self) -> (copy: Self)
        ensures
            copy@ == self@,
    {
        let dataset_id = self.dataset_id.clone();
        assert(dataset_id@ =~= self.dataset_id@);
        DatasetPayoutCompleted {
            dataset_id,
            num_contributors: self.num_contributors,
            total_user_amount: self.total_user_amount,
            total_platform_amount: self.total_platform_amount,
        }
    }
}

impl Clone for Event {
    fn clone(&self) -> (copy: Self)
        ensures
            copy@ == self@,
    {
        match self {
            Event::ContributorRewarded(e) => Event::ContributorRewarded(e.clone()),
            Event::DatasetPayoutCompleted(e) => Event::DatasetPayoutCompleted(e.clone()),
        }
    }
}

/// The contributor's part of a reward: 85 percent of it, rounded down.
pub open spec fn user_share(base_reward: int) -> int {
    base_reward * 85 / 100
}

/// The platform's part of a reward: what the contributor's part leaves of it.
pub open spec fn platform_share(base_reward: int) -> int {
    base_reward - user_share(base_reward)
}

/// How a reward is split. A reward of which either part would not be above
/// zero is refused.
pub open spec fn split_outcome(base_reward: int) -> Result<(int, int), Error> {
    if user_share(base_reward) <= 0 || platform_share(base_reward) <= 0 {
        Err(Error::InvalidAmount)
    } else {
        Ok((user_share(base_reward), platform_share(base_reward)))
    }
}

/// What each contributor gets from a payout.
pub open spec fn user_amount() -> int {
    user_share(BASE_REWARD as int)
}

/// What the treasury gets for each contributor of a payout.
pub open spec fn platform_amount() -> int {
    platform_share(BASE_REWARD as int)
}

/// Splits a reward into the contributor's part and the platform's part.
/// Fails with `InvalidAmount` if either part would not be above zero.
pub fn split_reward(base_reward: i128) -> (parts: Result<(i128, i128), Error>)
    ensures
        match parts {
            Ok((user, platform)) => split_outcome(base_reward as int) == Ok::<(int, int), Error>(
                (user as int, platform as int),
            ),
            Err(e) => split_outcome(base_reward as int) == Err::<(int, int), Error>(e),
        },
{
    if base_reward <= 0 {
        return Err(Error::InvalidAmount);
    }
    // 85 percent of a reward is 85 times its hundredth part, plus 85 percent
    // of what is left below a hundred: no intermediate value leaves the range.
    let hundreds: i128 = base_reward / 100;
    let below: i128 = base_reward % 100;
    let user: i128 = hundreds * CONTRIBUTOR_PERCENT + below * CONTRIBUTOR_PERCENT / 100;
    let platform: i128 = base_reward - user;
    if user <= 0 || platform <= 0 {
        return Err(Error::InvalidAmount);
    }
    Ok((user, platform))
}

/// The balances after one contributor has been paid, or `None` if one of the
/// two transfers fails: the contributor's part first, then the treasury's.
pub open spec fn reward_one(
    balances: Balances,
    from: Seq<u8>,
    treasury: Seq<u8>,
    contributor: Seq<u8>,
) -> Option<Balances> {
    if transfer_outcome(balances, from, contributor, user_amount()) is Err {
        None
    } else {
        let paid = moved(balances, from, contributor, user_amount());
        if transfer_outcome(paid, from, treasury, platform_amount()) is Err {
            None
        } else {
            Some(moved(paid, from, treasury, platform_amount()))
        }
    }
}

/// The balances after all contributors have been paid in list order, or
/// `None` if any transfer on the way fails.
pub open spec fn reward_all(
    balances: Balances,
    from: Seq<u8>,
    treasury: Seq<u8>,
    contributors: Seq<Seq<u8>>,
) -> Option<Balances>
    decreases contributors.len(),
{
    if contributors.len() == 0 {
        Some(balances)
    } else {
        match reward_one(balances, from, treasury, contributors.first()) {
            None => None,
            Some(paid) => reward_all(paid, from, treasury, contributors.drop_first()),
        }
    }
}

/// The event for one paid contributor.
pub open spec fn rewarded_event(dataset_id: Seq<u8>, contributor: Seq<u8>) -> EventView {
    EventView::ContributorRewarded(
        ContributorRewardedView {
            dataset_id,
            contributor,
            user_amount: user_amount(),
            platform_amount: platform_amount(),
        },
    )
}

/// The event that closes a payout to `count` contributors.
pub open spec fn completed_event(dataset_id: Seq<u8>, count: int) -> EventView {
    EventView::DatasetPayoutCompleted(
        DatasetPayoutCompletedView {
            dataset_id,
            num_contributors: count,
            total_user_amount: count * user_amount(),
            total_platform_amount: count * platform_amount(),
        },
    )
}

/// The events of a payout: one per contributor, in list order, then the
/// closing event with the totals.
pub open spec fn payout_events(dataset_id: Seq<u8>, contributors: Seq<Seq<u8>>) -> Seq<EventView> {
    Seq::new(contributors.len(), |i: int| rewarded_event(dataset_id, contributors[i])).push(
        completed_event(dataset_id, contributors.len() as int),
    )
}

/// The payout engine as a value.
pub struct SplitterState {
    /// The account that the engine pays from.
    pub address: Seq<u8>,
    /// The asset ledger's reference, once configured.
    pub usdc_token: Option<Seq<u8>>,
    /// The treasury's account, once configured.
    pub treasury: Option<Seq<u8>>,
    /// The event log, oldest first.
    pub events: Seq<EventView>,
}

impl SplitterState {
    /// How a payout ends. An empty list is refused before the configuration
    /// is looked at; then the asset ledger's reference is required, then the
    /// treasury; then every transfer has to succeed.
    pub open spec fn payout_outcome(self, balances: Balances, contributors: Seq<Seq<u8>>)
        -> Result<(), Error> {
        if contributors.len() == 0 {
            Err(Error::InvalidContributors)
        } else if self.usdc_token is None {
            Err(Error::TokenNotSet)
        } else if self.treasury is None {
            Err(Error::TreasuryNotSet)
        } else if reward_all(balances, self.address, self.treasury->0, contributors) is None {
            Err(Error::TransferFailed)
        } else {
            Ok(())
        }
    }

    /// The engine after a payout: the payout's events are logged if it
    /// succeeded, nothing has changed if it failed.
    pub open spec fn after_payout(
        self,
        balances: Balances,
        dataset_id: Seq<u8>,
        contributors: Seq<Seq<u8>>,
    ) -> SplitterState {
        if self.payout_outcome(balances, contributors) is Ok {
            SplitterState { events: self.events + payout_events(dataset_id, contributors), ..self }
        } else {
            self
        }
    }

    /// The balances after a payout: every contributor and the treasury are
    /// paid if it succeeded, nothing has moved if it failed.
    pub open spec fn balances_after_payout(self, balances: Balances, contributors: Seq<Seq<u8>>)
        -> Balances {
        if self.payout_outcome(balances, contributors) is Ok {
            reward_all(balances, self.address, self.treasury->0, contributors)->0
        } else {
            balances
        }
    }

    /// The configured asset ledger's reference.
    pub open spec fn usdc_token_outcome(self) -> Result<Seq<u8>, Error> {
        match self.usdc_token {
            Some(token) => Ok(token),
            None => Err(Error::TokenNotSet),
        }
    }

    /// The configured treasury.
    pub open spec fn treasury_outcome(self) -> Result<Seq<u8>, Error> {
        match self.treasury {
            Some(treasury) => Ok(treasury),
            None => Err(Error::TreasuryNotSet),
        }
    }

    /// The configuration: the asset ledger's reference and the treasury. The
    /// error names the first of the two that is missing.
    pub open spec fn config_outcome(self) -> Result<(Seq<u8>, Seq<u8>), Error> {
        if self.usdc_token is None {
            Err(Error::TokenNotSet)
        } else if self.treasury is None {
            Err(Error::TreasuryNotSet)
        } else {
            Ok((self.usdc_token->0, self.treasury->0))
        }
    }
}

/// The payout engine: its own account, its configuration and its event log.
pub struct RevenueSplitter {
    address: Address,
    usdc_token: Option<Address>,
    treasury: Option<Address>,
    events: Vec<Event>,
}

impl View for RevenueSplitter {
    type V = SplitterState;

    closed spec fn view(&self) -> SplitterState {
        SplitterState {
            address: self.address@,
            usdc_token: optional_view(self.usdc_token),
            treasury: optional_view(self.treasury),
            events: self.events@.map_values(|e: Event| e@),
        }
    }
}

impl RevenueSplitter {
    /// A payout engine that pays from the account `address`. It is not
    /// configured yet and has logged nothing.
    pub fn new(address: Address) -> (splitter: RevenueSplitter)
        ensures
            splitter@ == (SplitterState {
                address: address@,
                usdc_token: None,
                treasury: None,
                events: Seq::empty(),
            }),
    {
        let splitter = RevenueSplitter {
            address,
            usdc_token: None,
            treasury: None,
            events: Vec::new(),
        };
        assert(splitter@.events =~= Seq::empty());
        splitter
    }

    /// Configures the asset ledger's reference and the treasury. Calling it
    /// again replaces both.
    pub fn init(&mut self, usdc_token: Address, treasury: Address) -> (outcome: Result<(), Error>)
        ensures
            outcome is Ok,
            final(self)@ == (SplitterState {
                usdc_token: Some(usdc_token@),
                treasury: Some(treasury@),
                ..old(self)@
            }),
    {
        self.usdc_token = Some(usdc_token);
        self.treasury = Some(treasury);
        Ok(())
    }

    /// Pays the contributors of a purchased dataset.
    ///
    /// Refused, in this order: an empty list (`InvalidContributors`), a
    /// missing asset ledger reference (`TokenNotSet`), a missing treasury
    /// (`TreasuryNotSet`). Then, for each contributor in list order, the
    /// contributor's part of the reward goes from the engine's account to the
    /// contributor and the platform's part to the treasury. If any transfer
    /// fails the payout fails with `TransferFailed`, and neither the ledger
    /// nor the event log has changed. Otherwise a `ContributorRewarded` event
    /// per contributor and one `DatasetPayoutCompleted` event are logged.
    pub fn payout_for_dataset(
        &mut self,
        ledger: &mut AssetLedger,
        dataset_id: Vec<u8>,
        contributors: Vec<Address>,
    ) -> (outcome: Result<(), Error>)
        requires
            contributors@.len() <= u32::MAX,
        ensures
            outcome == old(self)@.payout_outcome(old(ledger)@, address_views(contributors@)),
            final(self)@ == old(self)@.after_payout(
                old(ledger)@,
                dataset_id@,
                address_views(contributors@),
            ),
            final(ledger)@ == old(self)@.balances_after_payout(
                old(ledger)@,
                address_views(contributors@),
            ),
    {
        if contributors.len() == 0 {
            return Err(Error::InvalidContributors);
        }
        if self.usdc_token.is_none() {
            return Err(Error::TokenNotSet);
        }
        let treasury: Address = match &self.treasury {
            Some(treasury) => treasury.clone(),
            None => {
                return Err(Error::TreasuryNotSet);
            },
        };
        let (user, platform): (i128, i128) = match split_reward(BASE_REWARD) {
            Ok(parts) => parts,
            Err(e) => {
                return Err(e);
            },
        };
        let ghost payees = address_views(contributors@);
        let ghost from = self.address@;
        // All transfers are made on a copy of the ledger, which replaces the
        // ledger only once every one of them has succeeded.
        let mut pending: AssetLedger = ledger.clone();
        let mut rewards: Vec<Event> = Vec::new();
        let mut total_user: i128 = 0;
        let mut total_platform: i128 = 0;
        let mut i: usize = 0;
        assert(payees.skip(0) =~= payees);
        while i < contributors.len()
            invariant
                0 <= i <= contributors@.len(),
                0 < contributors@.len() <= u32::MAX,
                *self == *old(self),
                *ledger == *old(ledger),
                self@.usdc_token is Some,
                self@.treasury == Some(treasury@),
                payees == address_views(contributors@),
                from == self.address@,
                user == user_amount(),
                platform == platform_amount(),
                user == 85000000,
                platform == 15000000,
                reward_all(old(ledger)@, from, treasury@, payees) == reward_all(
                    pending@,
                    from,
                    treasury@,
                    payees.skip(i as int),
                ),
                total_user == i * user_amount(),
                total_platform == i * platform_amount(),
                rewards@.map_values(|e: Event| e@) == Seq::new(
                    i as nat,
                    |k: int| rewarded_event(dataset_id@, payees[k]),
                ),
            decreases contributors@.len() - i,
        {
            let contributor = &contributors[i];
            proof {
                assert(payees.skip(i as int).first() == contributor@);
                assert(payees.skip(i as int).drop_first() =~= payees.skip(i + 1));
            }
            if pending.transfer(&self.address, contributor, user).is_err() {
                return Err(Error::TransferFailed);
            }
            if pending.transfer(&self.address, &treasury, platform).is_err() {
                return Err(Error::TransferFailed);
            }
            total_user = total_user + user;
            total_platform = total_platform + platform;
            let id = dataset_id.clone();
            assert(id@ =~= dataset_id@);
            let event = Event::ContributorRewarded(
                ContributorRewarded {
                    dataset_id: id,
                    contributor: contributor.clone(),
                    user_amount: user,
                    platform_amount: platform,
                },
            );
            proof {
                assert(event@ == rewarded_event(dataset_id@, payees[i as int]));
                assert(rewards@.push(event).map_values(|e: Event| e@) =~= rewards@.map_values(
                    |e: Event| e@,
                ).push(event@));
                assert(rewards@.map_values(|e: Event| e@).push(event@) =~= Seq::new(
                    (i + 1) as nat,
                    |k: int| rewarded_event(dataset_id@, payees[k]),
                ));
            }
            rewards.push(event);
            i += 1;
        }
        let completed = Event::DatasetPayoutCompleted(
            DatasetPayoutCompleted {
                dataset_id,
                num_contributors: contributors.len() as u32,
                total_user_amount: total_user,
                total_platform_amount: total_platform,
            },
        );
        proof {
            assert(payees.skip(payees.len() as int) =~= Seq::empty());
            assert((old(self).events@ + rewards@.push(completed)).map_values(|e: Event| e@)
                =~= old(self)@.events + payout_events(dataset_id@, payees));
        }
        rewards.push(completed);
        self.events.append(&mut rewards);
        *ledger = pending;
        Ok(())
    }

    /// The configured asset ledger's reference, or `TokenNotSet`.
    pub fn get_usdc_token(&self) -> (token: Result<Address, Error>)
        ensures
            match token {
                Ok(address) => self@.usdc_token_outcome() == Ok::<Seq<u8>, Error>(address@),
                Err(e) => self@.usdc_token_outcome() == Err::<Seq<u8>, Error>(e),
            },
    {
        match &self.usdc_token {
            Some(token) => Ok(token.clone()),
            None => Err(Error::TokenNotSet),
        }
    }

    /// The configured treasury, or `TreasuryNotSet`.
    pub fn get_treasury(&self) -> (treasury: Result<Address, Error>)
        ensures
            match treasury {
                Ok(address) => self@.treasury_outcome() == Ok::<Seq<u8>, Error>(address@),
                Err(e) => self@.treasury_outcome() == Err::<Seq<u8>, Error>(e),
            },
    {
        match &self.treasury {
            Some(treasury) => Ok(treasury.clone()),
            None => Err(Error::TreasuryNotSet),
        }
    }

    /// The configured asset ledger's reference and treasury, or the error of
    /// the first of the two that is missing.
    pub fn get_config(&self) -> (config: Result<(Address, Address), Error>)
        ensures
            match config {
                Ok((token, treasury)) => self@.config_outcome() == Ok::<(Seq<u8>, Seq<u8>), Error>(
                    (token@, treasury@),
                ),
                Err(e) => self@.config_outcome() == Err::<(Seq<u8>, Seq<u8>), Error>(e),
            },
    {
        match &self.usdc_token {
            Some(token) => match &self.treasury {
                Some(treasury) => Ok((token.clone(), treasury.clone())),
                None => Err(Error::TreasuryNotSet),
            },
            None => Err(Error::TokenNotSet),
        }
    }

    /// The account that the engine pays from.
    pub fn address(&self) -> (address: &Address)
        ensures
            address@ == self@.address,
    {
        &self.address
    }

    /// The events logged so far, oldest first.
    pub fn events(&self) -> (log: &Vec<Event>)
        ensures
            log@.map_values(|e: Event| e@) == self@.events,
    {
        &self.events
    }
}

/// The two parts of a reward add up to the reward exactly, whatever the
/// reward is: nothing is lost to rounding. Of the reward of 10.0000000 the
/// contributor's part is 8.5000000 and the platform's part 1.5000000.
pub proof fn law_split_is_exact(base_reward: int)
    ensures
        user_share(base_reward) + platform_share(base_reward) == base_reward,
        split_outcome(base_reward) matches Ok((user, platform)) ==> user + platform == base_reward
            && user > 0 && platform > 0,
        base_reward == BASE_REWARD ==> split_outcome(base_reward) == Ok::<(int, int), Error>(
            (85_000_000, 15_000_000),
        ) && user_amount() == 85_000_000 && platform_amount() == 15_000_000,
{
}

/// A payout to N contributors logs N + 1 events: for each contributor, in
/// list order, one with the parts 8.5000000 and 1.5000000, and a last one
/// with N and the totals N times 8.5000000 and N times 1.5000000.
pub proof fn law_payout_events(dataset_id: Seq<u8>, contributors: Seq<Seq<u8>>, i: int)
    requires
        0 <= i < contributors.len(),
    ensures
        payout_events(dataset_id, contributors).len() == contributors.len() + 1,
        payout_events(dataset_id, contributors)[i] == EventView::ContributorRewarded(
            ContributorRewardedView {
                dataset_id,
                contributor: contributors[i],
                user_amount: 85_000_000,
                platform_amount: 15_000_000,
            },
        ),
        payout_events(dataset_id, contributors).last() == EventView::DatasetPayoutCompleted(
            DatasetPayoutCompletedView {
                dataset_id,
                num_contributors: contributors.len() as int,
                total_user_amount: contributors.len() as int * 85_000_000,
                total_platform_amount: contributors.len() as int * 15_000_000,
            },
        ),
{
}

/// A payout to nobody always fails with `InvalidContributors`, whether the
/// engine is configured or not, and moves and logs nothing.
pub proof fn law_empty_payout_refused(splitter: SplitterState, balances: Balances, dataset_id: Seq<u8>)
    ensures
        splitter.payout_outcome(balances, Seq::empty()) == Err::<(), Error>(
            Error::InvalidContributors,
        ),
        splitter.after_payout(balances, dataset_id, Seq::empty()) == splitter,
        splitter.balances_after_payout(balances, Seq::empty()) == balances,
{
}

/// A payout that fails, for whatever reason, moves and logs nothing; one
/// that succeeds logs exactly its events after those that were there.
pub proof fn law_payout_is_all_or_nothing(
    splitter: SplitterState,
    balances: Balances,
    dataset_id: Seq<u8>,
    contributors: Seq<Seq<u8>>,
)
    ensures
        splitter.payout_outcome(balances, contributors) is Err ==> {
            &&& splitter.after_payout(balances, dataset_id, contributors) == splitter
            &&& splitter.balances_after_payout(balances, contributors) == balances
        },
        splitter.payout_outcome(balances, contributors) is Ok ==> {
            &&& splitter.after_payout(balances, dataset_id, contributors).events
                == splitter.events + payout_events(dataset_id, contributors)
            &&& Some(splitter.balances_after_payout(balances, contributors)) == reward_all(
                balances,
                splitter.address,
                splitter.treasury->0,
                contributors,
            )
        },
{
}

/// Right after `init`, the getters give what was configured.
pub proof fn law_configuration_is_read_back(splitter: SplitterState, usdc_token: Seq<u8>, treasury: Seq<u8>)
    ensures
        ({
            let configured = SplitterState {
                usdc_token: Some(usdc_token),
                treasury: Some(treasury),
                ..splitter
            };
            &&& configured.usdc_token_outcome() == Ok::<Seq<u8>, Error>(usdc_token)
            &&& configured.treasury_outcome() == Ok::<Seq<u8>, Error>(treasury)
            &&& configured.config_outcome() == Ok::<(Seq<u8>, Seq<u8>), Error>(
                (usdc_token, treasury),
            )
        }),
{
}

/// A payout that succeeds takes the whole reward for every contributor from
/// the engine's account, if the engine is neither a contributor nor the
/// treasury. If the treasury is no contributor either, it gains its part for
/// every contributor.
pub proof fn law_payout_moves_whole_rewards(
    balances: Balances,
    from: Seq<u8>,
    treasury: Seq<u8>,
    contributors: Seq<Seq<u8>>,
)
    requires
        from != treasury,
        forall|i: int| 0 <= i < contributors.len() ==> contributors[i] != from,
        reward_all(balances, from, treasury, contributors) is Some,
    ensures
        ({
            let after = reward_all(balances, from, treasury, contributors)->0;
            &&& after[from] == balances[from] - contributors.len() * BASE_REWARD
            &&& (forall|i: int| 0 <= i < contributors.len() ==> contributors[i] != treasury)
                ==> after[treasury] == balances[treasury] + contributors.len()
                * platform_amount()
        }),
    decreases contributors.len(),
{
    if contributors.len() > 0 {
        let rest = contributors.drop_first();
        let paid = reward_one(balances, from, treasury, contributors.first())->0;
        assert(contributors.first() == contributors[0]);
        assert forall|i: int| 0 <= i < rest.len() implies rest[i] != from by {
            assert(rest[i] == contributors[i + 1]);
        }
        law_payout_moves_whole_rewards(paid, from, treasury, rest);
        if forall|i: int| 0 <= i < contributors.len() ==> contributors[i] != treasury {
            assert forall|i: int| 0 <= i < rest.len() implies rest[i] != treasury by {
                assert(rest[i] == contributors[i + 1]);
            }
        }
        assert(contributors.len() * BASE_REWARD == rest.len() * BASE_REWARD + BASE_REWARD)
            by (nonlinear_arith)
            requires
                contributors.len() == rest.len() + 1,
        ;
        assert(contributors.len() * platform_amount() == rest.len() * platform_amount()
            + platform_amount()) by (nonlinear_arith)
            requires
                contributors.len() == rest.len() + 1,
        ;
    }
}

} // verus!
