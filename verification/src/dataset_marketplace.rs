//! The catalog of purchasable datasets, and the purchase of one.
//!
//! A dataset bundles studies and has a price. A purchase finds the
//! contributors of the bundled studies in the study registry, has the payout
//! engine pay them, and only then records the purchase. A purchase that fails
//! at any step leaves the catalog, the payout engine and the asset ledger as
//! they were.

use crate::address::{address_views, optional_view, Address};
use crate::asset_ledger::{AssetLedger, Balances};
use crate::keyed::{entries_map, lemma_entries_absent, lemma_entries_latest, lemma_entries_push};
use crate::octets::{big_endian, bytes_equal, hash_from_bytes, push_big_endian};
use crate::revenue_splitter::{RevenueSplitter, SplitterState};
use crate::study_registry::{RegistryState, StudyRecordView, StudyRegistry};
use vstd::prelude::*;

verus! {

/// A purchasable bundle of studies. The price has 7 decimal places.
#[derive(Debug, PartialEq, Eq)]
pub struct Dataset {
    pub dataset_id: Vec<u8>,
    pub study_ids: Vec<Vec<u8>>,
    pub price_usdc: i128,
}

/// The record of one purchase: who bought which dataset, for how much, the
/// reference that stands for the payment, and the ledger time.
#[derive(Debug, PartialEq, Eq)]
pub struct PurchaseRecord {
    pub buyer: Address,
    pub dataset_id: Vec<u8>,
    pub amount: i128,
    pub tx_hash: Vec<u8>,
    pub timestamp: u64,
}

/// Why the marketplace refused a request.
#[derive(Clone, Copy, Debug, PartialEq, Eq)]
pub enum Error {
    DatasetNotFound,
    DatasetAlreadyExists,
    InvalidPrice,
    PaymentFailed,
    InvalidStudyIds,
    RevenueSplitterNotSet,
    StudyRegistryNotSet,
    ContributorLookupFailed,
}

/// The event written when a dataset is registered.
#[derive(Debug, PartialEq, Eq)]
pub struct DatasetRegisteredEventData {
    pub dataset_id: Vec<u8>,
    pub price_usdc: i128,
    pub study_count: u32,
}

/// The event written when a dataset is purchased.
#[derive(Debug, PartialEq, Eq)]
pub struct DatasetPurchasedEventData {
    pub buyer: Address,
    pub dataset_id: Vec<u8>,
    pub price_usdc: i128,
}

/// An entry of the marketplace's event log.
#[derive(Debug, PartialEq, Eq)]
pub enum Event {
    DatasetRegistered(DatasetRegisteredEventData),
    DatasetPurchased(DatasetPurchasedEventData),
}

/// What a dataset holds.
pub struct DatasetView {
    pub dataset_id: Seq<u8>,
    pub study_ids: Seq<Seq<u8>>,
    pub price_usdc: int,
}

/// What a purchase record holds.
pub struct PurchaseRecordView {
    pub buyer: Seq<u8>,
    pub dataset_id: Seq<u8>,
    pub amount: int,
    pub tx_hash: Seq<u8>,
    pub timestamp: u64,
}

/// What an entry of the event log holds.
pub enum EventView {
    DatasetRegistered { dataset_id: Seq<u8>, price_usdc: int, study_count: int },
    DatasetPurchased { buyer: Seq<u8>, dataset_id: Seq<u8>, price_usdc: int },
}

/// The byte strings of a list, in order.
pub open spec fn byte_views(list: Seq<Vec<u8>>) -> Seq<Seq<u8>> {
    list.map_values(|bytes: Vec<u8>| bytes@)
}

impl View for Dataset {
    type V = DatasetView;

    open spec fn view(&self) -> DatasetView {
        DatasetView {
            dataset_id: self.dataset_id@,
            study_ids: byte_views(self.study_ids@),
            price_usdc: self.price_usdc as int,
        }
    }
}

impl View for PurchaseRecord {
    type V = PurchaseRecordView;

    open spec fn view(&self) -> PurchaseRecordView {
        PurchaseRecordView {
            buyer: self.buyer@,
            dataset_id: self.dataset_id@,
            amount: self.amount as int,
            tx_hash: self.tx_hash@,
            timestamp: self.timestamp,
        }
    }
}

impl View for DatasetRegisteredEventData {
    type V = EventView;

    open spec fn view(&self) -> EventView {
        EventView::DatasetRegistered {
            dataset_id: self.dataset_id@,
            price_usdc: self.price_usdc as int,
            study_count: self.study_count as int,
        }
    }
}

impl View for DatasetPurchasedEventData {
    type V = EventView;

    open spec fn view(&self) -> EventView {
        EventView::DatasetPurchased {
            buyer: self.buyer@,
            dataset_id: self.dataset_id@,
            price_usdc: self.price_usdc as int,
        }
    }
}

impl View for Event {
    type V = EventView;

    open spec fn view(&self) -> EventView {
        match self {
            Event::DatasetRegistered(e) => e@,
            Event::DatasetPurchased(e) => e@,
        }
    }
}

/// A copy of a byte string.
fn copy_bytes(bytes: &Vec<u8>) -> (copy: Vec<u8>)
    ensures
        copy@ == bytes@,
{
    let copy = bytes.clone();
    assert(copy@ =~= bytes@);
    copy
}

impl Clone for Dataset {
    fn clone(&self) -> (copy: Self)
        ensures
            copy@ == self@,
    {
        let mut study_ids: Vec<Vec<u8>> = Vec::new();
        let mut i: usize = 0;
        while i < self.study_ids.len()
            invariant
                0 <= i <= self.study_ids@.len(),
                study_ids@.len() == i,
                forall|k: int| 0 <= k < i ==> study_ids@[k]@ == self.study_ids@[k]@,
            decreases self.study_ids@.len() - i,
        {
            study_ids.push(copy_bytes(&self.study_ids[i]));
            i += 1;
        }
        assert(byte_views(study_ids@) =~= byte_views(self.study_ids@));
        Dataset {
            dataset_id: copy_bytes(&self.dataset_id),
            study_ids,
            price_usdc: self.price_usdc,
        }
    }
}

impl Clone for PurchaseRecord {
    fn clone(&self) -> (copy: Self)
        ensures
            copy@ == self@,
    {
        PurchaseRecord {
            buyer: self.buyer.clone(),
            dataset_id: copy_bytes(&self.dataset_id),
            amount: self.amount,
            tx_hash: copy_bytes(&self.tx_hash),
            timestamp: self.timestamp,
        }
    }
}

impl Clone for DatasetRegisteredEventData {
    fn clone(&self) -> (copy: Self)
        ensures
            copy@ == self@,
    {
        DatasetRegisteredEventData {
            dataset_id: copy_bytes(&self.dataset_id),
            price_usdc: self.price_usdc,
            study_count: self.study_count,
        }
    }
}

impl Clone for DatasetPurchasedEventData {
    fn clone(&self) -> (copy: Self)
        ensures
            copy@ == self@,
    {
        DatasetPurchasedEventData {
            buyer: self.buyer.clone(),
            dataset_id: copy_bytes(&self.dataset_id),
            price_usdc: self.price_usdc,
        }
    }
}

impl Clone for Event {
    fn clone(&self) -> (copy: Self)
        ensures
            copy@ == self@,
    {
        match self {
            Event::DatasetRegistered(e) => Event::DatasetRegistered(e.clone()),
            Event::DatasetPurchased(e) => Event::DatasetPurchased(e.clone()),
        }
    }
}

/// What the payment check accepts: an amount above zero. It stands in for a
/// check of what the buyer can pay.
pub open spec fn payment_accepted(buyer: Seq<u8>, amount: int) -> bool {
    amount > 0
}

/// The contributor of the study with the given id, if the id is a content
/// hash of 32 bytes and a study is filed under it.
pub open spec fn contributor_of(studies: Map<Seq<u8>, StudyRecordView>, study_id: Seq<u8>)
    -> Option<Seq<u8>> {
    if study_id.len() == 32 && studies.contains_key(study_id) {
        Some(studies[study_id].contributor)
    } else {
        None
    }
}

/// `contributor_of` on given studies, as a function of the study id.
pub open spec fn resolver(studies: Map<Seq<u8>, StudyRecordView>) -> spec_fn(Seq<u8>) -> Option<
    Seq<u8>,
> {
    |study_id: Seq<u8>| contributor_of(studies, study_id)
}

/// The contributors of the given studies, in the order of the study ids. Ids
/// that are no content hash, and ids under which no study is filed, are
/// passed over.
pub open spec fn contributors_of(studies: Map<Seq<u8>, StudyRecordView>, study_ids: Seq<Seq<u8>>)
    -> Seq<Seq<u8>> {
    study_ids.filter_map(resolver(studies))
}

/// The five bytes that close every payment reference.
pub open spec fn buyer_tag() -> Seq<u8> {
    seq![98u8, 117u8, 121u8, 101u8, 114u8]
}

/// The reference that stands for the payment of a purchase: the dataset id,
/// the ledger time as eight bytes, most significant first, and the buyer tag.
pub open spec fn payment_reference(dataset_id: Seq<u8>, timestamp: u64) -> Seq<u8> {
    dataset_id + big_endian(timestamp) + buyer_tag()
}

/// Whether a dataset is as the catalog keeps it: an id and a study list that
/// are not empty, a study count that fits an event, and a price above zero.
pub open spec fn dataset_valid(dataset: DatasetView) -> bool {
    &&& dataset.dataset_id.len() > 0
    &&& 0 < dataset.study_ids.len() <= u32::MAX
    &&& 0 < dataset.price_usdc <= i128::MAX
}

/// The marketplace as a value.
pub struct MarketState {
    /// The catalog: datasets by id.
    pub datasets: Map<Seq<u8>, DatasetView>,
    /// The latest purchase of each dataset by each buyer.
    pub purchases: Map<(Seq<u8>, Seq<u8>), PurchaseRecordView>,
    /// The reference of the payout engine, once set.
    pub revenue_splitter: Option<Seq<u8>>,
    /// The reference of the study registry, once set.
    pub study_registry: Option<Seq<u8>>,
    /// The event log, oldest first.
    pub events: Seq<EventView>,
}

impl MarketState {
    /// The marketplace that holds nothing and is linked to nothing.
    pub open spec fn empty() -> MarketState {
        MarketState {
            datasets: Map::empty(),
            purchases: Map::empty(),
            revenue_splitter: None,
            study_registry: None,
            events: Seq::empty(),
        }
    }

    /// Whether every dataset in the catalog is valid and kept under its own id.
    pub open spec fn valid(self) -> bool {
        forall|id: Seq<u8>| #[trigger]
            self.datasets.contains_key(id) ==> self.datasets[id].dataset_id == id && dataset_valid(
                self.datasets[id],
            )
    }

    /// How a registration ends. Tested in this order: the id is not empty,
    /// the study list is not empty, the price is above zero, the id is new.
    pub open spec fn register_outcome(
        self,
        dataset_id: Seq<u8>,
        study_ids: Seq<Seq<u8>>,
        price_usdc: int,
    ) -> Result<(), Error> {
        if dataset_id.len() == 0 {
            Err(Error::DatasetNotFound)
        } else if study_ids.len() == 0 {
            Err(Error::InvalidStudyIds)
        } else if price_usdc <= 0 {
            Err(Error::InvalidPrice)
        } else if self.datasets.contains_key(dataset_id) {
            Err(Error::DatasetAlreadyExists)
        } else {
            Ok(())
        }
    }

    /// The marketplace after a registration: the dataset is in the catalog
    /// and a `DatasetRegistered` event is logged if it was accepted, nothing
    /// has changed if it was refused.
    pub open spec fn after_register(
        self,
        dataset_id: Seq<u8>,
        study_ids: Seq<Seq<u8>>,
        price_usdc: int,
    ) -> MarketState {
        if self.register_outcome(dataset_id, study_ids, price_usdc) is Ok {
            MarketState {
                datasets: self.datasets.insert(
                    dataset_id,
                    DatasetView { dataset_id, study_ids, price_usdc },
                ),
                events: self.events.push(
                    EventView::DatasetRegistered {
                        dataset_id,
                        price_usdc,
                        study_count: study_ids.len() as int,
                    },
                ),
                ..self
            }
        } else {
            self
        }
    }

    /// The dataset kept under an id.
    pub open spec fn dataset(self, dataset_id: Seq<u8>) -> Result<DatasetView, Error> {
        if self.datasets.contains_key(dataset_id) {
            Ok(self.datasets[dataset_id])
        } else {
            Err(Error::DatasetNotFound)
        }
    }

    /// The latest purchase of a dataset by a buyer.
    pub open spec fn purchase(self, dataset_id: Seq<u8>, buyer: Seq<u8>) -> Result<
        PurchaseRecordView,
        Error,
    > {
        if self.purchases.contains_key((dataset_id, buyer)) {
            Ok(self.purchases[(dataset_id, buyer)])
        } else {
            Err(Error::DatasetNotFound)
        }
    }

    /// The contributors that a purchase of the dataset pays.
    pub open spec fn payees(self, registry: RegistryState, dataset_id: Seq<u8>) -> Seq<Seq<u8>> {
        contributors_of(registry.studies, self.datasets[dataset_id].study_ids)
    }

    /// How a purchase ends. Tested in this order: the dataset is in the
    /// catalog, the payment check accepts the buyer and the price, the payout
    /// engine is linked, the study registry is linked. Then, if the dataset
    /// has any contributor, the payout has to succeed.
    pub open spec fn purchase_outcome(
        self,
        registry: RegistryState,
        splitter: SplitterState,
        balances: Balances,
        dataset_id: Seq<u8>,
        buyer: Seq<u8>,
    ) -> Result<DatasetView, Error> {
        if !self.datasets.contains_key(dataset_id) {
            Err(Error::DatasetNotFound)
        } else if !payment_accepted(buyer, self.datasets[dataset_id].price_usdc) {
            Err(Error::PaymentFailed)
        } else if self.revenue_splitter is None {
            Err(Error::RevenueSplitterNotSet)
        } else if self.study_registry is None {
            Err(Error::StudyRegistryNotSet)
        } else if self.payees(registry, dataset_id).len() > 0 && splitter.payout_outcome(
            balances,
            self.payees(registry, dataset_id),
        ) is Err {
            Err(Error::PaymentFailed)
        } else {
            Ok(self.datasets[dataset_id])
        }
    }

    /// The record of a purchase.
    pub open spec fn purchase_record(self, dataset_id: Seq<u8>, buyer: Seq<u8>, timestamp: u64)
        -> PurchaseRecordView {
        PurchaseRecordView {
            buyer,
            dataset_id,
            amount: self.datasets[dataset_id].price_usdc,
            tx_hash: payment_reference(dataset_id, timestamp),
            timestamp,
        }
    }

    /// The marketplace after a purchase: the purchase is recorded and a
    /// `DatasetPurchased` event is logged if it succeeded, nothing has
    /// changed if it failed.
    pub open spec fn after_purchase(
        self,
        registry: RegistryState,
        splitter: SplitterState,
        balances: Balances,
        dataset_id: Seq<u8>,
        buyer: Seq<u8>,
        timestamp: u64,
    ) -> MarketState {
        if self.purchase_outcome(registry, splitter, balances, dataset_id, buyer) is Ok {
            MarketState {
                purchases: self.purchases.insert(
                    (dataset_id, buyer),
                    self.purchase_record(dataset_id, buyer, timestamp),
                ),
                events: self.events.push(
                    EventView::DatasetPurchased {
                        buyer,
                        dataset_id,
                        price_usdc: self.datasets[dataset_id].price_usdc,
                    },
                ),
                ..self
            }
        } else {
            self
        }
    }

    /// The payout engine after a purchase: it has paid and logged the payout
    /// if the purchase succeeded and the dataset has a contributor, and has
    /// not changed otherwise.
    pub open spec fn splitter_after_purchase(
        self,
        registry: RegistryState,
        splitter: SplitterState,
        balances: Balances,
        dataset_id: Seq<u8>,
        buyer: Seq<u8>,
    ) -> SplitterState {
        if self.purchase_outcome(registry, splitter, balances, dataset_id, buyer) is Ok {
            splitter.after_payout(balances, dataset_id, self.payees(registry, dataset_id))
        } else {
            splitter
        }
    }

    /// The balances after a purchase: the contributors and the treasury are
    /// paid if the purchase succeeded and the dataset has a contributor, and
    /// nothing has moved otherwise.
    pub open spec fn balances_after_purchase(
        self,
        registry: RegistryState,
        splitter: SplitterState,
        balances: Balances,
        dataset_id: Seq<u8>,
        buyer: Seq<u8>,
    ) -> Balances {
        if self.purchase_outcome(registry, splitter, balances, dataset_id, buyer) is Ok {
            splitter.balances_after_payout(balances, self.payees(registry, dataset_id))
        } else {
            balances
        }
    }
}

/// The entries that a list of datasets stands for: each under its id.
pub open spec fn dataset_entries(datasets: Seq<Dataset>) -> Seq<(Seq<u8>, DatasetView)> {
    datasets.map_values(|d: Dataset| (d.dataset_id@, d@))
}

/// The entries that a list of purchase records stands for: each under its
/// dataset id and buyer.
pub open spec fn purchase_entries(records: Seq<PurchaseRecord>) -> Seq<
    ((Seq<u8>, Seq<u8>), PurchaseRecordView),
> {
    records.map_values(|r: PurchaseRecord| ((r.dataset_id@, r.buyer@), r@))
}

/// The catalog of datasets and the record of their purchases, with the links
/// to the payout engine and the study registry, and the event log.
pub struct DatasetMarketplace {
    datasets: Vec<Dataset>,
    purchases: Vec<PurchaseRecord>,
    revenue_splitter: Option<Address>,
    study_registry: Option<Address>,
    events: Vec<Event>,
}

impl View for DatasetMarketplace {
    type V = MarketState;

    closed spec fn view(&self) -> MarketState {
        MarketState {
            datasets: entries_map(dataset_entries(self.datasets@)),
            purchases: entries_map(purchase_entries(self.purchases@)),
            revenue_splitter: optional_view(self.revenue_splitter),
            study_registry: optional_view(self.study_registry),
            events: self.events@.map_values(|e: Event| e@),
        }
    }
}

impl DatasetMarketplace {
    /// A marketplace with an empty catalog, no purchases and no links.
    pub fn new() -> (market: DatasetMarketplace)
        ensures
            market@ == MarketState::empty(),
            market@.valid(),
    {
        let market = DatasetMarketplace {
            datasets: Vec::new(),
            purchases: Vec::new(),
            revenue_splitter: None,
            study_registry: None,
            events: Vec::new(),
        };
        assert(market@.events =~= Seq::empty());
        market
    }

    /// The marketplace that holds the given datasets, each under its id, and
    /// the given purchase records, each under its dataset and buyer, with the
    /// given links, and has logged nothing yet. `None` if any of the datasets
    /// is not valid. Of two entries under one key the later one counts.
    pub fn restore(
        datasets: Vec<Dataset>,
        purchases: Vec<PurchaseRecord>,
        revenue_splitter: Option<Address>,
        study_registry: Option<Address>,
    ) -> (market: Option<DatasetMarketplace>)
        ensures
            market is Some <==> forall|i: int|
                0 <= i < datasets@.len() ==> dataset_valid(#[trigger] datasets@[i]@),
            market is Some ==> market->0@.valid() && market->0@ == (MarketState {
                datasets: entries_map(dataset_entries(datasets@)),
                purchases: entries_map(purchase_entries(purchases@)),
                revenue_splitter: optional_view(revenue_splitter),
                study_registry: optional_view(study_registry),
                events: Seq::empty(),
            }),
    {
        let mut i: usize = 0;
        while i < datasets.len()
            invariant
                0 <= i <= datasets@.len(),
                forall|k: int| 0 <= k < i ==> dataset_valid(#[trigger] datasets@[k]@),
            decreases datasets@.len() - i,
        {
            if !Self::is_valid(&datasets[i]) {
                return None;
            }
            i += 1;
        }
        proof {
            lemma_valid_datasets_valid_catalog(datasets@);
        }
        let market = DatasetMarketplace {
            datasets,
            purchases,
            revenue_splitter,
            study_registry,
            events: Vec::new(),
        };
        assert(market@.events =~= Seq::empty());
        Some(market)
    }

    /// Whether a dataset is as the catalog keeps it.
    pub fn is_valid(dataset: &Dataset) -> (valid: bool)
        ensures
            valid == dataset_valid(dataset@),
    {
        dataset.dataset_id.len() > 0 && dataset.study_ids.len() > 0 && dataset.study_ids.len()
            <= u32::MAX as usize && dataset.price_usdc > 0
    }

    /// Where the dataset kept under `dataset_id` stands, if there is one.
    fn dataset_position(&self, dataset_id: &Vec<u8>) -> (at: Option<usize>)
        ensures
            at is Some <==> self@.datasets.contains_key(dataset_id@),
            at is Some ==> at->0 < self.datasets@.len() && self.datasets@[at->0 as int]@
                == self@.datasets[dataset_id@],
    {
        let mut i: usize = self.datasets.len();
        while i > 0
            invariant
                0 <= i <= self.datasets@.len(),
                forall|j: int|
                    i <= j < self.datasets@.len() ==> self.datasets@[j].dataset_id@ != dataset_id@,
            decreases i,
        {
            i -= 1;
            if bytes_equal(&self.datasets[i].dataset_id, dataset_id) {
                proof {
                    lemma_entries_latest(dataset_entries(self.datasets@), i as int);
                }
                return Some(i);
            }
        }
        proof {
            lemma_entries_absent(dataset_entries(self.datasets@), dataset_id@);
        }
        None
    }

    /// Where the latest purchase of `dataset_id` by `buyer` stands, if there
    /// is one.
    fn purchase_position(&self, dataset_id: &Vec<u8>, buyer: &Address) -> (at: Option<usize>)
        ensures
            at is Some <==> self@.purchases.contains_key((dataset_id@, buyer@)),
            at is Some ==> at->0 < self.purchases@.len() && self.purchases@[at->0 as int]@
                == self@.purchases[(dataset_id@, buyer@)],
    {
        let mut i: usize = self.purchases.len();
        while i > 0
            invariant
                0 <= i <= self.purchases@.len(),
                forall|j: int|
                    i <= j < self.purchases@.len() ==> (
                        self.purchases@[j].dataset_id@,
                        self.purchases@[j].buyer@,
                    ) != (dataset_id@, buyer@),
            decreases i,
        {
            i -= 1;
            if bytes_equal(&self.purchases[i].dataset_id, dataset_id) && self.purchases[i].buyer.same_as(
                buyer,
            ) {
                proof {
                    lemma_entries_latest(purchase_entries(self.purchases@), i as int);
                }
                return Some(i);
            }
        }
        proof {
            lemma_entries_absent(purchase_entries(self.purchases@), (dataset_id@, buyer@));
        }
        None
    }

    /// Registers a dataset for sale.
    ///
    /// Refused, in this order: an empty id (`DatasetNotFound`), an empty study
    /// list (`InvalidStudyIds`), a price that is not above zero
    /// (`InvalidPrice`), an id that is already in the catalog
    /// (`DatasetAlreadyExists`). An accepted dataset is kept under its id and
    /// a `DatasetRegistered` event is logged. A refused one changes nothing.
    pub fn register_dataset(
        &mut self,
        dataset_id: Vec<u8>,
        study_ids: Vec<Vec<u8>>,
        price_usdc: i128,
    ) -> (outcome: Result<(), Error>)
        requires
            old(self)@.valid(),
            study_ids@.len() <= u32::MAX,
        ensures
            outcome == old(self)@.register_outcome(
                dataset_id@,
                byte_views(study_ids@),
                price_usdc as int,
            ),
            final(self)@ == old(self)@.after_register(
                dataset_id@,
                byte_views(study_ids@),
                price_usdc as int,
            ),
            final(self)@.valid(),
    {
        if dataset_id.len() == 0 {
            return Err(Error::DatasetNotFound);
        }
        if study_ids.len() == 0 {
            return Err(Error::InvalidStudyIds);
        }
        if price_usdc <= 0 {
            return Err(Error::InvalidPrice);
        }
        if self.dataset_exists(&dataset_id) {
            return Err(Error::DatasetAlreadyExists);
        }
        let event = Event::DatasetRegistered(
            DatasetRegisteredEventData {
                dataset_id: copy_bytes(&dataset_id),
                price_usdc,
                study_count: study_ids.len() as u32,
            },
        );
        let dataset = Dataset { dataset_id, study_ids, price_usdc };
        proof {
            lemma_entries_push(dataset_entries(self.datasets@), dataset.dataset_id@, dataset@);
            assert(dataset_entries(self.datasets@.push(dataset)) =~= dataset_entries(
                self.datasets@,
            ).push((dataset.dataset_id@, dataset@)));
            assert(self.events@.push(event).map_values(|e: Event| e@) =~= self.events@.map_values(
                |e: Event| e@,
            ).push(event@));
        }
        self.datasets.push(dataset);
        self.events.push(event);
        Ok(())
    }

    /// Purchases a dataset for `buyer` at the ledger time `timestamp`.
    ///
    /// Refused, in this order: a dataset that is not in the catalog
    /// (`DatasetNotFound`), a payment that the payment check does not accept
    /// (`PaymentFailed`), a missing link to the payout engine
    /// (`RevenueSplitterNotSet`), a missing link to the study registry
    /// (`StudyRegistryNotSet`). Then the contributors of the dataset's studies
    /// are looked up in `registry`; study ids that are no content hash or
    /// under which nothing is filed are passed over. If there is any
    /// contributor, `splitter` pays them all on `ledger`; if that payout fails
    /// the purchase fails with `PaymentFailed`. Only then the purchase is
    /// recorded, a `DatasetPurchased` event is logged and the dataset is
    /// returned. A purchase that fails has changed nothing.
    pub fn purchase_dataset(
        &mut self,
        registry: &StudyRegistry,
        splitter: &mut RevenueSplitter,
        ledger: &mut AssetLedger,
        dataset_id: Vec<u8>,
        buyer: Address,
        timestamp: u64,
    ) -> (outcome: Result<Dataset, Error>)
        requires
            old(self)@.valid(),
        ensures
            match outcome {
                Ok(dataset) => old(self)@.purchase_outcome(
                    registry@,
                    old(splitter)@,
                    old(ledger)@,
                    dataset_id@,
                    buyer@,
                ) == Ok::<DatasetView, Error>(dataset@),
                Err(e) => old(self)@.purchase_outcome(
                    registry@,
                    old(splitter)@,
                    old(ledger)@,
                    dataset_id@,
                    buyer@,
                ) == Err::<DatasetView, Error>(e),
            },
            final(self)@ == old(self)@.after_purchase(
                registry@,
                old(splitter)@,
                old(ledger)@,
                dataset_id@,
                buyer@,
                timestamp,
            ),
            final(splitter)@ == old(self)@.splitter_after_purchase(
                registry@,
                old(splitter)@,
                old(ledger)@,
                dataset_id@,
                buyer@,
            ),
            final(ledger)@ == old(self)@.balances_after_purchase(
                registry@,
                old(splitter)@,
                old(ledger)@,
                dataset_id@,
                buyer@,
            ),
            final(self)@.valid(),
    {
        let dataset: Dataset = match self.dataset_position(&dataset_id) {
            Some(at) => self.datasets[at].clone(),
            None => {
                return Err(Error::DatasetNotFound);
            },
        };
        if !Self::verify_payment_mock(&buyer, dataset.price_usdc) {
            return Err(Error::PaymentFailed);
        }
        if self.revenue_splitter.is_none() {
            return Err(Error::RevenueSplitterNotSet);
        }
        let contributors: Vec<Address> = match self.get_contributors_from_studies(
            registry,
            &dataset.study_ids,
        ) {
            Ok(contributors) => contributors,
            Err(e) => {
                return Err(e);
            },
        };
        if contributors.len() > 0 {
            let paid = splitter.payout_for_dataset(ledger, copy_bytes(&dataset_id), contributors);
            if paid.is_err() {
                return Err(Error::PaymentFailed);
            }
        }
        let record = PurchaseRecord {
            buyer: buyer.clone(),
            dataset_id: copy_bytes(&dataset_id),
            amount: dataset.price_usdc,
            tx_hash: Self::generate_tx_hash(&dataset_id, &buyer, timestamp),
            timestamp,
        };
        let event = Event::DatasetPurchased(
            DatasetPurchasedEventData { buyer, dataset_id, price_usdc: dataset.price_usdc },
        );
        proof {
            lemma_entries_push(
                purchase_entries(self.purchases@),
                (record.dataset_id@, record.buyer@),
                record@,
            );
            assert(purchase_entries(self.purchases@.push(record)) =~= purchase_entries(
                self.purchases@,
            ).push(((record.dataset_id@, record.buyer@), record@)));
            assert(self.events@.push(event).map_values(|e: Event| e@) =~= self.events@.map_values(
                |e: Event| e@,
            ).push(event@));
        }
        self.purchases.push(record);
        self.events.push(event);
        Ok(dataset)
    }

    /// The dataset kept under `dataset_id`, or `DatasetNotFound`.
    pub fn get_dataset(&self, dataset_id: Vec<u8>) -> (found: Result<Dataset, Error>)
        ensures
            match found {
                Ok(dataset) => self@.dataset(dataset_id@) == Ok::<DatasetView, Error>(dataset@),
                Err(e) => self@.dataset(dataset_id@) == Err::<DatasetView, Error>(e),
            },
    {
        match self.dataset_position(&dataset_id) {
            Some(at) => Ok(self.datasets[at].clone()),
            None => Err(Error::DatasetNotFound),
        }
    }

    /// Whether a dataset is kept under `dataset_id`.
    pub fn dataset_exists(&self, dataset_id: &Vec<u8>) -> (exists: bool)
        ensures
            exists == self@.datasets.contains_key(dataset_id@),
    {
        self.dataset_position(dataset_id).is_some()
    }

    /// The latest purchase of `dataset_id` by `buyer`, or `DatasetNotFound`.
    pub fn get_purchase(&self, dataset_id: Vec<u8>, buyer: Address) -> (found: Result<
        PurchaseRecord,
        Error,
    >)
        ensures
            match found {
                Ok(record) => self@.purchase(dataset_id@, buyer@) == Ok::<
                    PurchaseRecordView,
                    Error,
                >(record@),
                Err(e) => self@.purchase(dataset_id@, buyer@) == Err::<PurchaseRecordView, Error>(
                    e,
                ),
            },
    {
        match self.purchase_position(&dataset_id, &buyer) {
            Some(at) => Ok(self.purchases[at].clone()),
            None => Err(Error::DatasetNotFound),
        }
    }

    /// The payment check: accepts an amount above zero.
    pub fn verify_payment_mock(buyer: &Address, amount: i128) -> (accepted: bool)
        ensures
            accepted == payment_accepted(buyer@, amount as int),
    {
        amount > 0
    }

    /// Links the marketplace to the payout engine at `revenue_splitter`.
    pub fn set_revenue_splitter(&mut self, revenue_splitter: Address) -> (outcome: Result<
        (),
        Error,
    >)
        ensures
            outcome is Ok,
            final(self)@ == (MarketState {
                revenue_splitter: Some(revenue_splitter@),
                ..old(self)@
            }),
    {
        self.revenue_splitter = Some(revenue_splitter);
        Ok(())
    }

    /// Links the marketplace to the study registry at `study_registry`.
    pub fn set_study_registry(&mut self, study_registry: Address) -> (outcome: Result<(), Error>)
        ensures
            outcome is Ok,
            final(self)@ == (MarketState { study_registry: Some(study_registry@), ..old(self)@ }),
    {
        self.study_registry = Some(study_registry);
        Ok(())
    }

    /// The contributors of the studies with the given ids, in the order of
    /// the ids, as `registry` knows them. Fails with `StudyRegistryNotSet` if
    /// the marketplace is not linked to a study registry. Ids that are no
    /// content hash of 32 bytes, and ids under which no study is filed, are
    /// passed over.
    pub fn get_contributors_from_studies(
        &self,
        registry: &StudyRegistry,
        study_ids: &Vec<Vec<u8>>,
    ) -> (found: Result<Vec<Address>, Error>)
        ensures
            match found {
                Ok(contributors) => {
                    &&& self@.study_registry is Some
                    &&& address_views(contributors@) == contributors_of(
                        registry@.studies,
                        byte_views(study_ids@),
                    )
                    &&& contributors@.len() <= study_ids@.len()
                },
                Err(e) => self@.study_registry is None && e == Error::StudyRegistryNotSet,
            },
    {
        if self.study_registry.is_none() {
            return Err(Error::StudyRegistryNotSet);
        }
        let ghost ids = byte_views(study_ids@);
        let ghost resolve = resolver(registry@.studies);
        let mut contributors: Vec<Address> = Vec::new();
        let mut i: usize = 0;
        assert(ids.take(0) =~= Seq::empty());
        while i < study_ids.len()
            invariant
                0 <= i <= study_ids@.len(),
                ids == byte_views(study_ids@),
                resolve == resolver(registry@.studies),
                contributors@.len() <= i,
                address_views(contributors@) == ids.take(i as int).filter_map(resolve),
            decreases study_ids@.len() - i,
        {
            proof {
                assert(ids.take(i + 1).drop_last() =~= ids.take(i as int));
                assert(ids.take(i + 1).last() == study_ids@[i as int]@);
            }
            let resolved: Option<Address> = match hash_from_bytes(&study_ids[i]) {
                Some(study_hash) => match registry.get_study(study_hash) {
                    Ok(study) => Some(study.contributor),
                    Err(_) => None,
                },
                None => None,
            };
            match resolved {
                Some(contributor) => {
                    proof {
                        assert(resolve(study_ids@[i as int]@) == Some(contributor@));
                        assert(address_views(contributors@.push(contributor)) =~= address_views(
                            contributors@,
                        ).push(contributor@));
                        assert(address_views(contributors@) + seq![contributor@]
                            =~= address_views(contributors@).push(contributor@));
                    }
                    contributors.push(contributor);
                },
                None => {
                    assert(resolve(study_ids@[i as int]@) is None);
                },
            }
            i += 1;
        }
        assert(ids.take(ids.len() as int) =~= ids);
        Ok(contributors)
    }

    /// The reference that stands for the payment of a purchase: the dataset
    /// id, the ledger time as eight bytes, most significant first, and the
    /// five bytes of the word "buyer".
    pub fn generate_tx_hash(dataset_id: &Vec<u8>, buyer: &Address, timestamp: u64) -> (reference:
        Vec<u8>)
        ensures
            reference@ == payment_reference(dataset_id@, timestamp),
    {
        let mut reference: Vec<u8> = copy_bytes(dataset_id);
        push_big_endian(&mut reference, timestamp);
        reference.push(98u8);
        reference.push(117u8);
        reference.push(121u8);
        reference.push(101u8);
        reference.push(114u8);
        assert(reference@ =~= payment_reference(dataset_id@, timestamp));
        reference
    }

    /// The events logged so far, oldest first.
    pub fn events(&self) -> (log: &Vec<Event>)
        ensures
            log@.map_values(|e: Event| e@) == self@.events,
    {
        &self.events
    }
}

/// A list of valid datasets stands for a valid catalog.
proof fn lemma_valid_datasets_valid_catalog(datasets: Seq<Dataset>)
    requires
        forall|i: int| 0 <= i < datasets.len() ==> dataset_valid(#[trigger] datasets[i]@),
    ensures
        forall|id: Seq<u8>| #[trigger]
            entries_map(dataset_entries(datasets)).contains_key(id) ==> entries_map(
                dataset_entries(datasets),
            )[id].dataset_id == id && dataset_valid(entries_map(dataset_entries(datasets))[id]),
    decreases datasets.len(),
{
    let entries = dataset_entries(datasets);
    if datasets.len() > 0 {
        let earlier = datasets.drop_last();
        assert(entries.drop_last() =~= dataset_entries(earlier));
        assert forall|i: int| 0 <= i < earlier.len() implies dataset_valid(
            #[trigger] earlier[i]@,
        ) by {
            assert(earlier[i] == datasets[i]);
        }
        lemma_valid_datasets_valid_catalog(earlier);
        assert(dataset_valid(datasets[datasets.len() - 1]@));
        assert(entries.last() == (datasets.last().dataset_id@, datasets.last()@));
        assert forall|id: Seq<u8>| #[trigger] entries_map(entries).contains_key(id) implies 
            entries_map(entries)[id].dataset_id == id && dataset_valid(entries_map(entries)[id]) by {
            if id != entries.last().0 {
                assert(entries_map(dataset_entries(earlier)).contains_key(id));
            }
        }
    }
}

/// Registering a dataset id that is already in the catalog always fails and
/// changes nothing, whatever study list and price come with it; with a study
/// list that is not empty and a price above zero it fails with
/// `DatasetAlreadyExists`.
pub proof fn law_duplicate_dataset_refused(
    market: MarketState,
    dataset_id: Seq<u8>,
    study_ids: Seq<Seq<u8>>,
    price_usdc: int,
)
    requires
        market.datasets.contains_key(dataset_id),
    ensures
        market.register_outcome(dataset_id, study_ids, price_usdc) is Err,
        market.after_register(dataset_id, study_ids, price_usdc) == market,
        study_ids.len() > 0 && price_usdc > 0 && dataset_id.len() > 0 ==> market.register_outcome(
            dataset_id,
            study_ids,
            price_usdc,
        ) == Err::<(), Error>(Error::DatasetAlreadyExists),
{
}

/// Registering the same dataset id twice: if the first registration
/// succeeds, a second one with a study list that is not empty and a price
/// above zero fails with `DatasetAlreadyExists`, and the dataset of the first
/// stays as it was registered.
pub proof fn law_second_registration_refused(
    market: MarketState,
    dataset_id: Seq<u8>,
    study_ids: Seq<Seq<u8>>,
    price_usdc: int,
    study_ids2: Seq<Seq<u8>>,
    price_usdc2: int,
)
    requires
        market.register_outcome(dataset_id, study_ids, price_usdc) is Ok,
        study_ids2.len() > 0,
        price_usdc2 > 0,
    ensures
        ({
            let first = market.after_register(dataset_id, study_ids, price_usdc);
            &&& first.register_outcome(dataset_id, study_ids2, price_usdc2) == Err::<(), Error>(
                Error::DatasetAlreadyExists,
            )
            &&& first.after_register(dataset_id, study_ids2, price_usdc2) == first
            &&& first.datasets[dataset_id] == DatasetView { dataset_id, study_ids, price_usdc }
        }),
{
}

/// Right after a successful registration, looking the id up gives the dataset
/// that was registered.
pub proof fn law_registered_dataset_is_found(
    market: MarketState,
    dataset_id: Seq<u8>,
    study_ids: Seq<Seq<u8>>,
    price_usdc: int,
)
    requires
        market.register_outcome(dataset_id, study_ids, price_usdc) is Ok,
    ensures
        market.after_register(dataset_id, study_ids, price_usdc).dataset(dataset_id) == Ok::<
            DatasetView,
            Error,
        >(DatasetView { dataset_id, study_ids, price_usdc }),
{
}

/// A registration with an empty study list fails with `InvalidStudyIds`,
/// unless the id is empty too, and leaves no dataset behind.
pub proof fn law_empty_study_list_refused(market: MarketState, dataset_id: Seq<u8>, price_usdc: int)
    requires
        dataset_id.len() > 0,
    ensures
        market.register_outcome(dataset_id, Seq::empty(), price_usdc) == Err::<(), Error>(
            Error::InvalidStudyIds,
        ),
        market.after_register(dataset_id, Seq::empty(), price_usdc) == market,
{
}

/// A registration keeps the catalog valid, and never changes or removes a
/// dataset that was in it.
pub proof fn law_catalog_only_grows(
    market: MarketState,
    dataset_id: Seq<u8>,
    study_ids: Seq<Seq<u8>>,
    price_usdc: int,
    kept: Seq<u8>,
)
    requires
        market.valid(),
        study_ids.len() <= u32::MAX,
        price_usdc <= i128::MAX,
        market.datasets.contains_key(kept),
    ensures
        market.after_register(dataset_id, study_ids, price_usdc).valid(),
        market.after_register(dataset_id, study_ids, price_usdc).dataset(kept) == market.dataset(
            kept,
        ),
{
}

/// The purchase of a dataset that is not in the catalog fails with
/// `DatasetNotFound`, and changes neither the marketplace nor the payout
/// engine nor the asset ledger.
pub proof fn law_unknown_dataset_not_sold(
    market: MarketState,
    registry: RegistryState,
    splitter: SplitterState,
    balances: Balances,
    dataset_id: Seq<u8>,
    buyer: Seq<u8>,
    timestamp: u64,
)
    requires
        !market.datasets.contains_key(dataset_id),
    ensures
        market.purchase_outcome(registry, splitter, balances, dataset_id, buyer) == Err::<
            DatasetView,
            Error,
        >(Error::DatasetNotFound),
        market.after_purchase(registry, splitter, balances, dataset_id, buyer, timestamp)
            == market,
        market.splitter_after_purchase(registry, splitter, balances, dataset_id, buyer)
            == splitter,
        market.balances_after_purchase(registry, splitter, balances, dataset_id, buyer)
            == balances,
{
}

/// The purchase of a dataset of a valid catalog fails with
/// `RevenueSplitterNotSet` while the payout engine is not linked, and with
/// `StudyRegistryNotSet` while the payout engine is linked and the study
/// registry is not. Either way no purchase is recorded.
pub proof fn law_unlinked_marketplace_does_not_sell(
    market: MarketState,
    registry: RegistryState,
    splitter: SplitterState,
    balances: Balances,
    dataset_id: Seq<u8>,
    buyer: Seq<u8>,
    timestamp: u64,
)
    requires
        market.valid(),
        market.datasets.contains_key(dataset_id),
        market.revenue_splitter is None || market.study_registry is None,
    ensures
        market.purchase_outcome(registry, splitter, balances, dataset_id, buyer) == Err::<
            DatasetView,
            Error,
        >(
            if market.revenue_splitter is None {
                Error::RevenueSplitterNotSet
            } else {
                Error::StudyRegistryNotSet
            },
        ),
        market.after_purchase(
            registry,
            splitter,
            balances,
            dataset_id,
            buyer,
            timestamp,
        ).purchases == market.purchases,
        market.after_purchase(registry, splitter, balances, dataset_id, buyer, timestamp)
            == market,
{
}

/// A purchase that fails, for whatever reason, changes neither the
/// marketplace nor the payout engine nor the asset ledger.
pub proof fn law_failed_purchase_changes_nothing(
    market: MarketState,
    registry: RegistryState,
    splitter: SplitterState,
    balances: Balances,
    dataset_id: Seq<u8>,
    buyer: Seq<u8>,
    timestamp: u64,
)
    requires
        market.purchase_outcome(registry, splitter, balances, dataset_id, buyer) is Err,
    ensures
        market.after_purchase(registry, splitter, balances, dataset_id, buyer, timestamp)
            == market,
        market.splitter_after_purchase(registry, splitter, balances, dataset_id, buyer)
            == splitter,
        market.balances_after_purchase(registry, splitter, balances, dataset_id, buyer)
            == balances,
{
}

/// A purchase is recorded only with its payout: if the purchase of a dataset
/// that has a contributor succeeds, the payout to its contributors has
/// succeeded and its events are logged. And right after a successful
/// purchase, looking it up gives the record that was written.
pub proof fn law_purchase_recorded_with_payout(
    market: MarketState,
    registry: RegistryState,
    splitter: SplitterState,
    balances: Balances,
    dataset_id: Seq<u8>,
    buyer: Seq<u8>,
    timestamp: u64,
)
    requires
        market.purchase_outcome(registry, splitter, balances, dataset_id, buyer) is Ok,
    ensures
        ({
            let payees = market.payees(registry, dataset_id);
            let sold = market.after_purchase(
                registry,
                splitter,
                balances,
                dataset_id,
                buyer,
                timestamp,
            );
            let engine = market.splitter_after_purchase(
                registry,
                splitter,
                balances,
                dataset_id,
                buyer,
            );
            &&& sold.purchase(dataset_id, buyer) == Ok::<PurchaseRecordView, Error>(
                market.purchase_record(dataset_id, buyer, timestamp),
            )
            &&& payees.len() > 0 ==> splitter.payout_outcome(balances, payees) is Ok
                && engine.events == splitter.events + crate::revenue_splitter::payout_events(
                dataset_id,
                payees,
            )
            &&& payees.len() == 0 ==> engine == splitter && market.balances_after_purchase(
                registry,
                splitter,
                balances,
                dataset_id,
                buyer,
            ) == balances
        }),
{
}

/// Purchases of one dataset by two different buyers are recorded side by
/// side: the second leaves the record of the first as it was.
pub proof fn law_purchases_are_independent(
    market: MarketState,
    registry: RegistryState,
    splitter: SplitterState,
    balances: Balances,
    dataset_id: Seq<u8>,
    buyer: Seq<u8>,
    timestamp: u64,
    other_buyer: Seq<u8>,
)
    requires
        other_buyer != buyer,
    ensures
        market.after_purchase(
            registry,
            splitter,
            balances,
            dataset_id,
            buyer,
            timestamp,
        ).purchase(dataset_id, other_buyer) == market.purchase(dataset_id, other_buyer),
{
}

} // verus!
