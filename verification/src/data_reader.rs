//! Readers of account data: one that asks a brokerage interface, and a
//! stand-in with fixed answers for stored-data runs.
use vstd::prelude::*;
use crate::api::StockApi;
use crate::clock::local_now;
use crate::error::{StockrsError, StockrsResult};
use crate::types::{ApiType, AssetInfo, DataReaderType};

verus! {

/// Where the account's assets and average prices are read.
pub trait DataReader {
    /// The account's assets.
    fn get_asset_info(&self) -> StockrsResult<AssetInfo>;

    /// The average purchase price of a holding, in won.
    fn get_avg_price(&self, stockcode: String) -> StockrsResult<u64>;
}

/// Builds the brokerage interface of a kind.
pub trait ApiFactory {
    type Api: StockApi;

    /// The interface for `api_type`; `trading` is false for an interface that
    /// only reads data.
    fn create_api(&self, api_type: ApiType, trading: bool) -> Self::Api;
}

/// A reader that asks a brokerage interface.
pub struct ApiDataReader<A: StockApi> {
    api: A,
    requested: Ghost<(ApiType, bool)>,
}

impl<A: StockApi> ApiDataReader<A> {
    /// The reader over a data-only interface of `api_type`.
    pub fn new<F: ApiFactory<Api = A>>(api_type: ApiType, factory: &F) -> (r: Self)
        ensures
            r.requested() == (api_type, false),
    {
        ApiDataReader { api: factory.create_api(api_type, false), requested: Ghost((api_type, false)) }
    }

    /// The interface the reader asks.
    pub closed spec fn interface(&self) -> A {
        self.api
    }

    /// The kind and use the interface was built for: `(api_type, trading)`
    /// as handed to the factory.
    pub closed spec fn requested(&self) -> (ApiType, bool) {
        self.requested@
    }
}

impl<A: StockApi> DataReader for ApiDataReader<A> {
    fn get_asset_info(&self) -> (r: StockrsResult<AssetInfo>)
        ensures
            call_ensures(A::get_balance, (&self.interface(),), r),
    {
        self.api.get_balance()
    }

    /// Not offered by this reader: it always answers `UnsupportedFeature`
    /// and never panics.
    fn get_avg_price(&self, stockcode: String) -> (r: StockrsResult<u64>)
        ensures
            r matches Err(StockrsError::UnsupportedFeature { .. }),
    {
        Err(
            StockrsError::UnsupportedFeature {
                feature: String::from_str("average price of a holding"),
                phase: String::from_str("brokerage data reader"),
            },
        )
    }
}

/// The stand-in reader's fixed assets in won.
pub const DB_READER_ASSET: u64 = 1_000_000;

/// The stand-in reader's fixed average price in won.
pub const DB_READER_AVG_PRICE: u64 = 70_000;

/// A reader with fixed answers.
pub struct DbDataReader;

impl DataReader for DbDataReader {
    fn get_asset_info(&self) -> (r: StockrsResult<AssetInfo>)
        ensures
            r matches Ok(a) && a.asset == DB_READER_ASSET && a.date.wf(),
    {
        Ok(AssetInfo::new(local_now(), DB_READER_ASSET))
    }

    fn get_avg_price(&self, stockcode: String) -> (r: StockrsResult<u64>)
        ensures
            r == Ok::<u64, StockrsError>(DB_READER_AVG_PRICE),
    {
        Ok(DB_READER_AVG_PRICE)
    }
}

/// A reader of either kind.
pub enum AnyDataReader<A: StockApi> {
    Api(ApiDataReader<A>),
    Db(DbDataReader),
}

impl<A: StockApi> DataReader for AnyDataReader<A> {
    fn get_asset_info(&self) -> (r: StockrsResult<AssetInfo>)
        ensures
            self is Db ==> (r matches Ok(a) && a.asset == DB_READER_ASSET && a.date.wf()),
    {
        match self {
            AnyDataReader::Api(reader) => reader.get_asset_info(),
            AnyDataReader::Db(reader) => reader.get_asset_info(),
        }
    }

    fn get_avg_price(&self, stockcode: String) -> (r: StockrsResult<u64>)
        ensures
            self is Db ==> r == Ok::<u64, StockrsError>(DB_READER_AVG_PRICE),
            self is Api ==> r matches Err(StockrsError::UnsupportedFeature { .. }),
    {
        match self {
            AnyDataReader::Api(reader) => reader.get_avg_price(stockcode),
            AnyDataReader::Db(reader) => reader.get_avg_price(stockcode),
        }
    }
}

/// The reader of a kind: the real or paper brokerage, or the stand-in.
pub fn make_data_reader<F: ApiFactory>(kind: DataReaderType, factory: &F) -> (r: AnyDataReader<F::Api>)
    ensures
        kind == DataReaderType::DB <==> r is Db,
        kind == DataReaderType::REAL ==> (r matches AnyDataReader::Api(reader) && reader.requested()
            == (ApiType::Real, false)),
        kind == DataReaderType::PAPER ==> (r matches AnyDataReader::Api(reader) && reader.requested()
            == (ApiType::Paper, false)),
{
    match kind {
        DataReaderType::REAL => AnyDataReader::Api(ApiDataReader::new(ApiType::Real, factory)),
        DataReaderType::PAPER => AnyDataReader::Api(ApiDataReader::new(ApiType::Paper, factory)),
        DataReaderType::DB => AnyDataReader::Db(DbDataReader),
    }
}

} // verus!
