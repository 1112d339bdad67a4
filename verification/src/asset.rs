//! Assets that arrive some frames after they were asked for.

use vstd::prelude::*;

verus! {

/// The load behind an asset reported a failure.
#[derive(Clone, Copy, Debug, PartialEq, Eq, Structural)]
pub struct AssetLoadError;

/// What one non-blocking poll of a load handle said.
#[derive(Debug)]
pub enum LoadReport<T> {
    /// The load has not finished.
    Pending,
    /// The load finished with this value.
    Ready(T),
    /// The load failed.
    Failed,
}

/// What one poll meant for the asset.
#[derive(Clone, Copy, Debug, PartialEq, Eq, Structural)]
pub enum PollStatus {
    /// Nothing changed: still loading, or settled earlier.
    StillPending,
    /// This poll brought the value.
    BecameReady,
}

/// A value that is either still being loaded or at hand.
///
/// The load handle stays with the driver; the asset records what the
/// driver's polls reported.  Once `Ready`, an asset never changes again.
#[derive(Debug)]
pub enum AsyncAsset<T> {
    Pending,
    Ready(T),
}

impl<T> AsyncAsset<T> {
    /// The asset after a poll that reported `report`.
    pub open spec fn after_poll(self, report: LoadReport<T>) -> AsyncAsset<T> {
        match (self, report) {
            (AsyncAsset::Pending, LoadReport::Ready(value)) => AsyncAsset::Ready(value),
            _ => self,
        }
    }

    /// What a poll that reported `report` returns.
    pub open spec fn poll_result(self, report: LoadReport<T>) -> Result<
        PollStatus,
        AssetLoadError,
    > {
        match (self, report) {
            (AsyncAsset::Pending, LoadReport::Ready(_)) => Ok(PollStatus::BecameReady),
            (AsyncAsset::Pending, LoadReport::Failed) => Err(AssetLoadError),
            _ => Ok(PollStatus::StillPending),
        }
    }

    /// An asset whose load was just issued.
    pub fn pending() -> (a: AsyncAsset<T>)
        ensures
            a == AsyncAsset::<T>::Pending,
    {
        AsyncAsset::Pending
    }

    pub fn is_ready(&self) -> (b: bool)
        ensures
            b == (self is Ready),
    {
        match self {
            AsyncAsset::Ready(_) => true,
            AsyncAsset::Pending => false,
        }
    }

    /// The value, once it has arrived.
    pub fn value(&self) -> (v: Option<&T>)
        ensures
            match *self {
                AsyncAsset::Ready(value) => v == Some(&value),
                AsyncAsset::Pending => v is None,
            },
    {
        match self {
            AsyncAsset::Ready(value) => Some(value),
            AsyncAsset::Pending => None,
        }
    }

    /// Takes in the report of one poll of the load handle.
    ///
    /// A pending asset becomes ready when the report brings the value and
    /// fails when the report is a failure.  A ready asset ignores the
    /// report: it is settled.
    pub fn poll(&mut self, report: LoadReport<T>) -> (r: Result<PollStatus, AssetLoadError>)
        ensures
            *final(self) == old(self).after_poll(report),
            r == old(self).poll_result(report),
            *old(self) is Ready ==> *final(self) == *old(self),
    {
        match self {
            AsyncAsset::Ready(_) => Ok(PollStatus::StillPending),
            AsyncAsset::Pending => match report {
                LoadReport::Pending => Ok(PollStatus::StillPending),
                LoadReport::Ready(value) => {
                    *self = AsyncAsset::Ready(value);
                    Ok(PollStatus::BecameReady)
                },
                LoadReport::Failed => Err(AssetLoadError),
            },
        }
    }
}

} // verus!
