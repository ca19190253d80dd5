//! What one look at a source's page gives.

use vstd::prelude::*;
use crate::event::{DataRustIndiaEvents, EventModel};

verus! {

/// Why a source contributed nothing.
#[derive(Clone, Copy, Debug, PartialEq, Eq, Structural)]
pub enum SourceError {
    /// The page could not be fetched.
    Fetch,
    /// An element the page must have is missing.
    Extraction,
    /// A date does not match the source's pattern.
    DateFormat,
}

/// The result of reading one page of a source.
#[derive(Debug)]
pub enum Scan {
    /// The page lists this event.
    Found(DataRustIndiaEvents),
    /// The page says there is nothing to list.
    Nothing,
    /// No upcoming event: the source's page of past events comes next.
    NeedPast,
    /// The page could not be read.
    Failed(SourceError),
}

/// A scan result, with its event as texts.
pub enum ScanModel {
    Found(EventModel),
    Nothing,
    NeedPast,
    Failed(SourceError),
}

impl View for Scan {
    type V = ScanModel;

    open spec fn view(&self) -> ScanModel {
        match self {
            Scan::Found(e) => ScanModel::Found(e@),
            Scan::Nothing => ScanModel::Nothing,
            Scan::NeedPast => ScanModel::NeedPast,
            Scan::Failed(err) => ScanModel::Failed(*err),
        }
    }
}

} // verus!
