//! Empty implementations for simple providers.
use vstd::prelude::*;

verus! {

/// Metadata that accepts all operations and stores nothing.
#[derive(Clone, Copy, Debug)]
pub struct Metadataless {}

/// Marker event type for engines that do not emit application events.
pub struct Eventless;

/// Marker metric type for engines that do not emit custom metrics.
pub struct Metricless;

} // verus!
